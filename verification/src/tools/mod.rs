//! Editing tools.

pub mod editing_tools;
pub mod input_routing;
pub mod tool_state;

pub use tool_state::{ToolId, ToolState};
