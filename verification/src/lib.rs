//! Editing logic of the Bezy font editor: the text editor's sort buffer
//! (typing, deleting, cursor movement, text flow layout, sort placement),
//! Arabic shaping, the unified tool state and input routing, the terminal
//! interface's tab state machines, and deferred font loading.

pub mod editing;
pub mod font_loading;
pub mod settings;
pub mod shaping;
pub mod strings;
pub mod text;
pub mod tui;
pub mod tools;
