//! The terminal interface: its tabs, their state machines, and the
//! navigation between them.

pub mod app;
pub mod communication;
pub mod events;
pub mod tabs;
