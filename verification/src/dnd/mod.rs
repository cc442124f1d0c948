//! Drag and drop between windows and other applications.

pub mod action;
pub mod data;
pub mod drag_state;
pub mod events;
pub mod offer;
pub mod trace;
