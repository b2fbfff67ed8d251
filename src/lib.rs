//! Window and tray lifecycle of the SmartCal desktop shell.
//!
//! The host GUI framework delivers menu selections, tray-icon events and
//! window-close requests. This library decides, for each of them, what the
//! shell does with the main window or the process, and keeps a model of the
//! resulting state so that the lifecycle rules can be stated and proved.

pub mod text;
pub mod events;
pub mod session;
pub mod laws;
pub mod menu;
