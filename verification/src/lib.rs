//! Single-instance window lifecycle coordination for a desktop shell.
//!
//! The shell owns one distinguished main window. This crate decides what a
//! launch of the executable means (first launch or relaunch), what a
//! relaunch does to the main window, and whether a close request on the
//! main window goes through. Every decision is a function from the observed
//! windows and an event to the effects that the user-interface runtime is
//! to carry out, so it can be stated and proved without a runtime.

pub mod channel;
pub mod commands;
pub mod config;
pub mod controller;
pub mod launch;
pub mod process;
pub mod registry;
pub mod text;
pub mod theorems;
pub mod window;
