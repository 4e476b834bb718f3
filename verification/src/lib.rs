//! Decides what a single application window should do when a global hotkey fires.
//!
//! The host delivers hotkey notifications and answers questions about the
//! window; this crate only decides. Every decision is a function of the
//! immediate observation, so nothing is remembered between two notifications.

pub mod action;
pub mod controller;
pub mod hotkey;
pub mod laws;
pub mod run;
pub mod window;
