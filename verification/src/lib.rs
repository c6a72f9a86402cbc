//! Coordinates script injection into named webview windows.
//!
//! A desktop shell hosts a primary window and may open a secondary one that
//! shows an external page. Scripts are evaluated in these windows some time
//! after they were opened and again after every page load, and results are
//! relayed back to the primary window as events.
//!
//! This library decides; it performs nothing. The shell tells the
//! [`coordinator::Coordinator`] what happened (a command arrived, a window
//! was built or closed, a page finished loading, a timer ran out) and gets
//! back what to do: an [`action::Action`] to perform, an
//! [`attempt::Attempt`] to arm a timer for, a [`window::WindowSpec`] to
//! build, or a [`error::CoordinatorError`] to hand to the caller.
//!
//! [`model`] holds the coordinator as a mathematical value and every
//! decision as a function on it; the contracts of [`coordinator`] and
//! [`commands`] say that the code computes exactly those functions, and
//! [`laws`] proves what follows for every state.

pub mod action;
pub mod attempt;
pub mod commands;
pub mod coordinator;
pub mod error;
pub mod event;
pub mod greeting;
pub mod laws;
pub mod model;
pub mod window;
