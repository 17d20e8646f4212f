//! The decision logic of a fishing script for a game-automation host.
//!
//! The host asks the script, on a timer, what to do next. This library holds
//! the script's state (its configuration and its run statistics) and a
//! verified state machine that turns each answer the host gives into the next
//! command for the host to carry out.

pub mod config;
pub mod controller;
pub mod progress;
pub mod script;
