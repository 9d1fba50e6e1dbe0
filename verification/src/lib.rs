//! Decision logic of a command-line tool that switches every controllable
//! peripheral of a development board on or off over USB.
//!
//! The tool sends one fixed 64-byte report to the board's debug probe and
//! reads one acknowledgement. This crate holds everything the tool decides
//! and nothing it does to the outside world:
//!
//! - [`action`] reads the request from the positional arguments;
//! - [`payload`] builds the report for a request;
//! - [`session`] is the run as a state machine: it names the next operation
//!   on the device and takes in how each one went;
//! - [`trace`] proves what holds of every run of that machine;
//! - [`hex`] renders the acknowledgement;
//! - [`error`] names the failures, their messages and the exit status.
//!
//! The caller owns the device: it performs each [`session::Step`] and reports
//! an [`session::Event`] until the session asks it to exit.

pub mod action;
pub mod error;
pub mod hex;
pub mod payload;
pub mod session;
pub mod trace;
