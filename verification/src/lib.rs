//! A small terminal counter application, split into a verified core and a
//! thin rendering shell.
//!
//! The core consists of the counter state machine ([`counter`]), the
//! translation of keyboard input into commands ([`input`]), and the terminal
//! session lifecycle ([`session`]). The shell (the accompanying binary) owns
//! the actual terminal device and drives the render loop; every decision it
//! makes goes through the functions verified here.

pub mod counter;
pub mod input;
pub mod session;
