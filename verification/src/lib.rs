//! Control of Robstride motors over a CAN bus.
//!
//! The library decides and the program around it does the rest: nothing here opens a socket,
//! waits or prints. A function returns the frame to send or the step to take, or takes what
//! came of it. Floating point values travel as the words of the protocol or as their bits.
//!
//! - [`protocol`]: identifiers, requests and responses
//! - [`transport`]: classic and flexible data rate frames
//! - [`motor`]: a single motor, and looking for motors
//! - [`driver`]: motors of either vendor on one bus
//! - [`bilateral`]: the loop that couples two motors
//! - [`serial_can`]: adapters behind a serial port
//! - [`can_lock`]: one process per interface
//! - [`cli`]: the command line tool
//! - [`tui`]: the terminal application
//! - [`error`]: what can go wrong
//! - [`text`]: texts and numbers in them

pub mod bilateral;
pub mod can_lock;
pub mod cli;
pub mod driver;
pub mod error;
pub mod motor;
pub mod protocol;
pub mod serial_can;
pub mod text;
pub mod transport;
pub mod tui;
