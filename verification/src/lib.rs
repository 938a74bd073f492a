//! Controller logic for a built-in haptic actuator reached through the
//! operating system's device registry and a low-level actuation service.
//!
//! The library holds the verified core: candidate selection during device
//! discovery, decimal parsing of device identifiers, and the session state
//! machine that opens, actuates (with a single retry) and closes the device.
//! The operating-system calls themselves are performed by a host application
//! that drives the state machine with the outcomes of those calls.

pub mod decimal;
pub mod discovery;
pub mod laws;
pub mod session;
