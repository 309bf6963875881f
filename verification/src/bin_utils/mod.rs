//! Helpers shared by the command-line programs: clock sources, interface
//! checks and CSV records.

pub mod csv;
pub mod network;

pub use self::network::{ClockSource, ValidatedInterfaceError};
pub mod loopback;
