//! Reading the state that `ptp4l` reports through `pmc`, and what a managed
//! `ptp4l` instance is started with.

pub mod state;
pub mod instance;
pub mod monitor;
