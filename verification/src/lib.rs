//! IEEE 1722 (AVTP) packet formats, AAF audio payloads, PTP time arithmetic and
//! RIFF/WAVE handling, with their behaviour stated as Verus contracts.

pub mod audio;
pub mod avtp;
pub mod bin_utils;
pub mod io;
pub mod net;
pub mod ptp;
pub mod ptp_phc;
