//! Carrying AVTP data units over a link layer.

pub mod ethernet;
