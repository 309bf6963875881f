//! Stream formats carried in AVTP stream headers.

pub mod aaf;
