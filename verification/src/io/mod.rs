//! Error plumbing and big-endian byte helpers shared by the packet codecs.

pub mod bytes;
pub mod enc_dec;
pub mod text;
