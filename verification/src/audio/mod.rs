//! Audio file formats.

pub mod wav;
pub mod wav_lemmas;
