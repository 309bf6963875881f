//! AVTP Audio Format (AAF).

pub mod aes3;
pub mod common;
pub mod pcm;
pub mod stream;

pub use self::common::{Aaf, AafFormat, AafFormatSpecificError, AafVariant, InvalidAaf};
pub use self::pcm::{AafPcm, PcmFormat, SampleRate};
pub use self::stream::{AafPcmListener, AafPcmTalker, ReceivedPcm};
