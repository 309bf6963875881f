//! AVTP (IEEE 1722) packet model.

pub mod timestamp;

pub use self::timestamp::AvtpTimestamp;
pub mod subtype;

pub use self::subtype::{EncapsulationStyle, IncompatibleSubtype, Subtype, UnknownSubtype};
pub mod stream_id;

pub use self::stream_id::StreamID;
pub mod headers;

pub use self::headers::HeaderType;
pub mod avtpdu;
pub mod formats;

pub use self::avtpdu::{Avtpdu, AvtpduError};
pub mod stream;

pub use self::stream::{StreamFilter, StreamListener, StreamTalker};
pub mod synchronizer;
pub use self::synchronizer::ClockError;
pub mod transport;
