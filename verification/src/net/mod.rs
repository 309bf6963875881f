//! Network addresses and interface names.

pub mod mac_address;
pub mod interface;

pub use self::interface::NetworkInterface;
pub use self::mac_address::{MacAddress, MacParseError};
