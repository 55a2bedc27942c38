//! Derivation of an IPv6 Unique Local Address (ULA) /48 prefix in the manner
//! of RFC 4193: an identifier (a MAC address turned into a modified EUI-64
//! token, or an arbitrary byte string) is concatenated with an 8-byte NTP
//! timestamp, hashed with SHA-1, and the digest's last five bytes become the
//! prefix body between the fixed `0xfd` marker and two reserved zero bytes.

pub mod digest;
pub mod error;
pub mod hexfmt;
pub mod identifier;
pub mod prefix;
pub mod timestamp;
