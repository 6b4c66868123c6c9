//! A verified decoder for BOOTP/DHCP datagrams.
//!
//! The crate turns a raw UDP payload into a typed [`packet::DhcpPacket`]:
//! the fixed BOOTP header (RFC 951 framing) followed by the DHCP option
//! area (RFC 2132 tag-length-value records).  Every decoding step is
//! specified against a mathematical description of the wire format and
//! proved to follow it; malformed input yields a typed
//! [`error::DecodeError`], never a panic.

pub mod display;
pub mod error;
pub mod fields;
pub mod options;
pub mod packet;
pub mod types;
