//! The failure kinds a decode can end in.

use vstd::prelude::*;

verus! {

/// Why a datagram failed to decode.
///
/// The first failure at any level aborts the whole packet decode; there is
/// no partial-packet result and no per-option recovery.
#[derive(Clone, Copy, Debug, PartialEq, Eq, Structural)]
pub enum DecodeError {
    /// The buffer ends before a required field or declared length is satisfied.
    Truncated,
    /// The 4-byte cookie after the fixed header is not `63 82 53 63`.
    BadMagicCookie,
    /// The opcode byte is neither 1 (request) nor 2 (reply).
    InvalidOpcode,
    /// The hardware-type byte names anything but Ethernet (1).
    UnsupportedHardwareType,
    /// The 2-byte flags field holds a pattern other than `0x8000` or `0x0000`.
    InvalidFlags,
    /// A declared option length violates the option's width or alignment rule.
    InvalidOptionLength,
    /// A message-type option carries a byte outside 1 through 9.
    InvalidMessageType,
    /// An option value is out of its allowed range.
    InvalidOptionValue,
    /// A text option carries bytes that are not valid UTF-8.
    InvalidEncoding,
}

} // verus!
