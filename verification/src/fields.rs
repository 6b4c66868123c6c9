//! Primitive field decoders: fixed-width big-endian integers, IPv4
//! address fields and the hardware address, read at a given offset of an
//! immutable byte buffer.

use vstd::prelude::*;

use crate::types::{Ipv4Address, MacAddr};

verus! {

/// The big-endian 16-bit value held by the two bytes at `i`.
pub open spec fn spec_be_u16(b: Seq<u8>, i: int) -> int
    recommends
        0 <= i,
        i + 2 <= b.len(),
{
    b[i] * 0x100 + b[i + 1]
}

/// The big-endian 32-bit value held by the four bytes at `i`.
pub open spec fn spec_be_u32(b: Seq<u8>, i: int) -> int
    recommends
        0 <= i,
        i + 4 <= b.len(),
{
    b[i] * 0x1000000 + b[i + 1] * 0x10000 + b[i + 2] * 0x100 + b[i + 3]
}

/// The IPv4 address held by the four bytes at `i`.
pub open spec fn spec_ipv4(b: Seq<u8>, i: int) -> Ipv4Address
    recommends
        0 <= i,
        i + 4 <= b.len(),
{
    Ipv4Address { o0: b[i], o1: b[i + 1], o2: b[i + 2], o3: b[i + 3] }
}

/// An optional IPv4 address field: an all-zero 4-byte span means the
/// field is absent, any other span is the literal address.
pub open spec fn spec_ipv4_or_absent(b: Seq<u8>, i: int) -> Option<Ipv4Address>
    recommends
        0 <= i,
        i + 4 <= b.len(),
{
    if b[i] == 0 && b[i + 1] == 0 && b[i + 2] == 0 && b[i + 3] == 0 {
        None
    } else {
        Some(spec_ipv4(b, i))
    }
}

/// The hardware address held by the six bytes at `i`; the bytes after
/// them play no part.
pub open spec fn spec_mac(b: Seq<u8>, i: int) -> MacAddr
    recommends
        0 <= i,
        i + 6 <= b.len(),
{
    MacAddr {
        m0: b[i],
        m1: b[i + 1],
        m2: b[i + 2],
        m3: b[i + 3],
        m4: b[i + 4],
        m5: b[i + 5],
    }
}

/// Read the big-endian 16-bit integer at `i`.
pub fn read_be_u16(b: &[u8], i: usize) -> (r: u16)
    requires
        i + 2 <= b@.len(),
    ensures
        r == spec_be_u16(b@, i as int),
{
    (b[i] as u16) * 0x100 + (b[i + 1] as u16)
}

/// Read the big-endian 32-bit integer at `i`.
pub fn read_be_u32(b: &[u8], i: usize) -> (r: u32)
    requires
        i + 4 <= b@.len(),
    ensures
        r == spec_be_u32(b@, i as int),
{
    (b[i] as u32) * 0x1000000 + (b[i + 1] as u32) * 0x10000 + (b[i + 2] as u32) * 0x100 + (b[i
        + 3] as u32)
}

/// Read the IPv4 address at `i`.
pub fn read_ipv4(b: &[u8], i: usize) -> (r: Ipv4Address)
    requires
        i + 4 <= b@.len(),
    ensures
        r == spec_ipv4(b@, i as int),
{
    Ipv4Address { o0: b[i], o1: b[i + 1], o2: b[i + 2], o3: b[i + 3] }
}

/// Read an optional IPv4 address field at `i`: `None` exactly when all
/// four bytes are zero.
pub fn read_ipv4_or_absent(b: &[u8], i: usize) -> (r: Option<Ipv4Address>)
    requires
        i + 4 <= b@.len(),
    ensures
        r == spec_ipv4_or_absent(b@, i as int),
{
    if b[i] == 0 && b[i + 1] == 0 && b[i + 2] == 0 && b[i + 3] == 0 {
        None
    } else {
        Some(Ipv4Address { o0: b[i], o1: b[i + 1], o2: b[i + 2], o3: b[i + 3] })
    }
}

/// Read the 6-byte hardware address at `i`.
pub fn read_mac(b: &[u8], i: usize) -> (r: MacAddr)
    requires
        i + 6 <= b@.len(),
    ensures
        r == spec_mac(b@, i as int),
{
    MacAddr {
        m0: b[i],
        m1: b[i + 1],
        m2: b[i + 2],
        m3: b[i + 3],
        m4: b[i + 4],
        m5: b[i + 5],
    }
}

} // verus!
