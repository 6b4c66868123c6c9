//! The fixed BOOTP header and the assembled packet.
//!
//! The fixed header is exactly 236 bytes followed by the 4-byte magic
//! cookie `63 82 53 63`; the option stream begins at byte 240.  Sixteen
//! bytes are reserved for the hardware address, of which only the first
//! six are the MAC; the 192 bytes of the legacy server-name and
//! boot-file fields are skipped unconditionally.

use vstd::prelude::*;

use crate::error::DecodeError;
use crate::fields::{
    read_be_u16, read_be_u32, read_ipv4_or_absent, read_mac, spec_be_u16, spec_be_u32,
    spec_ipv4_or_absent, spec_mac,
};
use crate::options::{DhcpOptions, parse_dhcp_options_at, spec_options_from};
use crate::types::{
    BootpOpcode, DhcpDuration, DhcpOptionID, HardwareType, Ipv4Address, MacAddr, OptionModel,
};

verus! {

/// The mathematical shape of a decoded packet.
pub struct PacketModel {
    pub ciaddr: Option<Ipv4Address>,
    pub yiaddr: Option<Ipv4Address>,
    pub siaddr: Option<Ipv4Address>,
    pub giaddr: Option<Ipv4Address>,
    pub opcode: BootpOpcode,
    pub hops: usize,
    pub hlen: usize,
    pub htype: HardwareType,
    pub xid: u32,
    pub secs: DhcpDuration,
    pub broadcast: bool,
    pub chaddr: MacAddr,
    pub options: Map<DhcpOptionID, OptionModel>,
}

/// Whether the fixed header's validated fields are all well formed:
/// a known opcode, the Ethernet hardware type, a legal flags pattern
/// and the magic cookie.  Presupposes at least 240 bytes.
pub open spec fn spec_header_ok(b: Seq<u8>) -> bool
    recommends
        b.len() >= 240,
{
    &&& (b[0] == 1 || b[0] == 2)
    &&& b[1] == 1
    &&& (spec_be_u16(b, 10) == 0x8000 || spec_be_u16(b, 10) == 0)
    &&& (b[236] == 0x63 && b[237] == 0x82 && b[238] == 0x53 && b[239] == 0x63)
}

/// The header fields of a well-formed buffer, folded with an option
/// mapping into a packet model.
pub open spec fn spec_header_packet(b: Seq<u8>, m: Map<DhcpOptionID, OptionModel>) -> PacketModel
    recommends
        b.len() >= 240,
        spec_header_ok(b),
{
    PacketModel {
        ciaddr: spec_ipv4_or_absent(b, 12),
        yiaddr: spec_ipv4_or_absent(b, 16),
        siaddr: spec_ipv4_or_absent(b, 20),
        giaddr: spec_ipv4_or_absent(b, 24),
        opcode: if b[0] == 1 {
            BootpOpcode::BootRequest
        } else {
            BootpOpcode::BootReply
        },
        hops: b[3] as usize,
        hlen: b[2] as usize,
        htype: HardwareType::Ethernet,
        xid: spec_be_u32(b, 4) as u32,
        secs: DhcpDuration { secs: spec_be_u16(b, 8) as u64, nanos: 0 },
        broadcast: spec_be_u16(b, 10) == 0x8000,
        chaddr: spec_mac(b, 28),
        options: m,
    }
}

/// What a whole datagram decodes to: the fixed header checked field by
/// field in wire order, then the option stream from byte 240.
pub open spec fn spec_parse_packet(b: Seq<u8>) -> Result<PacketModel, DecodeError> {
    if b.len() < 1 {
        Err(DecodeError::Truncated)
    } else if !(b[0] == 1 || b[0] == 2) {
        Err(DecodeError::InvalidOpcode)
    } else if b.len() < 2 {
        Err(DecodeError::Truncated)
    } else if b[1] != 1 {
        Err(DecodeError::UnsupportedHardwareType)
    } else if b.len() < 12 {
        Err(DecodeError::Truncated)
    } else if !(spec_be_u16(b, 10) == 0x8000 || spec_be_u16(b, 10) == 0) {
        Err(DecodeError::InvalidFlags)
    } else if b.len() < 240 {
        Err(DecodeError::Truncated)
    } else if !(b[236] == 0x63 && b[237] == 0x82 && b[238] == 0x53 && b[239] == 0x63) {
        Err(DecodeError::BadMagicCookie)
    } else {
        match spec_options_from(b, 240) {
            Err(e) => Err(e),
            Ok(m) => Ok(spec_header_packet(b, m)),
        }
    }
}

/// A decoded datagram: the fixed-header fields and the option mapping.
#[derive(Clone, Debug)]
pub struct DhcpPacket {
    pub ciaddr: Option<Ipv4Address>,
    pub yiaddr: Option<Ipv4Address>,
    pub siaddr: Option<Ipv4Address>,
    pub giaddr: Option<Ipv4Address>,
    pub opcode: BootpOpcode,
    pub hops: usize,
    pub hlen: usize,
    pub htype: HardwareType,
    pub xid: u32,
    pub secs: DhcpDuration,
    pub broadcast: bool,
    pub chaddr: MacAddr,
    pub options: DhcpOptions,
}

impl View for DhcpPacket {
    type V = PacketModel;

    open spec fn view(&self) -> PacketModel {
        PacketModel {
            ciaddr: self.ciaddr,
            yiaddr: self.yiaddr,
            siaddr: self.siaddr,
            giaddr: self.giaddr,
            opcode: self.opcode,
            hops: self.hops,
            hlen: self.hlen,
            htype: self.htype,
            xid: self.xid,
            secs: self.secs,
            broadcast: self.broadcast,
            chaddr: self.chaddr,
            options: self.options@,
        }
    }
}

impl DhcpPacket {
    /// Decode a raw datagram.  The result is exactly what
    /// [`spec_parse_packet`] describes: a packet on success, the first
    /// failure in wire order otherwise; no input makes it panic.
    pub fn parse(buf: &[u8]) -> (r: Result<DhcpPacket, DecodeError>)
        ensures
            match r {
                Ok(p) => spec_parse_packet(buf@) == Ok::<PacketModel, DecodeError>(p@),
                Err(e) => spec_parse_packet(buf@) == Err::<PacketModel, DecodeError>(e),
            },
    {
        if buf.len() < 1 {
            return Err(DecodeError::Truncated);
        }
        let op = buf[0];
        if !(op == 1 || op == 2) {
            return Err(DecodeError::InvalidOpcode);
        }
        let opcode = if op == 1 {
            BootpOpcode::BootRequest
        } else {
            BootpOpcode::BootReply
        };
        if buf.len() < 2 {
            return Err(DecodeError::Truncated);
        }
        if buf[1] != 1 {
            return Err(DecodeError::UnsupportedHardwareType);
        }
        if buf.len() < 12 {
            return Err(DecodeError::Truncated);
        }
        let flags = read_be_u16(buf, 10);
        if !(flags == 0x8000 || flags == 0) {
            return Err(DecodeError::InvalidFlags);
        }
        if buf.len() < 240 {
            return Err(DecodeError::Truncated);
        }
        if !(buf[236] == 0x63 && buf[237] == 0x82 && buf[238] == 0x53 && buf[239] == 0x63) {
            return Err(DecodeError::BadMagicCookie);
        }
        let options = match parse_dhcp_options_at(buf, 240) {
            Err(e) => {
                return Err(e);
            },
            Ok(m) => m,
        };
        let packet = DhcpPacket {
            ciaddr: read_ipv4_or_absent(buf, 12),
            yiaddr: read_ipv4_or_absent(buf, 16),
            siaddr: read_ipv4_or_absent(buf, 20),
            giaddr: read_ipv4_or_absent(buf, 24),
            opcode,
            hops: buf[3] as usize,
            hlen: buf[2] as usize,
            htype: HardwareType::Ethernet,
            xid: read_be_u32(buf, 4),
            secs: DhcpDuration { secs: read_be_u16(buf, 8) as u64, nanos: 0 },
            broadcast: flags == 0x8000,
            chaddr: read_mac(buf, 28),
            options,
        };
        Ok(packet)
    }
}

// ---------------------------------------------------------------------
// Laws of the packet decode.
// ---------------------------------------------------------------------
/// A valid 240-byte fixed header followed by an empty option stream
/// decodes to a packet whose option mapping is empty.
pub proof fn lemma_empty_option_stream(b: Seq<u8>)
    requires
        b.len() == 240,
        spec_header_ok(b),
    ensures
        spec_parse_packet(b) == Ok::<PacketModel, DecodeError>(
            spec_header_packet(b, Map::empty()),
        ),
{
    assert(spec_options_from(b, 240) == Ok::<Map<DhcpOptionID, OptionModel>, DecodeError>(
        Map::empty(),
    ));
}

/// Each of the four header address fields is absent exactly when its
/// four bytes are all zero, and otherwise holds those very bytes.
pub proof fn lemma_address_fields(b: Seq<u8>)
    ensures
        spec_parse_packet(b) matches Ok(p) ==> {
            &&& p.ciaddr == spec_ipv4_or_absent(b, 12)
            &&& p.yiaddr == spec_ipv4_or_absent(b, 16)
            &&& p.siaddr == spec_ipv4_or_absent(b, 20)
            &&& p.giaddr == spec_ipv4_or_absent(b, 24)
        },
{
}

/// The client hardware address is read from the first six bytes of the
/// 16-byte hardware-address region alone: the ten reserved bytes after
/// it never reach the decoded packet.
pub proof fn lemma_chaddr_from_first_six(b: Seq<u8>)
    ensures
        spec_parse_packet(b) matches Ok(p) ==> p.chaddr == (MacAddr {
            m0: b[28],
            m1: b[29],
            m2: b[30],
            m3: b[31],
            m4: b[32],
            m5: b[33],
        }),
{
}

/// A header whose four cookie bytes are anything but `63 82 53 63`
/// fails with BadMagicCookie, however the rest of the buffer reads,
/// provided the fields checked before the cookie are themselves valid.
pub proof fn lemma_bad_cookie(b: Seq<u8>)
    requires
        b.len() >= 240,
        b[0] == 1 || b[0] == 2,
        b[1] == 1,
        spec_be_u16(b, 10) == 0x8000 || spec_be_u16(b, 10) == 0,
        !(b[236] == 0x63 && b[237] == 0x82 && b[238] == 0x53 && b[239] == 0x63),
    ensures
        spec_parse_packet(b) == Err::<PacketModel, DecodeError>(DecodeError::BadMagicCookie),
{
}

/// A decoded packet's option mapping never binds the Pad or End
/// sentinel.
pub proof fn lemma_packet_no_sentinels(b: Seq<u8>)
    ensures
        spec_parse_packet(b) matches Ok(p) ==> !p.options.contains_key(DhcpOptionID::Pad)
            && !p.options.contains_key(DhcpOptionID::OptionEnd),
{
    crate::options::lemma_options_no_sentinels(b, 240);
}

} // verus!
