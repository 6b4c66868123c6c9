//! The domain model: addresses, durations, option identifiers and the
//! typed option values a decoded datagram carries.
//!
//! Every entity here is an immutable value type, copied out of the input
//! buffer during the single decode pass; nothing borrows the buffer.

use vstd::prelude::*;

verus! {

/// An IPv4 address as four plain octets.
#[derive(Clone, Copy, Debug, PartialEq, Eq, Structural)]
pub struct Ipv4Address {
    pub o0: u8,
    pub o1: u8,
    pub o2: u8,
    pub o3: u8,
}

impl Ipv4Address {
    pub fn new(o0: u8, o1: u8, o2: u8, o3: u8) -> (r: Self)
        ensures
            r == (Ipv4Address { o0, o1, o2, o3 }),
    {
        Ipv4Address { o0, o1, o2, o3 }
    }
}

/// A 6-byte hardware (MAC) address.
#[derive(Clone, Copy, Debug, PartialEq, Eq, Structural)]
pub struct MacAddr {
    pub m0: u8,
    pub m1: u8,
    pub m2: u8,
    pub m3: u8,
    pub m4: u8,
    pub m5: u8,
}

/// A whole-second duration with a nanosecond remainder.
#[derive(Clone, Copy, Debug, PartialEq, Eq, Structural)]
pub struct DhcpDuration {
    pub secs: u64,
    pub nanos: u32,
}

impl DhcpDuration {
    pub fn new(s: u64, n: u32) -> (r: Self)
        ensures
            r == (DhcpDuration { secs: s, nanos: n }),
    {
        DhcpDuration { secs: s, nanos: n }
    }
}

/// An opaque byte blob carried by an option.
#[derive(Clone, Debug, PartialEq, Eq)]
pub struct DhcpBytes(pub Vec<u8>);

impl View for DhcpBytes {
    type V = Seq<u8>;

    open spec fn view(&self) -> Seq<u8> {
        self.0@
    }
}

/// The BOOTP opcode: the direction of the datagram.
#[derive(Clone, Copy, Debug, PartialEq, Eq, Structural)]
pub enum BootpOpcode {
    BootRequest,
    BootReply,
}

/// The hardware type named in the fixed header; only Ethernet (code 1)
/// is supported, any other code is a decode error.
#[derive(Clone, Copy, Debug, PartialEq, Eq, Structural)]
pub enum HardwareType {
    Ethernet,
}

/// The DHCP message kind carried by the message-type option.
#[derive(Clone, Copy, Debug, PartialEq, Eq, Structural)]
pub enum DhcpMessageType {
    DhcpDiscover,
    DhcpOffer,
    DhcpRequest,
    DhcpDecline,
    DhcpAck,
    DhcpNak,
    DhcpRelease,
    DhcpInform,
    DhcpForceRenew,
}

/// The message kind a byte between 1 and 9 names.
pub open spec fn spec_message_type(code: u8) -> DhcpMessageType
    recommends
        1 <= code <= 9,
{
    if code == 1 {
        DhcpMessageType::DhcpDiscover
    } else if code == 2 {
        DhcpMessageType::DhcpOffer
    } else if code == 3 {
        DhcpMessageType::DhcpRequest
    } else if code == 4 {
        DhcpMessageType::DhcpDecline
    } else if code == 5 {
        DhcpMessageType::DhcpAck
    } else if code == 6 {
        DhcpMessageType::DhcpNak
    } else if code == 7 {
        DhcpMessageType::DhcpRelease
    } else if code == 8 {
        DhcpMessageType::DhcpInform
    } else {
        DhcpMessageType::DhcpForceRenew
    }
}

/// One algorithm identifier from the force-renew-nonce-capable option.
#[derive(Clone, Copy, Debug, PartialEq, Eq, Structural)]
pub enum DhcpForceRenewNonceAlgos {
    HmacMd5,
    Other(u8),
}

/// The algorithm a single byte names: 1 is HMAC-MD5, everything else is
/// kept as an unknown code.
pub open spec fn spec_nonce_algo(byte: u8) -> DhcpForceRenewNonceAlgos {
    if byte == 1 {
        DhcpForceRenewNonceAlgos::HmacMd5
    } else {
        DhcpForceRenewNonceAlgos::Other(byte)
    }
}

impl DhcpForceRenewNonceAlgos {
    pub fn parse(byte: u8) -> (r: Self)
        ensures
            r == spec_nonce_algo(byte),
    {
        match byte {
            1 => Self::HmacMd5,
            x => Self::Other(x),
        }
    }
}

/// The algorithm list of a force-renew-nonce-capable option.
#[derive(Clone, Debug, PartialEq, Eq)]
pub struct DhcpForceRenewNonceCapable(pub Vec<DhcpForceRenewNonceAlgos>);

impl View for DhcpForceRenewNonceCapable {
    type V = Seq<DhcpForceRenewNonceAlgos>;

    open spec fn view(&self) -> Seq<DhcpForceRenewNonceAlgos> {
        self.0@
    }
}

/// The semantic identity of an option code.  Every byte value maps to
/// one of these: a named identifier for the standard codes, the Pad and
/// End sentinels, or the catch-all variant carrying the raw code.
#[derive(Clone, Copy, Debug, PartialEq, Eq, Hash, Structural)]
pub enum DhcpOptionID {
    SubnetMask,
    Router,
    DNSserver,
    HostName,
    DomainName,
    InterfaceMTU,
    BroadcastAddr,
    LeaseTime,
    ServerID,
    RenewalInterval,
    RebindingInterval,
    DomainSearch,
    MsgType,
    ClientIdentifier,
    RapidCommit,
    MaxMsgSize,
    VendorClassId,
    ForceRenewNonceCap,
    ParameterRequestList,
    OptionEnd,
    Pad,
    Other(u8),
}

/// The identifier every raw option code resolves to.  Total: no byte
/// value is left without an identity.
pub open spec fn spec_option_id(code: u8) -> DhcpOptionID {
    if code == 1 {
        DhcpOptionID::SubnetMask
    } else if code == 3 {
        DhcpOptionID::Router
    } else if code == 6 {
        DhcpOptionID::DNSserver
    } else if code == 12 {
        DhcpOptionID::HostName
    } else if code == 15 {
        DhcpOptionID::DomainName
    } else if code == 26 {
        DhcpOptionID::InterfaceMTU
    } else if code == 28 {
        DhcpOptionID::BroadcastAddr
    } else if code == 51 {
        DhcpOptionID::LeaseTime
    } else if code == 53 {
        DhcpOptionID::MsgType
    } else if code == 54 {
        DhcpOptionID::ServerID
    } else if code == 55 {
        DhcpOptionID::ParameterRequestList
    } else if code == 57 {
        DhcpOptionID::MaxMsgSize
    } else if code == 58 {
        DhcpOptionID::RenewalInterval
    } else if code == 59 {
        DhcpOptionID::RebindingInterval
    } else if code == 60 {
        DhcpOptionID::VendorClassId
    } else if code == 61 {
        DhcpOptionID::ClientIdentifier
    } else if code == 80 {
        DhcpOptionID::RapidCommit
    } else if code == 119 {
        DhcpOptionID::DomainSearch
    } else if code == 145 {
        DhcpOptionID::ForceRenewNonceCap
    } else if code == 255 {
        DhcpOptionID::OptionEnd
    } else if code == 0 {
        DhcpOptionID::Pad
    } else {
        DhcpOptionID::Other(code)
    }
}

impl DhcpOptionID {
    /// Resolve a raw option code.  Total and pure: every byte value maps
    /// to an identifier, unknown codes to the catch-all variant.
    pub fn from(id: u8) -> (r: Self)
        ensures
            r == spec_option_id(id),
    {
        match id {
            1 => DhcpOptionID::SubnetMask,
            3 => DhcpOptionID::Router,
            6 => DhcpOptionID::DNSserver,
            12 => DhcpOptionID::HostName,
            15 => DhcpOptionID::DomainName,
            26 => DhcpOptionID::InterfaceMTU,
            28 => DhcpOptionID::BroadcastAddr,
            51 => DhcpOptionID::LeaseTime,
            53 => DhcpOptionID::MsgType,
            54 => DhcpOptionID::ServerID,
            55 => DhcpOptionID::ParameterRequestList,
            57 => DhcpOptionID::MaxMsgSize,
            58 => DhcpOptionID::RenewalInterval,
            59 => DhcpOptionID::RebindingInterval,
            60 => DhcpOptionID::VendorClassId,
            61 => DhcpOptionID::ClientIdentifier,
            80 => DhcpOptionID::RapidCommit,
            119 => DhcpOptionID::DomainSearch,
            145 => DhcpOptionID::ForceRenewNonceCap,
            255 => DhcpOptionID::OptionEnd,
            0 => DhcpOptionID::Pad,
            o => DhcpOptionID::Other(o),
        }
    }
}

/// The identifier list of a parameter-request-list option.
#[derive(Clone, Debug, PartialEq, Eq)]
pub struct DhcpOptionIDs(pub Vec<DhcpOptionID>);

impl View for DhcpOptionIDs {
    type V = Seq<DhcpOptionID>;

    open spec fn view(&self) -> Seq<DhcpOptionID> {
        self.0@
    }
}

/// The payload of an option whose code has no named identifier,
/// tagged with that raw code.
#[derive(Clone, Debug, PartialEq, Eq)]
pub struct DhcpOptionOther {
    pub option: DhcpBytes,
    pub option_id: u8,
}

/// An ordered list of IPv4 addresses, as carried by the router and
/// DNS-server options.
#[derive(Clone, Debug, PartialEq, Eq)]
pub struct Ipv4AddrList(pub Vec<Ipv4Address>);

impl View for Ipv4AddrList {
    type V = Seq<Ipv4Address>;

    open spec fn view(&self) -> Seq<Ipv4Address> {
        self.0@
    }
}

/// A decoded option value: one variant per identifier that carries data.
#[derive(Clone, Debug)]
pub enum DhcpOption {
    MessageType(DhcpMessageType),
    ClientIdentifier(DhcpBytes),
    RapidCommit,
    MaxMsgSize(usize),
    VendorClassId(String),
    HostName(String),
    ForceRenewNonceCapable(DhcpForceRenewNonceCapable),
    ParameterRequestList(DhcpOptionIDs),
    SubNetMask(u32),
    Router(Ipv4AddrList),
    DNSserver(Ipv4AddrList),
    DomainName(String),
    InterfaceMTU(u16),
    BroadcastAddr(Ipv4Address),
    LeaseTime(DhcpDuration),
    Other(DhcpOptionOther),
    ServerID(Ipv4Address),
    RenewalPeriod(DhcpDuration),
    RebindingPeriod(DhcpDuration),
    DomainSearch(DhcpBytes),
    Pad,
    End,
}

/// The mathematical shape of a decoded option value: the same variants
/// as [`DhcpOption`], with sequences in place of vectors and strings.
pub enum OptionModel {
    MessageType(DhcpMessageType),
    ClientIdentifier(Seq<u8>),
    RapidCommit,
    MaxMsgSize(usize),
    VendorClassId(Seq<char>),
    HostName(Seq<char>),
    ForceRenewNonceCapable(Seq<DhcpForceRenewNonceAlgos>),
    ParameterRequestList(Seq<DhcpOptionID>),
    SubNetMask(u32),
    Router(Seq<Ipv4Address>),
    DNSserver(Seq<Ipv4Address>),
    DomainName(Seq<char>),
    InterfaceMTU(u16),
    BroadcastAddr(Ipv4Address),
    LeaseTime(DhcpDuration),
    Other(u8, Seq<u8>),
    ServerID(Ipv4Address),
    RenewalPeriod(DhcpDuration),
    RebindingPeriod(DhcpDuration),
    DomainSearch(Seq<u8>),
    Pad,
    End,
}

impl View for DhcpOption {
    type V = OptionModel;

    open spec fn view(&self) -> OptionModel {
        match self {
            DhcpOption::MessageType(t) => OptionModel::MessageType(*t),
            DhcpOption::ClientIdentifier(b) => OptionModel::ClientIdentifier(b@),
            DhcpOption::RapidCommit => OptionModel::RapidCommit,
            DhcpOption::MaxMsgSize(n) => OptionModel::MaxMsgSize(*n),
            DhcpOption::VendorClassId(s) => OptionModel::VendorClassId(s@),
            DhcpOption::HostName(s) => OptionModel::HostName(s@),
            DhcpOption::ForceRenewNonceCapable(a) => OptionModel::ForceRenewNonceCapable(a@),
            DhcpOption::ParameterRequestList(p) => OptionModel::ParameterRequestList(p@),
            DhcpOption::SubNetMask(m) => OptionModel::SubNetMask(*m),
            DhcpOption::Router(l) => OptionModel::Router(l@),
            DhcpOption::DNSserver(l) => OptionModel::DNSserver(l@),
            DhcpOption::DomainName(s) => OptionModel::DomainName(s@),
            DhcpOption::InterfaceMTU(m) => OptionModel::InterfaceMTU(*m),
            DhcpOption::BroadcastAddr(a) => OptionModel::BroadcastAddr(*a),
            DhcpOption::LeaseTime(d) => OptionModel::LeaseTime(*d),
            DhcpOption::Other(o) => OptionModel::Other(o.option_id, o.option@),
            DhcpOption::ServerID(a) => OptionModel::ServerID(*a),
            DhcpOption::RenewalPeriod(d) => OptionModel::RenewalPeriod(*d),
            DhcpOption::RebindingPeriod(d) => OptionModel::RebindingPeriod(*d),
            DhcpOption::DomainSearch(b) => OptionModel::DomainSearch(b@),
            DhcpOption::Pad => OptionModel::Pad,
            DhcpOption::End => OptionModel::End,
        }
    }
}

} // verus!
