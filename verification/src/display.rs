//! Human-readable rendering of the decoded entities.
//!
//! Each rendering function returns a `String` whose character sequence
//! is pinned by a spec function over the entity's mathematical view.
//! Rendering never fails: a packet summary degrades to placeholder
//! lines where an option is absent.

use vstd::prelude::*;

use crate::options::DhcpOptions;
use crate::packet::DhcpPacket;
use crate::types::{
    DhcpBytes, DhcpDuration, DhcpForceRenewNonceAlgos, DhcpForceRenewNonceCapable,
    DhcpMessageType, DhcpOption, DhcpOptionID, DhcpOptionIDs, DhcpOptionOther, Ipv4AddrList,
    Ipv4Address, OptionModel,
};

verus! {

// ---------------------------------------------------------------------
// String building, on top of two std operations.
// ---------------------------------------------------------------------
/// Relies on String::push_str: it appends the slice's characters to the
/// string, changing nothing else.
#[verifier::external_body]
fn push_str(s: &mut String, t: &str)
    ensures
        final(s)@ == old(s)@ + t@,
{
    s.push_str(t)
}

/// Relies on String::push: it appends the one character to the string,
/// changing nothing else.
#[verifier::external_body]
fn push_char(s: &mut String, c: char)
    ensures
        final(s)@ == old(s)@.push(c),
{
    s.push(c)
}

// ---------------------------------------------------------------------
// Digits and numbers.
// ---------------------------------------------------------------------
/// The character for one digit value below sixteen.
pub open spec fn spec_digit(d: int) -> char
    recommends
        0 <= d < 16,
{
    if d == 0 {
        '0'
    } else if d == 1 {
        '1'
    } else if d == 2 {
        '2'
    } else if d == 3 {
        '3'
    } else if d == 4 {
        '4'
    } else if d == 5 {
        '5'
    } else if d == 6 {
        '6'
    } else if d == 7 {
        '7'
    } else if d == 8 {
        '8'
    } else if d == 9 {
        '9'
    } else if d == 10 {
        'a'
    } else if d == 11 {
        'b'
    } else if d == 12 {
        'c'
    } else if d == 13 {
        'd'
    } else if d == 14 {
        'e'
    } else {
        'f'
    }
}

/// The decimal digit sequence of a non-negative number, no leading
/// zeros (a lone zero for zero).
pub open spec fn spec_dec(n: int) -> Seq<char>
    recommends
        n >= 0,
    decreases n,
{
    if n < 10 {
        seq![spec_digit(n)]
    } else {
        spec_dec(n / 10).push(spec_digit(n % 10))
    }
}

/// The lower-case hexadecimal digit sequence of a non-negative number,
/// no leading zeros (a lone zero for zero).
pub open spec fn spec_hex(n: int) -> Seq<char>
    recommends
        n >= 0,
    decreases n,
{
    if n < 16 {
        seq![spec_digit(n)]
    } else {
        spec_hex(n / 16).push(spec_digit(n % 16))
    }
}

/// One byte as exactly two hexadecimal digits.
pub open spec fn spec_hex_byte(b: u8) -> Seq<char> {
    seq![spec_digit(b as int / 16), spec_digit(b as int % 16)]
}

/// A digit sequence left-padded with zeros up to a width.
pub open spec fn spec_zero_pad(s: Seq<char>, w: int) -> Seq<char> {
    if s.len() >= w {
        s
    } else {
        Seq::new((w - s.len()) as nat, |k: int| '0') + s
    }
}

fn digit_char(d: u8) -> (r: char)
    requires
        d < 16,
    ensures
        r == spec_digit(d as int),
{
    match d {
        0 => '0',
        1 => '1',
        2 => '2',
        3 => '3',
        4 => '4',
        5 => '5',
        6 => '6',
        7 => '7',
        8 => '8',
        9 => '9',
        10 => 'a',
        11 => 'b',
        12 => 'c',
        13 => 'd',
        14 => 'e',
        _ => 'f',
    }
}

/// Append a number's decimal digits.
fn push_dec(s: &mut String, n: u128)
    ensures
        final(s)@ == old(s)@ + spec_dec(n as int),
    decreases n,
{
    if n >= 10 {
        push_dec(s, n / 10);
    }
    push_char(s, digit_char((n % 10) as u8));
}

/// Append a number's hexadecimal digits.
fn push_hex(s: &mut String, n: u32)
    ensures
        final(s)@ == old(s)@ + spec_hex(n as int),
    decreases n,
{
    if n >= 16 {
        push_hex(s, n / 16);
    }
    push_char(s, digit_char((n % 16) as u8));
}

/// Append one byte as two hexadecimal digits.
fn push_hex_byte(s: &mut String, b: u8)
    ensures
        final(s)@ == old(s)@ + spec_hex_byte(b),
{
    push_char(s, digit_char(b / 16));
    push_char(s, digit_char(b % 16));
}

/// How many hexadecimal digits a 32-bit value prints to.
fn hex_len(w: u32) -> (r: usize)
    ensures
        r == spec_hex(w as int).len(),
        1 <= r <= 8,
{
    proof {
        reveal_with_fuel(spec_hex, 9);
    }
    if w < 0x10 {
        1
    } else if w < 0x100 {
        2
    } else if w < 0x1000 {
        3
    } else if w < 0x10000 {
        4
    } else if w < 0x100000 {
        5
    } else if w < 0x1000000 {
        6
    } else if w < 0x10000000 {
        7
    } else {
        8
    }
}

// ---------------------------------------------------------------------
// Rendering specs over the views.
// ---------------------------------------------------------------------
/// An address as its four dotted decimal octets.
pub open spec fn spec_ipv4_text(a: Ipv4Address) -> Seq<char> {
    spec_dec(a.o0 as int) + seq!['.'] + spec_dec(a.o1 as int) + seq!['.'] + spec_dec(a.o2 as int)
        + seq!['.'] + spec_dec(a.o3 as int)
}

/// A duration as its whole seconds, a dot, and its total nanoseconds.
pub open spec fn spec_duration_text(d: DhcpDuration) -> Seq<char> {
    spec_dec(d.secs as int) + seq!['.'] + spec_dec(d.secs * 1_000_000_000 + d.nanos)
}

/// A byte blob as two-digit hexadecimal pairs joined by single spaces.
pub open spec fn spec_bytes_text(s: Seq<u8>) -> Seq<char>
    decreases s.len(),
{
    if s.len() == 0 {
        Seq::empty()
    } else if s.len() == 1 {
        spec_hex_byte(s[0])
    } else {
        spec_bytes_text(s.drop_last()) + seq![' '] + spec_hex_byte(s.last())
    }
}

/// An address list, each address followed by a comma and a space.
pub open spec fn spec_addr_list_text(s: Seq<Ipv4Address>) -> Seq<char>
    decreases s.len(),
{
    if s.len() == 0 {
        Seq::empty()
    } else {
        spec_addr_list_text(s.drop_last()) + spec_ipv4_text(s.last()) + seq![',', ' ']
    }
}

/// The name of one force-renew-nonce algorithm.
pub open spec fn spec_algo_name(a: DhcpForceRenewNonceAlgos) -> Seq<char> {
    match a {
        DhcpForceRenewNonceAlgos::HmacMd5 => "HMAC MD5"@,
        DhcpForceRenewNonceAlgos::Other(_) => "Unknown HMAC"@,
    }
}

/// An algorithm list, each name followed by a comma and a space.
pub open spec fn spec_algos_text(s: Seq<DhcpForceRenewNonceAlgos>) -> Seq<char>
    decreases s.len(),
{
    if s.len() == 0 {
        Seq::empty()
    } else {
        spec_algos_text(s.drop_last()) + spec_algo_name(s.last()) + seq![',', ' ']
    }
}

/// Items joined by single spaces.
pub open spec fn spec_join_spaces(items: Seq<Seq<char>>) -> Seq<char>
    decreases items.len(),
{
    if items.len() == 0 {
        Seq::empty()
    } else if items.len() == 1 {
        items[0]
    } else {
        spec_join_spaces(items.drop_last()) + seq![' '] + items.last()
    }
}

/// The display name of a message kind.
pub open spec fn spec_msg_name(t: DhcpMessageType) -> Seq<char> {
    match t {
        DhcpMessageType::DhcpDiscover => "Discover"@,
        DhcpMessageType::DhcpOffer => "Offer"@,
        DhcpMessageType::DhcpRequest => "Request"@,
        DhcpMessageType::DhcpDecline => "Decline"@,
        DhcpMessageType::DhcpAck => "Ack"@,
        DhcpMessageType::DhcpNak => "Nak"@,
        DhcpMessageType::DhcpRelease => "Release"@,
        DhcpMessageType::DhcpInform => "Inform"@,
        DhcpMessageType::DhcpForceRenew => "Force Renew"@,
    }
}

/// The display name of an option identifier.
pub open spec fn spec_id_name(id: DhcpOptionID) -> Seq<char> {
    match id {
        DhcpOptionID::SubnetMask => "Subnet Mask"@,
        DhcpOptionID::Router => "Router"@,
        DhcpOptionID::DNSserver => "DNS Server"@,
        DhcpOptionID::HostName => "Host Name"@,
        DhcpOptionID::DomainName => "Domain Name"@,
        DhcpOptionID::InterfaceMTU => "Interface MTU"@,
        DhcpOptionID::BroadcastAddr => "Broadcast Address"@,
        DhcpOptionID::LeaseTime => "Lease Time"@,
        DhcpOptionID::ServerID => "Server ID"@,
        DhcpOptionID::RenewalInterval => "Renewal Interval"@,
        DhcpOptionID::RebindingInterval => "Rebinding Interval"@,
        DhcpOptionID::DomainSearch => "Domain Search"@,
        DhcpOptionID::MsgType => "Message Type"@,
        DhcpOptionID::ClientIdentifier => "Client Identifier"@,
        DhcpOptionID::RapidCommit => "Rapid Commit"@,
        DhcpOptionID::MaxMsgSize => "Maximum Message Size"@,
        DhcpOptionID::VendorClassId => "Vendor Class ID"@,
        DhcpOptionID::ForceRenewNonceCap => "Force Renew Nonce Capable"@,
        DhcpOptionID::ParameterRequestList => "Parameter Request List"@,
        DhcpOptionID::OptionEnd => "OptionEnd"@,
        DhcpOptionID::Pad => "Pad"@,
        DhcpOptionID::Other(_) => "Unknown Parameter"@,
    }
}

/// The rendering of a decoded option value.
pub open spec fn spec_option_text(m: OptionModel) -> Seq<char> {
    match m {
        OptionModel::MessageType(t) => spec_msg_name(t),
        OptionModel::ClientIdentifier(b) => spec_bytes_text(b),
        OptionModel::DomainSearch(b) => spec_bytes_text(b),
        OptionModel::RapidCommit => "Rapid Commit"@,
        OptionModel::MaxMsgSize(n) => spec_dec(n as int),
        OptionModel::VendorClassId(s) => s,
        OptionModel::HostName(s) => s,
        OptionModel::DomainName(s) => s,
        OptionModel::ForceRenewNonceCapable(a) => spec_algos_text(a),
        OptionModel::ParameterRequestList(p) => spec_join_spaces(
            p.map_values(|id: DhcpOptionID| spec_id_name(id)),
        ),
        OptionModel::SubNetMask(w) => "0x"@ + spec_zero_pad(spec_hex(w as int), 6),
        OptionModel::Router(l) => spec_addr_list_text(l),
        OptionModel::DNSserver(l) => spec_addr_list_text(l),
        OptionModel::InterfaceMTU(w) => spec_dec(w as int),
        OptionModel::BroadcastAddr(a) => spec_ipv4_text(a),
        OptionModel::ServerID(a) => spec_ipv4_text(a),
        OptionModel::LeaseTime(d) => spec_duration_text(d),
        OptionModel::RenewalPeriod(d) => spec_duration_text(d),
        OptionModel::RebindingPeriod(d) => spec_duration_text(d),
        OptionModel::Other(code, b) => seq!['('] + spec_hex_byte(code) + seq![')', ' ']
            + spec_bytes_text(b),
        OptionModel::Pad => Seq::empty(),
        OptionModel::End => Seq::empty(),
    }
}

/// The four summary lines of a packet: message type, host name, subnet
/// mask (placeholders where the option is absent), and the transaction
/// id in hexadecimal, each line ending in a newline.
pub open spec fn spec_packet_text(p: crate::packet::PacketModel) -> Seq<char> {
    "Message Type: "@ + (if p.options.contains_key(DhcpOptionID::MsgType) {
        spec_option_text(p.options[DhcpOptionID::MsgType])
    } else {
        "Message type missing"@
    }) + seq!['\n'] + "Host name: "@ + (if p.options.contains_key(DhcpOptionID::HostName) {
        spec_option_text(p.options[DhcpOptionID::HostName])
    } else {
        "No hostname"@
    }) + seq!['\n'] + "Subnet mask: "@ + (if p.options.contains_key(DhcpOptionID::SubnetMask) {
        spec_option_text(p.options[DhcpOptionID::SubnetMask])
    } else {
        "No subnet mask"@
    }) + seq!['\n'] + "xid: "@ + spec_hex(p.xid as int) + seq!['\n']
}

// ---------------------------------------------------------------------
// Executable rendering.
// ---------------------------------------------------------------------
impl DhcpMessageType {
    /// The message kind's display name.
    pub fn display(&self) -> (r: String)
        ensures
            r@ == spec_msg_name(*self),
    {
        match self {
            DhcpMessageType::DhcpDiscover => "Discover".to_owned(),
            DhcpMessageType::DhcpOffer => "Offer".to_owned(),
            DhcpMessageType::DhcpRequest => "Request".to_owned(),
            DhcpMessageType::DhcpDecline => "Decline".to_owned(),
            DhcpMessageType::DhcpAck => "Ack".to_owned(),
            DhcpMessageType::DhcpNak => "Nak".to_owned(),
            DhcpMessageType::DhcpRelease => "Release".to_owned(),
            DhcpMessageType::DhcpInform => "Inform".to_owned(),
            DhcpMessageType::DhcpForceRenew => "Force Renew".to_owned(),
        }
    }
}

impl DhcpOptionID {
    /// The identifier's display name.
    pub fn display(&self) -> (r: String)
        ensures
            r@ == spec_id_name(*self),
    {
        match self {
            DhcpOptionID::SubnetMask => "Subnet Mask".to_owned(),
            DhcpOptionID::Router => "Router".to_owned(),
            DhcpOptionID::DNSserver => "DNS Server".to_owned(),
            DhcpOptionID::HostName => "Host Name".to_owned(),
            DhcpOptionID::DomainName => "Domain Name".to_owned(),
            DhcpOptionID::InterfaceMTU => "Interface MTU".to_owned(),
            DhcpOptionID::BroadcastAddr => "Broadcast Address".to_owned(),
            DhcpOptionID::LeaseTime => "Lease Time".to_owned(),
            DhcpOptionID::ServerID => "Server ID".to_owned(),
            DhcpOptionID::RenewalInterval => "Renewal Interval".to_owned(),
            DhcpOptionID::RebindingInterval => "Rebinding Interval".to_owned(),
            DhcpOptionID::DomainSearch => "Domain Search".to_owned(),
            DhcpOptionID::MsgType => "Message Type".to_owned(),
            DhcpOptionID::ClientIdentifier => "Client Identifier".to_owned(),
            DhcpOptionID::RapidCommit => "Rapid Commit".to_owned(),
            DhcpOptionID::MaxMsgSize => "Maximum Message Size".to_owned(),
            DhcpOptionID::VendorClassId => "Vendor Class ID".to_owned(),
            DhcpOptionID::ForceRenewNonceCap => "Force Renew Nonce Capable".to_owned(),
            DhcpOptionID::ParameterRequestList => "Parameter Request List".to_owned(),
            DhcpOptionID::OptionEnd => "OptionEnd".to_owned(),
            DhcpOptionID::Pad => "Pad".to_owned(),
            DhcpOptionID::Other(_) => "Unknown Parameter".to_owned(),
        }
    }
}

impl Ipv4Address {
    /// The address in dotted decimal notation.
    pub fn display(&self) -> (r: String)
        ensures
            r@ == spec_ipv4_text(*self),
    {
        let mut s = String::new();
        push_dec(&mut s, self.o0 as u128);
        push_char(&mut s, '.');
        push_dec(&mut s, self.o1 as u128);
        push_char(&mut s, '.');
        push_dec(&mut s, self.o2 as u128);
        push_char(&mut s, '.');
        push_dec(&mut s, self.o3 as u128);
        s
    }
}

impl DhcpDuration {
    /// The duration as whole seconds, a dot, and total nanoseconds.
    pub fn display(&self) -> (r: String)
        ensures
            r@ == spec_duration_text(*self),
    {
        let mut s = String::new();
        push_dec(&mut s, self.secs as u128);
        push_char(&mut s, '.');
        push_dec(&mut s, (self.secs as u128) * 1_000_000_000 + (self.nanos as u128));
        s
    }
}

impl DhcpBytes {
    /// The bytes as two-digit hexadecimal pairs joined by spaces.
    pub fn display(&self) -> (r: String)
        ensures
            r@ == spec_bytes_text(self@),
    {
        let mut s = String::new();
        let mut k: usize = 0;
        while k < self.0.len()
            invariant
                k <= self.0@.len(),
                s@ == spec_bytes_text(self.0@.take(k as int)),
            decreases self.0@.len() - k,
        {
            if k > 0 {
                push_char(&mut s, ' ');
            }
            push_hex_byte(&mut s, self.0[k]);
            proof {
                assert(self.0@.take(k as int + 1).drop_last() =~= self.0@.take(k as int));
                assert(s@ =~= spec_bytes_text(self.0@.take(k as int + 1)));
            }
            k = k + 1;
        }
        proof {
            assert(self.0@.take(self.0@.len() as int) =~= self.0@);
        }
        s
    }
}

impl Ipv4AddrList {
    /// The addresses in order, each followed by a comma and a space.
    pub fn display(&self) -> (r: String)
        ensures
            r@ == spec_addr_list_text(self@),
    {
        let mut s = String::new();
        let mut k: usize = 0;
        while k < self.0.len()
            invariant
                k <= self.0@.len(),
                s@ == spec_addr_list_text(self.0@.take(k as int)),
            decreases self.0@.len() - k,
        {
            let t = self.0[k].display();
            push_str(&mut s, t.as_str());
            push_char(&mut s, ',');
            push_char(&mut s, ' ');
            proof {
                assert(self.0@.take(k as int + 1).drop_last() =~= self.0@.take(k as int));
                assert(s@ =~= spec_addr_list_text(self.0@.take(k as int + 1)));
            }
            k = k + 1;
        }
        proof {
            assert(self.0@.take(self.0@.len() as int) =~= self.0@);
        }
        s
    }
}

impl DhcpForceRenewNonceCapable {
    /// The algorithm names in order, each followed by a comma and a
    /// space.
    pub fn display(&self) -> (r: String)
        ensures
            r@ == spec_algos_text(self@),
    {
        let mut s = String::new();
        let mut k: usize = 0;
        while k < self.0.len()
            invariant
                k <= self.0@.len(),
                s@ == spec_algos_text(self.0@.take(k as int)),
            decreases self.0@.len() - k,
        {
            match self.0[k] {
                DhcpForceRenewNonceAlgos::HmacMd5 => push_str(&mut s, "HMAC MD5"),
                DhcpForceRenewNonceAlgos::Other(_) => push_str(&mut s, "Unknown HMAC"),
            }
            push_char(&mut s, ',');
            push_char(&mut s, ' ');
            proof {
                assert(self.0@.take(k as int + 1).drop_last() =~= self.0@.take(k as int));
                assert(s@ =~= spec_algos_text(self.0@.take(k as int + 1)));
            }
            k = k + 1;
        }
        proof {
            assert(self.0@.take(self.0@.len() as int) =~= self.0@);
        }
        s
    }
}

/// Join rendered items with single spaces.
pub fn display_vec_spaces(items: &Vec<String>) -> (r: String)
    ensures
        r@ == spec_join_spaces(items.deep_view()),
{
    let mut s = String::new();
    let mut k: usize = 0;
    while k < items.len()
        invariant
            k <= items@.len(),
            items.deep_view().len() == items@.len(),
            forall|t: int| 0 <= t < items@.len() ==> items.deep_view()[t] == items@[t]@,
            s@ == spec_join_spaces(items.deep_view().take(k as int)),
        decreases items@.len() - k,
    {
        if k > 0 {
            push_char(&mut s, ' ');
        }
        push_str(&mut s, items[k].as_str());
        proof {
            assert(items.deep_view().take(k as int + 1).drop_last() =~= items.deep_view().take(
                k as int,
            ));
            assert(items.deep_view().take(k as int + 1).last() == items@[k as int]@);
            assert(s@ =~= spec_join_spaces(items.deep_view().take(k as int + 1)));
        }
        k = k + 1;
    }
    proof {
        assert(items.deep_view().take(items.deep_view().len() as int) =~= items.deep_view());
    }
    s
}

impl DhcpOptionIDs {
    /// The identifier names joined by single spaces.
    pub fn display(&self) -> (r: String)
        ensures
            r@ == spec_join_spaces(self@.map_values(|id: DhcpOptionID| spec_id_name(id))),
    {
        let mut names: Vec<String> = Vec::new();
        let mut k: usize = 0;
        while k < self.0.len()
            invariant
                k <= self.0@.len(),
                names@.len() == k,
                forall|t: int| 0 <= t < k ==> names@[t]@ == spec_id_name(self.0@[t]),
            decreases self.0@.len() - k,
        {
            names.push(self.0[k].display());
            k = k + 1;
        }
        let r = display_vec_spaces(&names);
        proof {
            assert(names.deep_view() =~= self@.map_values(|id: DhcpOptionID| spec_id_name(id)));
        }
        r
    }
}

impl DhcpOptionOther {
    /// The raw code in parentheses, then the payload bytes.
    pub fn display(&self) -> (r: String)
        ensures
            r@ == seq!['('] + spec_hex_byte(self.option_id) + seq![')', ' '] + spec_bytes_text(
                self.option@,
            ),
    {
        let mut s = String::new();
        push_char(&mut s, '(');
        push_hex_byte(&mut s, self.option_id);
        push_char(&mut s, ')');
        push_char(&mut s, ' ');
        let t = self.option.display();
        push_str(&mut s, t.as_str());
        s
    }
}

impl DhcpOption {
    /// The rendering of the option value alone.
    pub fn display(&self) -> (r: String)
        ensures
            r@ == spec_option_text(self@),
    {
        match self {
            DhcpOption::MessageType(t) => t.display(),
            DhcpOption::ClientIdentifier(b) => b.display(),
            DhcpOption::DomainSearch(b) => b.display(),
            DhcpOption::RapidCommit => "Rapid Commit".to_owned(),
            DhcpOption::MaxMsgSize(n) => {
                let mut s = String::new();
                push_dec(&mut s, *n as u128);
                s
            },
            DhcpOption::VendorClassId(t) => t.clone(),
            DhcpOption::HostName(t) => t.clone(),
            DhcpOption::DomainName(t) => t.clone(),
            DhcpOption::ForceRenewNonceCapable(a) => a.display(),
            DhcpOption::ParameterRequestList(p) => p.display(),
            DhcpOption::SubNetMask(w) => {
                let mut s = String::new();
                push_str(&mut s, "0x");
                let hl = hex_len(*w);
                let mut fill = hl;
                proof {
                    assert(s@ =~= "0x"@ + Seq::new(0, |k: int| '0'));
                }
                while fill < 6
                    invariant
                        hl == spec_hex(*w as int).len(),
                        hl <= fill,
                        hl < 6 ==> fill <= 6,
                        hl >= 6 ==> fill == hl,
                        s@ == "0x"@ + Seq::new((fill - hl) as nat, |k: int| '0'),
                    decreases 6 - fill,
                {
                    push_char(&mut s, '0');
                    proof {
                        assert(Seq::new((fill + 1 - hl) as nat, |k: int| '0') =~= Seq::new(
                            (fill - hl) as nat,
                            |k: int| '0',
                        ).push('0'));
                    }
                    fill = fill + 1;
                }
                push_hex(&mut s, *w);
                proof {
                    assert(s@ =~= "0x"@ + spec_zero_pad(spec_hex(*w as int), 6));
                }
                s
            },
            DhcpOption::Router(l) => l.display(),
            DhcpOption::DNSserver(l) => l.display(),
            DhcpOption::InterfaceMTU(w) => {
                let mut s = String::new();
                push_dec(&mut s, *w as u128);
                s
            },
            DhcpOption::BroadcastAddr(a) => a.display(),
            DhcpOption::ServerID(a) => a.display(),
            DhcpOption::LeaseTime(d) => d.display(),
            DhcpOption::RenewalPeriod(d) => d.display(),
            DhcpOption::RebindingPeriod(d) => d.display(),
            DhcpOption::Other(o) => o.display(),
            DhcpOption::Pad => String::new(),
            DhcpOption::End => String::new(),
        }
    }
}

/// Render one summary line: a label, then the option's rendering or a
/// placeholder when it is absent, then a newline.
fn push_option_line(s: &mut String, label: &str, opts: &DhcpOptions, id: DhcpOptionID,
    missing: &str)
    ensures
        final(s)@ == old(s)@ + label@ + (if opts@.contains_key(id) {
            spec_option_text(opts@[id])
        } else {
            missing@
        }) + seq!['\n'],
{
    push_str(s, label);
    match opts.get(id) {
        Some(v) => {
            let t = v.display();
            push_str(s, t.as_str());
        },
        None => push_str(s, missing),
    }
    push_char(s, '\n');
}

impl DhcpPacket {
    /// The packet's multi-line summary: message type, host name, subnet
    /// mask and transaction id.  Rendering never fails; absent options
    /// degrade to placeholder text.
    pub fn display(&self) -> (r: String)
        ensures
            r@ == spec_packet_text(self@),
    {
        let mut s = String::new();
        push_option_line(&mut s, "Message Type: ", &self.options, DhcpOptionID::MsgType,
            "Message type missing");
        push_option_line(&mut s, "Host name: ", &self.options, DhcpOptionID::HostName,
            "No hostname");
        push_option_line(&mut s, "Subnet mask: ", &self.options, DhcpOptionID::SubnetMask,
            "No subnet mask");
        push_str(&mut s, "xid: ");
        push_hex(&mut s, self.xid);
        push_char(&mut s, '\n');
        s
    }
}

} // verus!
