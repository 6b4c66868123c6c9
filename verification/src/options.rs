//! The DHCP option area: the tag-length-value grammar, the per-option
//! validation rules, and the mapping the option stream folds into.
//!
//! The grammar is stated by spec functions over the byte sequence
//! ([`spec_options_from`], [`spec_option_value`]); the executable
//! decoders are proved to return exactly what those functions describe.

use vstd::prelude::*;
use vstd::utf8::*;
use vstd::slice::slice_subrange;

use crate::error::DecodeError;
use crate::fields::{read_be_u16, read_be_u32, read_ipv4, spec_be_u16, spec_be_u32, spec_ipv4};
use crate::types::{
    DhcpBytes, DhcpDuration, DhcpForceRenewNonceAlgos, DhcpForceRenewNonceCapable,
    DhcpMessageType, DhcpOption, DhcpOptionID, DhcpOptionIDs, DhcpOptionOther, Ipv4AddrList,
    Ipv4Address, OptionModel, spec_message_type, spec_nonce_algo, spec_option_id,
};

verus! {

// ---------------------------------------------------------------------
// The grammar, as mathematics.
// ---------------------------------------------------------------------
/// Whether a declared option length obeys the option's width rule.
pub open spec fn spec_len_ok(id: DhcpOptionID, n: int) -> bool {
    match id {
        DhcpOptionID::SubnetMask
        | DhcpOptionID::BroadcastAddr
        | DhcpOptionID::LeaseTime
        | DhcpOptionID::ServerID
        | DhcpOptionID::RenewalInterval
        | DhcpOptionID::RebindingInterval => n == 4,
        DhcpOptionID::InterfaceMTU | DhcpOptionID::MaxMsgSize => n == 2,
        DhcpOptionID::MsgType => n == 1,
        DhcpOptionID::Router | DhcpOptionID::DNSserver => n >= 4 && n % 4 == 0,
        DhcpOptionID::HostName
        | DhcpOptionID::DomainName
        | DhcpOptionID::VendorClassId
        | DhcpOptionID::ForceRenewNonceCap => n > 0,
        DhcpOptionID::ClientIdentifier => n > 2,
        DhcpOptionID::RapidCommit => n == 0,
        DhcpOptionID::ParameterRequestList | DhcpOptionID::DomainSearch => true,
        DhcpOptionID::Other(_) => true,
        DhcpOptionID::OptionEnd | DhcpOptionID::Pad => true,
    }
}

/// The address list a span of 4-byte groups holds.
pub open spec fn spec_ipv4_list(v: Seq<u8>) -> Seq<Ipv4Address>
    recommends
        v.len() % 4 == 0,
{
    Seq::new(v.len() / 4, |k: int| spec_ipv4(v, 4 * k))
}

/// The typed value a span of exactly the declared length decodes to,
/// under the identifier's own validation rule.
pub open spec fn spec_value_of(id: DhcpOptionID, v: Seq<u8>) -> Result<OptionModel, DecodeError>
    recommends
        spec_len_ok(id, v.len() as int),
{
    match id {
        DhcpOptionID::SubnetMask => Ok(OptionModel::SubNetMask(spec_be_u32(v, 0) as u32)),
        DhcpOptionID::Router => Ok(OptionModel::Router(spec_ipv4_list(v))),
        DhcpOptionID::DNSserver => Ok(OptionModel::DNSserver(spec_ipv4_list(v))),
        DhcpOptionID::HostName => if valid_utf8(v) {
            Ok(OptionModel::HostName(decode_utf8(v)))
        } else {
            Err(DecodeError::InvalidEncoding)
        },
        DhcpOptionID::DomainName => if valid_utf8(v) {
            Ok(OptionModel::DomainName(decode_utf8(v)))
        } else {
            Err(DecodeError::InvalidEncoding)
        },
        DhcpOptionID::VendorClassId => if valid_utf8(v) {
            Ok(OptionModel::VendorClassId(decode_utf8(v)))
        } else {
            Err(DecodeError::InvalidEncoding)
        },
        DhcpOptionID::InterfaceMTU => Ok(OptionModel::InterfaceMTU(spec_be_u16(v, 0) as u16)),
        DhcpOptionID::BroadcastAddr => Ok(OptionModel::BroadcastAddr(spec_ipv4(v, 0))),
        DhcpOptionID::LeaseTime => Ok(
            OptionModel::LeaseTime(DhcpDuration { secs: spec_be_u32(v, 0) as u64, nanos: 0 }),
        ),
        DhcpOptionID::MsgType => if 1 <= v[0] && v[0] <= 9 {
            Ok(OptionModel::MessageType(spec_message_type(v[0])))
        } else {
            Err(DecodeError::InvalidMessageType)
        },
        DhcpOptionID::ServerID => Ok(OptionModel::ServerID(spec_ipv4(v, 0))),
        DhcpOptionID::ParameterRequestList => Ok(
            OptionModel::ParameterRequestList(v.map_values(|c: u8| spec_option_id(c))),
        ),
        DhcpOptionID::MaxMsgSize => if spec_be_u16(v, 0) >= 576 {
            Ok(OptionModel::MaxMsgSize(spec_be_u16(v, 0) as usize))
        } else {
            Err(DecodeError::InvalidOptionValue)
        },
        DhcpOptionID::RenewalInterval => Ok(
            OptionModel::RenewalPeriod(DhcpDuration { secs: spec_be_u32(v, 0) as u64, nanos: 0 }),
        ),
        DhcpOptionID::RebindingInterval => Ok(
            OptionModel::RebindingPeriod(
                DhcpDuration { secs: spec_be_u32(v, 0) as u64, nanos: 0 },
            ),
        ),
        DhcpOptionID::ClientIdentifier => Ok(OptionModel::ClientIdentifier(v)),
        DhcpOptionID::RapidCommit => Ok(OptionModel::RapidCommit),
        DhcpOptionID::ForceRenewNonceCap => Ok(
            OptionModel::ForceRenewNonceCapable(v.map_values(|c: u8| spec_nonce_algo(c))),
        ),
        DhcpOptionID::DomainSearch => Ok(OptionModel::DomainSearch(v)),
        DhcpOptionID::Other(o) => Ok(OptionModel::Other(o, v)),
        DhcpOptionID::Pad => Ok(OptionModel::Pad),
        DhcpOptionID::OptionEnd => Ok(OptionModel::End),
    }
}

/// One whole option at position `i` of the buffer, where `i` points at
/// the length byte (the code byte is already consumed).  Yields the
/// value and the position just after the option.  The sentinels consume
/// nothing.
pub open spec fn spec_option_value(id: DhcpOptionID, b: Seq<u8>, i: int) -> Result<
    (OptionModel, int),
    DecodeError,
> {
    if id == DhcpOptionID::Pad {
        Ok((OptionModel::Pad, i))
    } else if id == DhcpOptionID::OptionEnd {
        Ok((OptionModel::End, i))
    } else if i >= b.len() {
        Err(DecodeError::Truncated)
    } else {
        let n = b[i] as int;
        if i + 1 + n > b.len() {
            Err(DecodeError::Truncated)
        } else if !spec_len_ok(id, n) {
            Err(DecodeError::InvalidOptionLength)
        } else {
            match spec_value_of(id, b.subrange(i + 1, i + 1 + n)) {
                Err(e) => Err(e),
                Ok(v) => Ok((v, i + 1 + n)),
            }
        }
    }
}

/// The mapping the option stream starting at `i` folds into.  An End
/// code stops the stream (later bytes are not examined), a Pad code is
/// skipped, running out of buffer ends the stream without error, and a
/// later occurrence of an identifier overwrites an earlier one.
pub open spec fn spec_options_from(b: Seq<u8>, i: int) -> Result<
    Map<DhcpOptionID, OptionModel>,
    DecodeError,
>
    decreases b.len() - i,
{
    if i >= b.len() {
        Ok(Map::empty())
    } else if b[i] == 255 {
        Ok(Map::empty())
    } else if b[i] == 0 {
        spec_options_from(b, i + 1)
    } else if i + 1 >= b.len() {
        Err(DecodeError::Truncated)
    } else {
        let id = spec_option_id(b[i]);
        let n = b[i + 1] as int;
        if i + 2 + n > b.len() {
            Err(DecodeError::Truncated)
        } else if !spec_len_ok(id, n) {
            Err(DecodeError::InvalidOptionLength)
        } else {
            match spec_value_of(id, b.subrange(i + 2, i + 2 + n)) {
                Err(e) => Err(e),
                Ok(v) => match spec_options_from(b, i + 2 + n) {
                    Err(e) => Err(e),
                    Ok(m) => Ok(
                        if m.contains_key(id) {
                            m
                        } else {
                            m.insert(id, v)
                        },
                    ),
                },
            }
        }
    }
}

// ---------------------------------------------------------------------
// The option mapping.
// ---------------------------------------------------------------------
/// The mapping a record sequence denotes: entries folded in order, a
/// later entry for a key overwriting an earlier one.
pub open spec fn opts_map(s: Seq<(DhcpOptionID, DhcpOption)>) -> Map<DhcpOptionID, OptionModel>
    decreases s.len(),
{
    if s.len() == 0 {
        Map::empty()
    } else {
        opts_map(s.drop_last()).insert(s.last().0, s.last().1@)
    }
}

/// A key stands in the mapping exactly when some record carries it.
pub proof fn lemma_opts_map_contains(s: Seq<(DhcpOptionID, DhcpOption)>, k: DhcpOptionID)
    ensures
        opts_map(s).contains_key(k) <==> (exists|j: int| 0 <= j < s.len() && s[j].0 == k),
    decreases s.len(),
{
    if s.len() > 0 {
        lemma_opts_map_contains(s.drop_last(), k);
        if s.last().0 == k {
            assert(s[s.len() - 1].0 == k);
        } else {
            if opts_map(s).contains_key(k) {
                let j = choose|j: int| 0 <= j < s.drop_last().len() && s.drop_last()[j].0 == k;
                assert(s[j].0 == k);
            }
            if exists|j: int| 0 <= j < s.len() && s[j].0 == k {
                let j = choose|j: int| 0 <= j < s.len() && s[j].0 == k;
                assert(s.drop_last()[j].0 == k);
            }
        }
    }
}

/// The mapping holds, at a key, the value of the key's last record.
pub proof fn lemma_opts_map_get(s: Seq<(DhcpOptionID, DhcpOption)>, k: DhcpOptionID, i: int)
    requires
        0 <= i < s.len(),
        s[i].0 == k,
        forall|j: int| i < j < s.len() ==> s[j].0 != k,
    ensures
        opts_map(s).contains_key(k),
        opts_map(s)[k] == s[i].1@,
    decreases s.len(),
{
    if i < s.len() - 1 {
        assert(s.drop_last()[i].0 == k);
        assert forall|j: int| i < j < s.drop_last().len() implies s.drop_last()[j].0 != k by {
            assert(s.drop_last()[j] == s[j]);
        }
        lemma_opts_map_get(s.drop_last(), k, i);
        assert(s.last().0 != k);
    }
}

/// The option mapping of a decoded packet: identifiers to typed values,
/// keys unique, a later write for the same identifier replacing an
/// earlier one.
#[derive(Clone, Debug)]
pub struct DhcpOptions {
    entries: Vec<(DhcpOptionID, DhcpOption)>,
}

impl View for DhcpOptions {
    type V = Map<DhcpOptionID, OptionModel>;

    closed spec fn view(&self) -> Map<DhcpOptionID, OptionModel> {
        opts_map(self.entries@)
    }
}

impl DhcpOptions {
    /// The empty mapping.
    pub fn new() -> (r: Self)
        ensures
            r@ == Map::<DhcpOptionID, OptionModel>::empty(),
    {
        DhcpOptions { entries: Vec::new() }
    }

    /// Bind `id` to `value`, replacing any earlier binding.
    pub fn insert(&mut self, id: DhcpOptionID, value: DhcpOption)
        ensures
            final(self)@ == old(self)@.insert(id, value@),
    {
        let ghost s_old = self.entries@;
        self.entries.push((id, value));
        proof {
            assert(self.entries@.drop_last() =~= s_old);
        }
    }

    /// Whether `id` is bound.
    pub fn contains_key(&self, id: DhcpOptionID) -> (r: bool)
        ensures
            r == self@.contains_key(id),
    {
        proof {
            lemma_opts_map_contains(self.entries@, id);
        }
        let n = self.entries.len();
        let mut k = n;
        while k > 0
            invariant
                k <= n,
                n == self.entries.len(),
                forall|j: int| k <= j < n ==> self.entries@[j].0 != id,
            decreases k,
        {
            k = k - 1;
            if self.entries[k].0 == id {
                proof {
                    lemma_opts_map_contains(self.entries@, id);
                    let ghost w: int = k as int;
                    assert(exists|j: int|
                        0 <= j < self.entries@.len() && self.entries@[j].0 == id) by {
                        assert(0 <= w < self.entries@.len());
                        assert(self.entries@[w].0 == id);
                    }
                    assert(self@.contains_key(id));
                }
                return true;
            }
        }
        false
    }

    /// The value bound to `id`, if any.
    pub fn get(&self, id: DhcpOptionID) -> (r: Option<&DhcpOption>)
        ensures
            match r {
                Some(v) => self@.contains_key(id) && v@ == self@[id],
                None => !self@.contains_key(id),
            },
    {
        let n = self.entries.len();
        let mut k = n;
        while k > 0
            invariant
                k <= n,
                n == self.entries.len(),
                forall|j: int| k <= j < n ==> self.entries@[j].0 != id,
            decreases k,
        {
            k = k - 1;
            if self.entries[k].0 == id {
                proof {
                    lemma_opts_map_get(self.entries@, id, k as int);
                }
                return Some(&self.entries[k].1);
            }
        }
        proof {
            lemma_opts_map_contains(self.entries@, id);
        }
        None
    }

    /// Whether the mapping is empty.
    pub fn is_empty(&self) -> (r: bool)
        ensures
            r <==> self@ == Map::<DhcpOptionID, OptionModel>::empty(),
    {
        proof {
            if self.entries@.len() == 0 {
                assert(self@ =~= Map::<DhcpOptionID, OptionModel>::empty());
            } else {
                assert(self@.contains_key(self.entries@.last().0));
            }
        }
        self.entries.len() == 0
    }
}

// ---------------------------------------------------------------------
// Executable decoding, proved against the grammar.
// ---------------------------------------------------------------------
/// How an executable single-option result models its specification.
pub open spec fn option_result_matches(
    r: Result<(DhcpOption, usize), DecodeError>,
    s: Result<(OptionModel, int), DecodeError>,
) -> bool {
    match (r, s) {
        (Ok(p), Ok(q)) => p.0@ == q.0 && p.1 == q.1,
        (Err(e), Err(f)) => e == f,
        _ => false,
    }
}

/// How an executable option-stream result models its specification.
pub open spec fn opts_result_matches(
    r: Result<DhcpOptions, DecodeError>,
    s: Result<Map<DhcpOptionID, OptionModel>, DecodeError>,
) -> bool {
    match (r, s) {
        (Ok(m), Ok(sm)) => m@ == sm,
        (Err(e), Err(f)) => e == f,
        _ => false,
    }
}

/// Relies on str::from_utf8: it succeeds exactly on valid UTF-8, and
/// the returned string slice views those very bytes, so its character
/// sequence is their UTF-8 decoding.
#[verifier::external_body]
fn utf8_to_string(v: &[u8]) -> (r: Option<String>)
    ensures
        match r {
            Some(s) => valid_utf8(v@) && s@ == decode_utf8(v@),
            None => !valid_utf8(v@),
        },
{
    match std::str::from_utf8(v) {
        Ok(s) => Some(s.to_owned()),
        Err(_) => None,
    }
}

/// Whether a declared length obeys `id`'s width rule.
fn len_ok(id: DhcpOptionID, n: usize) -> (r: bool)
    ensures
        r == spec_len_ok(id, n as int),
{
    match id {
        DhcpOptionID::SubnetMask
        | DhcpOptionID::BroadcastAddr
        | DhcpOptionID::LeaseTime
        | DhcpOptionID::ServerID
        | DhcpOptionID::RenewalInterval
        | DhcpOptionID::RebindingInterval => n == 4,
        DhcpOptionID::InterfaceMTU | DhcpOptionID::MaxMsgSize => n == 2,
        DhcpOptionID::MsgType => n == 1,
        DhcpOptionID::Router | DhcpOptionID::DNSserver => n >= 4 && n % 4 == 0,
        DhcpOptionID::HostName
        | DhcpOptionID::DomainName
        | DhcpOptionID::VendorClassId
        | DhcpOptionID::ForceRenewNonceCap => n > 0,
        DhcpOptionID::ClientIdentifier => n > 2,
        DhcpOptionID::RapidCommit => n == 0,
        DhcpOptionID::ParameterRequestList | DhcpOptionID::DomainSearch => true,
        DhcpOptionID::Other(_) => true,
        DhcpOptionID::OptionEnd | DhcpOptionID::Pad => true,
    }
}

/// Decode a span of 4-byte groups as an address list.
pub fn parse_ipv4_list(v: &[u8]) -> (r: Vec<Ipv4Address>)
    requires
        v@.len() % 4 == 0,
    ensures
        r@ == spec_ipv4_list(v@),
{
    let m = v.len() / 4;
    proof {
        vstd::arithmetic::div_mod::lemma_fundamental_div_mod(v@.len() as int, 4);
    }
    let mut addrs: Vec<Ipv4Address> = Vec::new();
    let mut k: usize = 0;
    while k < m
        invariant
            m == v@.len() / 4,
            4 * m == v@.len(),
            v@.len() <= usize::MAX,
            k <= m,
            addrs@.len() == k,
            forall|t: int| 0 <= t < k ==> addrs@[t] == spec_ipv4(v@, 4 * t),
        decreases m - k,
    {
        let a = read_ipv4(v, 4 * k);
        addrs.push(a);
        k = k + 1;
    }
    proof {
        assert(addrs@ =~= spec_ipv4_list(v@));
    }
    addrs
}

/// Resolve every byte of a parameter-request-list payload.
fn map_option_ids(v: &[u8]) -> (r: Vec<DhcpOptionID>)
    ensures
        r@ == v@.map_values(|c: u8| spec_option_id(c)),
{
    let mut out: Vec<DhcpOptionID> = Vec::new();
    let mut k: usize = 0;
    while k < v.len()
        invariant
            k <= v@.len(),
            out@.len() == k,
            forall|t: int| 0 <= t < k ==> out@[t] == spec_option_id(v@[t]),
        decreases v@.len() - k,
    {
        out.push(DhcpOptionID::from(v[k]));
        k = k + 1;
    }
    proof {
        assert(out@ =~= v@.map_values(|c: u8| spec_option_id(c)));
    }
    out
}

/// Resolve every byte of a force-renew-nonce-capable payload.
fn map_nonce_algos(v: &[u8]) -> (r: Vec<DhcpForceRenewNonceAlgos>)
    ensures
        r@ == v@.map_values(|c: u8| spec_nonce_algo(c)),
{
    let mut out: Vec<DhcpForceRenewNonceAlgos> = Vec::new();
    let mut k: usize = 0;
    while k < v.len()
        invariant
            k <= v@.len(),
            out@.len() == k,
            forall|t: int| 0 <= t < k ==> out@[t] == spec_nonce_algo(v@[t]),
        decreases v@.len() - k,
    {
        out.push(DhcpForceRenewNonceAlgos::parse(v[k]));
        k = k + 1;
    }
    proof {
        assert(out@ =~= v@.map_values(|c: u8| spec_nonce_algo(c)));
    }
    out
}

/// Copy a byte span out of the buffer.
fn span_to_bytes(v: &[u8]) -> (r: DhcpBytes)
    ensures
        r@ == v@,
{
    DhcpBytes(vstd::slice::slice_to_vec(v))
}

impl DhcpOption {
    /// Decode one option value at `i`, where `i` points at the length
    /// byte (the code byte is already consumed), yielding the typed
    /// value and the position just after it.  The Pad and End sentinels
    /// consume nothing and carry nothing.
    pub fn parse(id: DhcpOptionID, b: &[u8], i: usize) -> (r: Result<
        (DhcpOption, usize),
        DecodeError,
    >)
        ensures
            option_result_matches(r, spec_option_value(id, b@, i as int)),
            match r {
                Ok(p) => if id == DhcpOptionID::Pad || id == DhcpOptionID::OptionEnd {
                    p.1 == i
                } else {
                    i < p.1 && p.1 <= b@.len()
                },
                Err(_) => true,
            },
    {
        match id {
            DhcpOptionID::Pad => {
                return Ok((DhcpOption::Pad, i));
            },
            DhcpOptionID::OptionEnd => {
                return Ok((DhcpOption::End, i));
            },
            _ => {},
        }
        if i >= b.len() {
            return Err(DecodeError::Truncated);
        }
        let n = b[i] as usize;
        if n > b.len() - (i + 1) {
            return Err(DecodeError::Truncated);
        }
        if !len_ok(id, n) {
            return Err(DecodeError::InvalidOptionLength);
        }
        let v: &[u8] = slice_subrange(b, i + 1, i + 1 + n);
        let j = i + 1 + n;
        let val = match id {
            DhcpOptionID::SubnetMask => DhcpOption::SubNetMask(read_be_u32(v, 0)),
            DhcpOptionID::Router => DhcpOption::Router(Ipv4AddrList(parse_ipv4_list(v))),
            DhcpOptionID::DNSserver => DhcpOption::DNSserver(Ipv4AddrList(parse_ipv4_list(v))),
            DhcpOptionID::HostName => match utf8_to_string(v) {
                Some(s) => DhcpOption::HostName(s),
                None => {
                    return Err(DecodeError::InvalidEncoding);
                },
            },
            DhcpOptionID::DomainName => match utf8_to_string(v) {
                Some(s) => DhcpOption::DomainName(s),
                None => {
                    return Err(DecodeError::InvalidEncoding);
                },
            },
            DhcpOptionID::VendorClassId => match utf8_to_string(v) {
                Some(s) => DhcpOption::VendorClassId(s),
                None => {
                    return Err(DecodeError::InvalidEncoding);
                },
            },
            DhcpOptionID::InterfaceMTU => DhcpOption::InterfaceMTU(read_be_u16(v, 0)),
            DhcpOptionID::BroadcastAddr => DhcpOption::BroadcastAddr(read_ipv4(v, 0)),
            DhcpOptionID::LeaseTime => DhcpOption::LeaseTime(
                DhcpDuration { secs: read_be_u32(v, 0) as u64, nanos: 0 },
            ),
            DhcpOptionID::MsgType => {
                let c = v[0];
                if 1 <= c && c <= 9 {
                    DhcpOption::MessageType(parse_message_type(c))
                } else {
                    return Err(DecodeError::InvalidMessageType);
                }
            },
            DhcpOptionID::ServerID => DhcpOption::ServerID(read_ipv4(v, 0)),
            DhcpOptionID::ParameterRequestList => DhcpOption::ParameterRequestList(
                DhcpOptionIDs(map_option_ids(v)),
            ),
            DhcpOptionID::MaxMsgSize => {
                let x = read_be_u16(v, 0);
                if x >= 576 {
                    DhcpOption::MaxMsgSize(x as usize)
                } else {
                    return Err(DecodeError::InvalidOptionValue);
                }
            },
            DhcpOptionID::RenewalInterval => DhcpOption::RenewalPeriod(
                DhcpDuration { secs: read_be_u32(v, 0) as u64, nanos: 0 },
            ),
            DhcpOptionID::RebindingInterval => DhcpOption::RebindingPeriod(
                DhcpDuration { secs: read_be_u32(v, 0) as u64, nanos: 0 },
            ),
            DhcpOptionID::ClientIdentifier => DhcpOption::ClientIdentifier(span_to_bytes(v)),
            DhcpOptionID::RapidCommit => DhcpOption::RapidCommit,
            DhcpOptionID::ForceRenewNonceCap => DhcpOption::ForceRenewNonceCapable(
                DhcpForceRenewNonceCapable(map_nonce_algos(v)),
            ),
            DhcpOptionID::DomainSearch => DhcpOption::DomainSearch(span_to_bytes(v)),
            DhcpOptionID::Other(o) => DhcpOption::Other(
                DhcpOptionOther { option: span_to_bytes(v), option_id: o },
            ),
            // Never reached: both sentinels returned at the top.
            DhcpOptionID::Pad | DhcpOptionID::OptionEnd => {
                return Err(DecodeError::Truncated);
            },
        };
        Ok((val, j))
    }
}

/// The message kind one payload byte between 1 and 9 names.
fn parse_message_type(c: u8) -> (r: DhcpMessageType)
    requires
        1 <= c <= 9,
    ensures
        r == spec_message_type(c),
{
    match c {
        1 => DhcpMessageType::DhcpDiscover,
        2 => DhcpMessageType::DhcpOffer,
        3 => DhcpMessageType::DhcpRequest,
        4 => DhcpMessageType::DhcpDecline,
        5 => DhcpMessageType::DhcpAck,
        6 => DhcpMessageType::DhcpNak,
        7 => DhcpMessageType::DhcpRelease,
        8 => DhcpMessageType::DhcpInform,
        _ => DhcpMessageType::DhcpForceRenew,
    }
}

/// Decode the whole option stream starting at `i`: codes resolved,
/// values decoded, Pad skipped, End (or the end of the buffer) ending
/// the stream, later occurrences of an identifier overwriting earlier
/// ones.
pub fn parse_dhcp_options_at(b: &[u8], i: usize) -> (r: Result<DhcpOptions, DecodeError>)
    ensures
        opts_result_matches(r, spec_options_from(b@, i as int)),
    decreases b@.len() - i,
{
    if i >= b.len() {
        return Ok(DhcpOptions::new());
    }
    let code = b[i];
    if code == 255 {
        return Ok(DhcpOptions::new());
    }
    if code == 0 {
        return parse_dhcp_options_at(b, i + 1);
    }
    let id = DhcpOptionID::from(code);
    match DhcpOption::parse(id, b, i + 1) {
        Err(e) => Err(e),
        Ok((val, j)) => match parse_dhcp_options_at(b, j) {
            Err(e) => Err(e),
            Ok(mut m) => {
                if !m.contains_key(id) {
                    m.insert(id, val);
                }
                Ok(m)
            },
        },
    }
}

/// Decode an option stream from its first byte.
pub fn parse_dhcp_options(b: &[u8]) -> (r: Result<DhcpOptions, DecodeError>)
    ensures
        opts_result_matches(r, spec_options_from(b@, 0)),
{
    parse_dhcp_options_at(b, 0)
}

// ---------------------------------------------------------------------
// Laws of the option stream.
// ---------------------------------------------------------------------
/// A decoded option mapping never binds the Pad or End sentinel.
pub proof fn lemma_options_no_sentinels(b: Seq<u8>, i: int)
    ensures
        spec_options_from(b, i) matches Ok(m) ==> !m.contains_key(DhcpOptionID::Pad)
            && !m.contains_key(DhcpOptionID::OptionEnd),
    decreases b.len() - i,
{
    if i >= b.len() || b[i] == 255 {
    } else if b[i] == 0 {
        lemma_options_no_sentinels(b, i + 1);
    } else if i + 1 < b.len() {
        let id = spec_option_id(b[i]);
        let n = b[i + 1] as int;
        if spec_len_ok(id, n) && i + 2 + n <= b.len() {
            lemma_options_no_sentinels(b, i + 2 + n);
            assert(id != DhcpOptionID::Pad && id != DhcpOptionID::OptionEnd);
        }
    }
}

/// A Pad byte between options creates no mapping entry and leaves the
/// rest of the stream exactly as it was.
pub proof fn lemma_pad_skipped(b: Seq<u8>, i: int)
    requires
        0 <= i < b.len(),
        b[i] == 0,
    ensures
        spec_options_from(b, i) == spec_options_from(b, i + 1),
{
}

/// An End byte stops the stream at once: whatever follows it is never
/// examined, and the mapping gathered from that point on is empty.
pub proof fn lemma_end_stops(b: Seq<u8>, i: int)
    requires
        0 <= i < b.len(),
        b[i] == 255,
    ensures
        spec_options_from(b, i) == Ok::<Map<DhcpOptionID, OptionModel>, DecodeError>(Map::empty()),
{
}

/// When the identifier first decoded at `i` occurs again in the rest of
/// the stream, the later occurrence's value is the one in the final
/// mapping; when it does not, the value decoded at `i` is.
pub proof fn lemma_last_write_wins(
    b: Seq<u8>,
    i: int,
    m: Map<DhcpOptionID, OptionModel>,
    m2: Map<DhcpOptionID, OptionModel>,
    v: OptionModel,
    j: int,
)
    requires
        0 <= i < b.len(),
        b[i] != 0,
        b[i] != 255,
        spec_options_from(b, i) == Ok::<Map<DhcpOptionID, OptionModel>, DecodeError>(m),
        spec_option_value(spec_option_id(b[i]), b, i + 1) == Ok::<(OptionModel, int), DecodeError>((v, j)),
        spec_options_from(b, j) == Ok::<Map<DhcpOptionID, OptionModel>, DecodeError>(m2),
    ensures
        m.contains_key(spec_option_id(b[i])),
        m[spec_option_id(b[i])] == if m2.contains_key(spec_option_id(b[i])) {
            m2[spec_option_id(b[i])]
        } else {
            v
        },
{
    let id = spec_option_id(b[i]);
    assert(id != DhcpOptionID::Pad && id != DhcpOptionID::OptionEnd);
    assert(i + 1 < b.len());
}

/// Any text option whose payload is the UTF-8 encoding of a character
/// sequence of up to 255 bytes decodes to exactly that sequence.
pub proof fn lemma_text_round_trip(s: Seq<char>)
    requires
        1 <= encode_utf8(s).len() <= 255,
    ensures
        spec_value_of(DhcpOptionID::HostName, encode_utf8(s)) == Ok::<OptionModel, DecodeError>(OptionModel::HostName(s)),
        spec_value_of(DhcpOptionID::DomainName, encode_utf8(s)) == Ok::<OptionModel, DecodeError>(OptionModel::DomainName(s)),
        spec_value_of(DhcpOptionID::VendorClassId, encode_utf8(s)) == Ok::<
            OptionModel,
            DecodeError,
        >(OptionModel::VendorClassId(s)),
{
    encode_utf8_valid_utf8(s);
    encode_utf8_decode_utf8(s);
}

/// A text option payload that is not valid UTF-8 fails with
/// InvalidEncoding.
pub proof fn lemma_text_invalid_encoding(v: Seq<u8>)
    requires
        !valid_utf8(v),
    ensures
        spec_value_of(DhcpOptionID::HostName, v) == Err::<OptionModel, DecodeError>(
            DecodeError::InvalidEncoding,
        ),
        spec_value_of(DhcpOptionID::DomainName, v) == Err::<OptionModel, DecodeError>(
            DecodeError::InvalidEncoding,
        ),
        spec_value_of(DhcpOptionID::VendorClassId, v) == Err::<OptionModel, DecodeError>(
            DecodeError::InvalidEncoding,
        ),
{
}

} // verus!
