//! Networks in CIDR notation, for callers that want the entries of a record
//! checked and brought to one spelling.
//!
//! A record is stored as it was published: its subnet lists are texts, and
//! reading a record does not look into them. The types here are the strict
//! form of such a text, an address and a prefix length. Reading the notation,
//! and writing an IPv6 network, is the work of the `ipnet` crate.

use crate::asn_ip::Subnets;
use crate::text::{decimal_string, decimal_text};
use vstd::prelude::*;
use vstd::string::*;

verus! {

/// What `ipnet` reads from `text` as an IPv4 network: the address, its first
/// octet in the highest byte, and the prefix length; `None` where `text` is no
/// IPv4 network in CIDR notation.
pub uninterp spec fn ipv4_net_parsed(text: Seq<char>) -> Option<(u32, u8)>;

/// What `ipnet` reads from `text` as an IPv6 network: the address, its first
/// group in the highest bytes, and the prefix length; `None` where `text` is
/// no IPv6 network in CIDR notation.
pub uninterp spec fn ipv6_net_parsed(text: Seq<char>) -> Option<(u128, u8)>;

/// How `ipnet` writes the IPv6 network of `addr` and `prefix_len`.
pub uninterp spec fn ipv6_net_text(addr: u128, prefix_len: u8) -> Seq<char>;

/// The dotted notation of an IPv4 address: its four octets in decimal, the
/// highest byte first.
pub open spec fn ipv4_addr_text(addr: u32) -> Seq<char> {
    decimal_text((addr / 0x100_0000) as nat) + seq!['.'] + decimal_text(
        (addr / 0x1_0000 % 0x100) as nat,
    ) + seq!['.'] + decimal_text((addr / 0x100 % 0x100) as nat) + seq!['.'] + decimal_text(
        (addr % 0x100) as nat,
    )
}

/// The CIDR notation of an IPv4 network: the address, a slash, and the prefix
/// length in decimal.
pub open spec fn ipv4_net_text(addr: u32, prefix_len: u8) -> Seq<char> {
    ipv4_addr_text(addr) + seq!['/'] + decimal_text(prefix_len as nat)
}

/// The longest prefix of an IPv4 network.
pub const IPV4_MAX_PREFIX_LEN: u8 = 32;

/// The longest prefix of an IPv6 network.
pub const IPV6_MAX_PREFIX_LEN: u8 = 128;

/// An IPv4 network: an address and the number of its leading bits that name
/// the network, at most 32.
#[derive(Clone, Copy, Debug, PartialEq, Eq)]
pub struct Ipv4Net {
    addr: u32,
    prefix_len: u8,
}

/// An IPv6 network: an address and the number of its leading bits that name
/// the network, at most 128.
#[derive(Clone, Copy, Debug, PartialEq, Eq)]
pub struct Ipv6Net {
    addr: u128,
    prefix_len: u8,
}

impl View for Ipv4Net {
    type V = (u32, u8);

    closed spec fn view(&self) -> (u32, u8) {
        (self.addr, self.prefix_len)
    }
}

impl View for Ipv6Net {
    type V = (u128, u8);

    closed spec fn view(&self) -> (u128, u8) {
        (self.addr, self.prefix_len)
    }
}

impl Ipv4Net {
    #[verifier::type_invariant]
    spec fn bounded(&self) -> bool {
        self.prefix_len <= IPV4_MAX_PREFIX_LEN
    }

    /// The network of `addr` and `prefix_len`, if the prefix is no longer
    /// than an address.
    pub fn new(addr: u32, prefix_len: u8) -> (net: Option<Ipv4Net>)
        ensures
            prefix_len <= IPV4_MAX_PREFIX_LEN ==> (net matches Some(n) && n@ == (addr, prefix_len)),
            prefix_len > IPV4_MAX_PREFIX_LEN ==> net is None,
    {
        if prefix_len <= IPV4_MAX_PREFIX_LEN {
            Some(Ipv4Net { addr, prefix_len })
        } else {
            None
        }
    }

    /// Reads a network in CIDR notation.
    pub fn parse(text: &str) -> (net: Option<Ipv4Net>)
        ensures
            match ipv4_net_parsed(text@) {
                Some((addr, prefix_len)) => if prefix_len <= IPV4_MAX_PREFIX_LEN {
                    net matches Some(n) && n@ == (addr, prefix_len)
                } else {
                    net is None
                },
                None => net is None,
            },
    {
        match parse_ipv4_net(text) {
            Some((addr, prefix_len)) => Ipv4Net::new(addr, prefix_len),
            None => None,
        }
    }

    /// The address, its first octet in the highest byte.
    pub fn addr(&self) -> (addr: u32)
        ensures
            addr == self@.0,
    {
        self.addr
    }

    /// The prefix length.
    pub fn prefix_len(&self) -> (prefix_len: u8)
        ensures
            prefix_len == self@.1,
            prefix_len <= IPV4_MAX_PREFIX_LEN,
    {
        proof {
            use_type_invariant(self);
        }
        self.prefix_len
    }

    /// Writes the network in CIDR notation: the four octets of the address
    /// in decimal between dots, a slash, and the prefix length in decimal.
    pub fn to_text(&self) -> (text: String)
        ensures
            text@ == ipv4_net_text(self@.0, self@.1),
    {
        let addr = self.addr;
        let first = decimal_string(addr / 0x100_0000);
        let second = decimal_string(addr / 0x1_0000 % 0x100);
        let third = decimal_string(addr / 0x100 % 0x100);
        let fourth = decimal_string(addr % 0x100);
        let length = decimal_string(self.prefix_len as u32);
        let text = first.concat(".").concat(second.as_str()).concat(".").concat(
            third.as_str(),
        ).concat(".").concat(fourth.as_str()).concat("/").concat(length.as_str());
        proof {
            reveal_strlit(".");
            reveal_strlit("/");
            assert(text@ =~= ipv4_net_text(self.addr, self.prefix_len));
        }
        text
    }
}

impl Ipv6Net {
    #[verifier::type_invariant]
    spec fn bounded(&self) -> bool {
        self.prefix_len <= IPV6_MAX_PREFIX_LEN
    }

    /// The network of `addr` and `prefix_len`, if the prefix is no longer
    /// than an address.
    pub fn new(addr: u128, prefix_len: u8) -> (net: Option<Ipv6Net>)
        ensures
            prefix_len <= IPV6_MAX_PREFIX_LEN ==> (net matches Some(n) && n@ == (addr, prefix_len)),
            prefix_len > IPV6_MAX_PREFIX_LEN ==> net is None,
    {
        if prefix_len <= IPV6_MAX_PREFIX_LEN {
            Some(Ipv6Net { addr, prefix_len })
        } else {
            None
        }
    }

    /// Reads a network in CIDR notation.
    pub fn parse(text: &str) -> (net: Option<Ipv6Net>)
        ensures
            match ipv6_net_parsed(text@) {
                Some((addr, prefix_len)) => if prefix_len <= IPV6_MAX_PREFIX_LEN {
                    net matches Some(n) && n@ == (addr, prefix_len)
                } else {
                    net is None
                },
                None => net is None,
            },
    {
        match parse_ipv6_net(text) {
            Some((addr, prefix_len)) => Ipv6Net::new(addr, prefix_len),
            None => None,
        }
    }

    /// The address, its first group in the highest bytes.
    pub fn addr(&self) -> (addr: u128)
        ensures
            addr == self@.0,
    {
        self.addr
    }

    /// The prefix length.
    pub fn prefix_len(&self) -> (prefix_len: u8)
        ensures
            prefix_len == self@.1,
            prefix_len <= IPV6_MAX_PREFIX_LEN,
    {
        proof {
            use_type_invariant(self);
        }
        self.prefix_len
    }

    /// Writes the network in CIDR notation.
    pub fn to_text(&self) -> (text: String)
        ensures
            text@ == ipv6_net_text(self@.0, self@.1),
    {
        proof {
            use_type_invariant(self);
        }
        format_ipv6_net(self.addr, self.prefix_len)
    }
}

/// The two address families of a record.
#[derive(Clone, Copy, Debug, PartialEq, Eq, Structural)]
pub enum Family {
    V4,
    V6,
}

/// The one spelling of the network that `text` denotes in `family`, or
/// `None` where `text` denotes no such network.
pub open spec fn canonical_text(family: Family, text: Seq<char>) -> Option<Seq<char>> {
    match family {
        Family::V4 => match ipv4_net_parsed(text) {
            Some((addr, prefix_len)) => if prefix_len <= IPV4_MAX_PREFIX_LEN {
                Some(ipv4_net_text(addr, prefix_len))
            } else {
                None
            },
            None => None,
        },
        Family::V6 => match ipv6_net_parsed(text) {
            Some((addr, prefix_len)) => if prefix_len <= IPV6_MAX_PREFIX_LEN {
                Some(ipv6_net_text(addr, prefix_len))
            } else {
                None
            },
            None => None,
        },
    }
}

/// Whether every entry of `texts` denotes a network of `family`.
pub open spec fn all_valid(family: Family, texts: Seq<Seq<char>>) -> bool {
    forall|i: int| 0 <= i < texts.len() ==> canonical_text(family, #[trigger] texts[i]) is Some
}

/// Whether `spelled` holds, entry for entry, the one spelling of the network
/// that the entry of `texts` denotes.
pub open spec fn spelled_as(family: Family, texts: Seq<Seq<char>>, spelled: Seq<Seq<char>>) -> bool {
    &&& spelled.len() == texts.len()
    &&& forall|i: int|
        0 <= i < texts.len() ==> canonical_text(family, #[trigger] texts[i]) == Some(spelled[i])
}

/// Checks one entry and brings it to its one spelling.
pub fn canonical(family: Family, text: &str) -> (spelled: Option<String>)
    ensures
        spelled.deep_view() == canonical_text(family, text@),
{
    match family {
        Family::V4 => match Ipv4Net::parse(text) {
            Some(net) => Some(net.to_text()),
            None => None,
        },
        Family::V6 => match Ipv6Net::parse(text) {
            Some(net) => Some(net.to_text()),
            None => None,
        },
    }
}

/// Checks a list of entries and brings each to its one spelling, in the same
/// order. One entry that denotes no network of `family` spoils the list.
pub fn canonical_list(family: Family, texts: &Vec<String>) -> (spelled: Option<Vec<String>>)
    ensures
        match spelled {
            Some(list) => spelled_as(family, texts.deep_view(), list.deep_view()),
            None => !all_valid(family, texts.deep_view()),
        },
{
    let mut list: Vec<String> = Vec::new();
    let mut i: usize = 0;
    while i < texts.len()
        invariant
            i <= texts.len(),
            list.len() == i,
            forall|j: int|
                0 <= j < i ==> canonical_text(family, #[trigger] texts.deep_view()[j]) == Some(
                    list.deep_view()[j],
                ),
        decreases texts.len() - i,
    {
        let ghost before = list.deep_view();
        match canonical(family, texts[i].as_str()) {
            Some(text) => {
                list.push(text);
                assert(list.deep_view() =~= before.push(text@));
            },
            None => {
                assert(canonical_text(family, texts.deep_view()[i as int]) is None);
                return None;
            },
        }
        i += 1;
    }
    Some(list)
}

impl Subnets {
    /// The same networks, each checked and in its one spelling. `None` where
    /// an entry denotes no network of its family.
    pub fn canonical(&self) -> (spelled: Option<Subnets>)
        ensures
            match spelled {
                Some(subnets) => {
                    &&& spelled_as(Family::V4, self.ipv4.deep_view(), subnets.ipv4.deep_view())
                    &&& spelled_as(Family::V6, self.ipv6.deep_view(), subnets.ipv6.deep_view())
                },
                None => !all_valid(Family::V4, self.ipv4.deep_view()) || !all_valid(
                    Family::V6,
                    self.ipv6.deep_view(),
                ),
            },
    {
        match canonical_list(Family::V4, &self.ipv4) {
            Some(ipv4) => match canonical_list(Family::V6, &self.ipv6) {
                Some(ipv6) => Some(Subnets { ipv4, ipv6 }),
                None => None,
            },
            None => None,
        }
    }
}

/// Reads an IPv4 network with `ipnet`.
///
/// Calls the `FromStr` implementation of `ipnet::Ipv4Net`, which depends on
/// the text alone, and hands out the address and the prefix length that the
/// parsed network holds. What is read from which text is not stated: the
/// result is only given its name.
#[verifier::external_body]
fn parse_ipv4_net(text: &str) -> (parsed: Option<(u32, u8)>)
    ensures
        parsed == ipv4_net_parsed(text@),
{
    match text.parse::<ipnet::Ipv4Net>() {
        Ok(net) => Some((u32::from(net.addr()), net.prefix_len())),
        Err(_) => None,
    }
}

/// Reads an IPv6 network with `ipnet`.
///
/// Calls the `FromStr` implementation of `ipnet::Ipv6Net`, which depends on
/// the text alone, and hands out the address and the prefix length that the
/// parsed network holds. What is read from which text is not stated: the
/// result is only given its name.
#[verifier::external_body]
fn parse_ipv6_net(text: &str) -> (parsed: Option<(u128, u8)>)
    ensures
        parsed == ipv6_net_parsed(text@),
{
    match text.parse::<ipnet::Ipv6Net>() {
        Ok(net) => Some((u128::from(net.addr()), net.prefix_len())),
        Err(_) => None,
    }
}

/// Writes an IPv6 network with `ipnet`.
///
/// Calls `ipnet::Ipv6Net::new_assert`, which panics on a prefix longer than
/// 128 bits, and the `Display` implementation of the network. The text
/// depends on the address and the prefix length alone; how an IPv6 address is
/// abbreviated is not stated: the result is only given its name.
#[verifier::external_body]
fn format_ipv6_net(addr: u128, prefix_len: u8) -> (text: String)
    requires
        prefix_len <= IPV6_MAX_PREFIX_LEN,
    ensures
        text@ == ipv6_net_text(addr, prefix_len),
{
    ipnet::Ipv6Net::new_assert(addr.into(), prefix_len).to_string()
}

} // verus!
