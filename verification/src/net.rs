//! Client addresses and trusted networks.
//!
//! Addresses are held as integers (`u32` for IPv4, `u128` for IPv6, in
//! network bit order) and networks as an address with a prefix length.
//! Network text is parsed by `ipnet`; containment is decided here, by the
//! network and broadcast bounds that `IpNet::contains` compares against.

use vstd::prelude::*;

use crate::text::{
    find_char_from, first_char, split_on, strings_view, substring, to_chars, trim_bounds, trimmed,
};

verus! {

/// An IPv4 or IPv6 address.
#[derive(Clone, Copy, Debug, PartialEq, Eq, Structural)]
pub enum IpAddress {
    V4(u32),
    V6(u128),
}

/// An IP network: an address and a prefix length no longer than the
/// address family allows (32 for IPv4, 128 for IPv6).
#[derive(Clone, Copy, Debug)]
pub struct IpNetwork {
    addr: IpAddress,
    prefix_len: u8,
}

/// Largest prefix length of the address family of `a`.
pub open spec fn max_prefix_len(a: IpAddress) -> u8 {
    match a {
        IpAddress::V4(_) => 32,
        IpAddress::V6(_) => 128,
    }
}

/// A network whose prefix length fits its address family.
pub open spec fn valid_network(n: (IpAddress, u8)) -> bool {
    n.1 <= max_prefix_len(n.0)
}

impl View for IpNetwork {
    type V = (IpAddress, u8);

    closed spec fn view(&self) -> (IpAddress, u8) {
        (self.addr, self.prefix_len)
    }
}

impl IpNetwork {
    #[verifier::type_invariant]
    spec fn inv(self) -> bool {
        valid_network((self.addr, self.prefix_len))
    }

    /// The network of `addr` with `prefix_len` leading bits; `None` when
    /// the prefix is longer than the address family allows.
    pub fn new(addr: IpAddress, prefix_len: u8) -> (r: Option<IpNetwork>)
        ensures
            match r {
                Some(n) => n@ == (addr, prefix_len) && valid_network(n@),
                None => !valid_network((addr, prefix_len)),
            },
    {
        let max: u8 = match addr {
            IpAddress::V4(_) => 32,
            IpAddress::V6(_) => 128,
        };
        if prefix_len <= max {
            Some(IpNetwork { addr, prefix_len })
        } else {
            None
        }
    }

    pub fn addr(&self) -> (r: IpAddress)
        ensures
            r == self@.0,
    {
        self.addr
    }

    pub fn prefix_len(&self) -> (r: u8)
        ensures
            r == self@.1,
    {
        self.prefix_len
    }
}

/// Network mask of an IPv4 prefix (`ipnet`'s `netmask_u32`).
pub open spec fn v4_netmask(p: u8) -> u32 {
    if p == 0 {
        0
    } else if p >= 32 {
        0xffff_ffffu32
    } else {
        (0xffff_ffffu32 << ((32 - p) as u32)) as u32
    }
}

/// Host mask of an IPv4 prefix (`ipnet`'s `hostmask_u32`).
pub open spec fn v4_hostmask(p: u8) -> u32 {
    if p >= 32 {
        0
    } else {
        (0xffff_ffffu32 >> (p as u32)) as u32
    }
}

/// Network mask of an IPv6 prefix.
pub open spec fn v6_netmask(p: u8) -> u128 {
    if p == 0 {
        0
    } else if p >= 128 {
        0xffff_ffff_ffff_ffff_ffff_ffff_ffff_ffffu128
    } else {
        (0xffff_ffff_ffff_ffff_ffff_ffff_ffff_ffffu128 << ((128 - p) as u32)) as u128
    }
}

/// Host mask of an IPv6 prefix.
pub open spec fn v6_hostmask(p: u8) -> u128 {
    if p >= 128 {
        0
    } else {
        (0xffff_ffff_ffff_ffff_ffff_ffff_ffff_ffffu128 >> (p as u32)) as u128
    }
}

/// `ip` lies between the network address and the broadcast address of
/// `net`, both of the same family (`ipnet`'s `IpNet::contains`).
pub open spec fn spec_contains(net: (IpAddress, u8), ip: IpAddress) -> bool {
    match (net.0, ip) {
        (IpAddress::V4(a), IpAddress::V4(x)) => (a & v4_netmask(net.1)) <= x && x <= (a
            | v4_hostmask(net.1)),
        (IpAddress::V6(a), IpAddress::V6(x)) => (a & v6_netmask(net.1)) <= x && x <= (a
            | v6_hostmask(net.1)),
        _ => false,
    }
}

/// The single-address network of `ip` (`IpNet::from(IpAddr)`): the full
/// prefix length of its family.
pub open spec fn spec_host_network(ip: IpAddress) -> (IpAddress, u8) {
    (ip, max_prefix_len(ip))
}

/// What `str::parse::<ipnet::IpNet>` gives for `s` (address and prefix).
pub uninterp spec fn parsed_ip_network(s: Seq<char>) -> Option<(IpAddress, u8)>;

/// `str::parse::<ipnet::IpNet>`, read back as address bits and prefix
/// length. Claims that the result is the named parse of `s` and that a
/// parsed prefix fits its family (`Ipv4Net::new`/`Ipv6Net::new`, which
/// the parser calls, reject longer ones).
#[verifier::external_body]
fn parse_ip_network(s: &str) -> (r: Option<IpNetwork>)
    ensures
        match r {
            Some(n) => parsed_ip_network(s@) == Some(n@) && valid_network(n@),
            None => parsed_ip_network(s@) is None,
        },
{
    match s.parse::<ipnet::IpNet>() {
        Ok(ipnet::IpNet::V4(n)) => Some(
            IpNetwork { addr: IpAddress::V4(u32::from(n.addr())), prefix_len: n.prefix_len() },
        ),
        Ok(ipnet::IpNet::V6(n)) => Some(
            IpNetwork { addr: IpAddress::V6(u128::from(n.addr())), prefix_len: n.prefix_len() },
        ),
        Err(_) => None,
    }
}

/// Does `net` contain `ip`? (`IpNet::contains`: network address <= ip <=
/// broadcast address, same family.)
pub fn network_contains(net: &IpNetwork, ip: &IpAddress) -> (r: bool)
    ensures
        r == spec_contains(net@, *ip),
{
    proof {
        use_type_invariant(net);
    }
    let p = net.prefix_len;
    match (net.addr, *ip) {
        (IpAddress::V4(a), IpAddress::V4(x)) => {
            let netmask: u32 = if p == 0 {
                0
            } else if p >= 32 {
                0xffff_ffffu32
            } else {
                0xffff_ffffu32 << ((32 - p) as u32)
            };
            let hostmask: u32 = if p >= 32 {
                0
            } else {
                0xffff_ffffu32 >> (p as u32)
            };
            (a & netmask) <= x && x <= (a | hostmask)
        },
        (IpAddress::V6(a), IpAddress::V6(x)) => {
            let netmask: u128 = if p == 0 {
                0
            } else if p >= 128 {
                0xffff_ffff_ffff_ffff_ffff_ffff_ffff_ffffu128
            } else {
                0xffff_ffff_ffff_ffff_ffff_ffff_ffff_ffffu128 << ((128 - p) as u32)
            };
            let hostmask: u128 = if p >= 128 {
                0
            } else {
                0xffff_ffff_ffff_ffff_ffff_ffff_ffff_ffffu128 >> (p as u32)
            };
            (a & netmask) <= x && x <= (a | hostmask)
        },
        _ => false,
    }
}

/// The single-address network of `ip` (`IpNet::from(IpAddr)`).
pub fn host_network(ip: &IpAddress) -> (r: IpNetwork)
    ensures
        r@ == spec_host_network(*ip),
{
    match ip {
        IpAddress::V4(_) => IpNetwork { addr: *ip, prefix_len: 32 },
        IpAddress::V6(_) => IpNetwork { addr: *ip, prefix_len: 128 },
    }
}

/// Some network of `nets` contains `ip`.
pub open spec fn in_any(nets: Seq<(IpAddress, u8)>, ip: IpAddress) -> bool {
    exists|k: int| 0 <= k < nets.len() && spec_contains(nets[k], ip)
}

/// The views of a list of networks.
pub open spec fn nets_view(nets: Seq<IpNetwork>) -> Seq<(IpAddress, u8)> {
    nets.map_values(|n: IpNetwork| n@)
}

/// Is `ip` within any of the trusted networks?
pub fn is_ip_trusted(ip: &IpAddress, trusted_networks: &Vec<IpNetwork>) -> (r: bool)
    ensures
        r == in_any(nets_view(trusted_networks@), *ip),
{
    let ghost nv = nets_view(trusted_networks@);
    let mut i: usize = 0;
    while i < trusted_networks.len()
        invariant
            i <= trusted_networks.len(),
            nv == nets_view(trusted_networks@),
            forall|k: int| 0 <= k < i ==> !spec_contains(nv[k], *ip),
        decreases trusted_networks.len() - i,
    {
        let net = &trusted_networks[i];
        assert(net@ == nv[i as int]);
        if network_contains(net, ip) {
            return true;
        }
        i = i + 1;
    }
    false
}

/// The first comma-separated piece of an `X-Forwarded-For` value.
pub open spec fn first_piece(h: Seq<char>, c: char) -> Seq<char> {
    match first_char(h, c) {
        Some(i) => h.subrange(0, i),
        None => h,
    }
}

/// The client address of a request: the TCP peer, unless the peer is a
/// trusted proxy, in which case the address read from the first
/// `X-Forwarded-For` entry, or failing that from `X-Real-IP`.
pub open spec fn spec_client_ip(
    peer: Option<IpAddress>,
    forwarded_for: Option<IpAddress>,
    real_ip: Option<IpAddress>,
    proxies: Seq<(IpAddress, u8)>,
) -> Option<IpAddress> {
    match peer {
        None => None,
        Some(p) => if proxies.len() == 0 || !in_any(proxies, p) {
            Some(p)
        } else {
            match forwarded_for {
                Some(a) => Some(a),
                None => match real_ip {
                    Some(a) => Some(a),
                    None => Some(p),
                },
            }
        },
    }
}

/// The text to read the client address from in an `X-Forwarded-For`
/// value ("client, proxy1, proxy2"): its first entry, trimmed.
pub fn forwarded_for_candidate(header: &str) -> (r: String)
    ensures
        r@ == trimmed(first_piece(header@, ',')),
{
    let cs = to_chars(header);
    let end = match find_char_from(&cs, 0, ',') {
        Some(i) => i,
        None => cs.len(),
    };
    let (a, b) = trim_bounds(&cs, 0, end);
    proof {
        assert(cs@.subrange(0, cs.len() as int) =~= cs@);
        assert(cs@.subrange(0, end as int) == first_piece(header@, ','));
    }
    substring(header, a, b)
}

/// Client address, respecting trusted proxies. Forwarding headers are
/// believed only when the TCP peer is a trusted proxy; `forwarded_for`
/// and `real_ip` are the addresses read from those headers' candidates
/// (see `forwarded_for_candidate`), when they parse.
pub fn get_client_ip(
    peer: Option<IpAddress>,
    forwarded_for: Option<IpAddress>,
    real_ip: Option<IpAddress>,
    trusted_proxies: &Vec<IpNetwork>,
) -> (r: Option<IpAddress>)
    ensures
        r == spec_client_ip(peer, forwarded_for, real_ip, nets_view(trusted_proxies@)),
{
    let p = match peer {
        None => return None,
        Some(p) => p,
    };
    if trusted_proxies.len() == 0 {
        return Some(p);
    }
    if !is_ip_trusted(&p, trusted_proxies) {
        return Some(p);
    }
    match forwarded_for {
        Some(a) => Some(a),
        None => match real_ip {
            Some(a) => Some(a),
            None => Some(p),
        },
    }
}

/// The entries of a comma-separated list of networks: each piece
/// trimmed, empty pieces dropped.
pub open spec fn network_entries(pieces: Seq<Seq<char>>) -> Seq<Seq<char>>
    decreases pieces.len(),
{
    if pieces.len() == 0 {
        Seq::empty()
    } else {
        let rest = network_entries(pieces.drop_last());
        let t = trimmed(pieces.last());
        if t.len() == 0 {
            rest
        } else {
            rest.push(t)
        }
    }
}

/// Entries of a trusted-network list such as `"192.168.1.0/24, 10.0.0.5"`.
pub fn trusted_network_entries(input: &str) -> (r: Vec<String>)
    ensures
        r@.map_values(|e: String| e@) == network_entries(split_on(input@, ',')),
{
    let cs = to_chars(input);
    let pieces = crate::text::split_bounds(&cs, ',');
    let mut out: Vec<String> = Vec::new();
    let mut k: usize = 0;
    while k < pieces.len()
        invariant
            k <= pieces.len(),
            cs@ == input@,
            pieces@.len() == split_on(cs@, ',').len(),
            forall|j: int|
                #![trigger pieces@[j]]
                0 <= j < pieces@.len() ==> pieces@[j].0 <= pieces@[j].1 <= cs@.len()
                    && cs@.subrange(pieces@[j].0 as int, pieces@[j].1 as int) == split_on(
                    cs@,
                    ',',
                )[j],
            out@.map_values(|e: String| e@) == network_entries(
                split_on(cs@, ',').take(k as int),
            ),
        decreases pieces.len() - k,
    {
        let (from, to) = pieces[k];
        let (a, b) = trim_bounds(&cs, from, to);
        let ghost before = out@.map_values(|e: String| e@);
        proof {
            let ps = split_on(cs@, ',');
            assert(ps.take(k + 1).drop_last() =~= ps.take(k as int));
            assert(ps.take(k + 1).last() == ps[k as int]);
        }
        if a < b {
            let e = substring(input, a, b);
            out.push(e);
            assert(out@.map_values(|e: String| e@) =~= before.push(e@));
        }
        k = k + 1;
    }
    assert(split_on(cs@, ',').take(pieces.len() as int) =~= split_on(cs@, ','));
    out
}

/// The network named by one trusted-network entry: the entry parsed as a
/// network, or else the single-address network of `entry_as_address`
/// (the entry parsed as a plain address by the caller, with the standard
/// library's address parser); `None` when neither parses.
pub open spec fn spec_network_from_entry(
    entry: Seq<char>,
    entry_as_address: Option<IpAddress>,
) -> Option<(IpAddress, u8)> {
    match parsed_ip_network(entry) {
        Some(n) => Some(n),
        None => match entry_as_address {
            Some(a) => Some(spec_host_network(a)),
            None => None,
        },
    }
}

pub fn network_from_entry(entry: &str, entry_as_address: Option<IpAddress>) -> (r: Option<
    IpNetwork,
>)
    ensures
        match r {
            Some(n) => spec_network_from_entry(entry@, entry_as_address) == Some(n@),
            None => spec_network_from_entry(entry@, entry_as_address) is None,
        },
{
    match parse_ip_network(entry) {
        Some(n) => Some(n),
        None => match entry_as_address {
            Some(a) => Some(host_network(&a)),
            None => None,
        },
    }
}

/// The networks named by trusted-network entries, in order: each entry
/// read by `spec_network_from_entry` with its parse as a plain address;
/// entries that name none are left out.
pub open spec fn networks_of(entries: Seq<Seq<char>>, addresses: Seq<Option<IpAddress>>) -> Seq<
    (IpAddress, u8),
>
    decreases entries.len(),
{
    if entries.len() == 0 {
        Seq::empty()
    } else {
        let n = entries.len() - 1;
        let rest = networks_of(entries.take(n), addresses.take(n));
        match spec_network_from_entry(entries[n], addresses[n]) {
            Some(net) => rest.push(net),
            None => rest,
        }
    }
}

/// The positions of the entries that name no network.
pub open spec fn rejected_entries(entries: Seq<Seq<char>>, addresses: Seq<Option<IpAddress>>) -> Seq<
    int,
>
    decreases entries.len(),
{
    if entries.len() == 0 {
        Seq::empty()
    } else {
        let n = entries.len() - 1;
        let rest = rejected_entries(entries.take(n), addresses.take(n));
        match spec_network_from_entry(entries[n], addresses[n]) {
            Some(_) => rest,
            None => rest.push(n),
        }
    }
}

/// The trusted networks named by a list's entries (`addresses[i]` is
/// entry `i` parsed as a plain address), and the positions of the
/// entries that name none, for the caller to report.
pub fn trusted_networks_from(entries: &Vec<String>, addresses: &Vec<Option<IpAddress>>) -> (r: (
    Vec<IpNetwork>,
    Vec<usize>,
))
    requires
        entries.len() == addresses.len(),
    ensures
        nets_view(r.0@) == networks_of(strings_view(entries@), addresses@),
        r.1@.map_values(|i: usize| i as int) == rejected_entries(strings_view(entries@), addresses@),
{
    let mut nets: Vec<IpNetwork> = Vec::new();
    let mut rejected: Vec<usize> = Vec::new();
    let mut i: usize = 0;
    while i < entries.len()
        invariant
            entries.len() == addresses.len(),
            i <= entries.len(),
            nets_view(nets@) == networks_of(
                strings_view(entries@).take(i as int),
                addresses@.take(i as int),
            ),
            rejected@.map_values(|k: usize| k as int) == rejected_entries(
                strings_view(entries@).take(i as int),
                addresses@.take(i as int),
            ),
        decreases entries.len() - i,
    {
        let ghost es = strings_view(entries@).take(i as int + 1);
        let ghost ads = addresses@.take(i as int + 1);
        proof {
            assert(es.take(i as int) =~= strings_view(entries@).take(i as int));
            assert(ads.take(i as int) =~= addresses@.take(i as int));
            assert(es[i as int] == entries@[i as int]@);
        }
        match network_from_entry(entries[i].as_str(), addresses[i]) {
            Some(n) => {
                nets.push(n);
                assert(nets_view(nets@) =~= networks_of(es, ads));
                assert(rejected@.map_values(|k: usize| k as int) =~= rejected_entries(es, ads));
            },
            None => {
                rejected.push(i);
                assert(nets_view(nets@) =~= networks_of(es, ads));
                assert(rejected@.map_values(|k: usize| k as int) =~= rejected_entries(es, ads));
            },
        }
        i = i + 1;
    }
    assert(strings_view(entries@).take(entries.len() as int) =~= strings_view(entries@));
    assert(addresses@.take(entries.len() as int) =~= addresses@);
    (nets, rejected)
}

/// Forwarding headers are believed only from a trusted proxy: a request
/// from any other peer is attributed to the peer, whatever its headers say.
pub proof fn law_headers_only_from_proxies(
    peer: IpAddress,
    forwarded_for: Option<IpAddress>,
    real_ip: Option<IpAddress>,
    proxies: Seq<(IpAddress, u8)>,
)
    requires
        !in_any(proxies, peer),
    ensures
        spec_client_ip(Some(peer), forwarded_for, real_ip, proxies) == Some(peer),
{
}

} // verus!
