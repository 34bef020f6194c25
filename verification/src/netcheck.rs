//! What holds the host's ports, read from `/proc/net/tcp` and `/proc/net/tcp6`.
//!
//! A listener on `0.0.0.0:80` (wildcard) blocks every `127.0.0.x:80`, so a port
//! is in one of three states: free, wildcard, or bound to given addresses. Only
//! in the last one does another loopback address keep the port usable.

use vstd::prelude::*;

use crate::text::{
    chars_of, find_class, find_class_from, lines_seq, lines_vec, parse_uint, parse_uint_spec,
    ranges_match, string_of, subvec, vec_eq_str, vv, ws_fields, ws_fields_seq, has_prefix,
    has_suffix, vec_starts_with, vec_ends_with, CharClass,
};

verus! {

broadcast use vstd::string::group_string_axioms;

/// An IPv4 address, by its four octets.
#[derive(Debug, Clone, Copy, PartialEq, Eq, Structural)]
pub struct Ipv4Addr(pub u8, pub u8, pub u8, pub u8);

/// Lexicographic order of the octets (the order of `std::net::Ipv4Addr`).
pub open spec fn ip_lt(x: Ipv4Addr, y: Ipv4Addr) -> bool {
    ||| x.0 < y.0
    ||| (x.0 == y.0 && x.1 < y.1)
    ||| (x.0 == y.0 && x.1 == y.1 && x.2 < y.2)
    ||| (x.0 == y.0 && x.1 == y.1 && x.2 == y.2 && x.3 < y.3)
}

fn ip_less(x: Ipv4Addr, y: Ipv4Addr) -> (r: bool)
    ensures
        r == ip_lt(x, y),
{
    x.0 < y.0 || (x.0 == y.0 && x.1 < y.1) || (x.0 == y.0 && x.1 == y.1 && x.2 < y.2) || (x.0
        == y.0 && x.1 == y.1 && x.2 == y.2 && x.3 < y.3)
}

/// State of a host port (IPv4 and IPv6 together).
#[derive(Debug)]
pub enum PortStatus {
    /// Nobody listens: any loopback address can use the port.
    Free,
    /// A wildcard listener (`0.0.0.0` or `::`) blocks every address.
    Wildcard,
    /// Only these addresses listen (sorted, without repeats).
    Specific(Vec<Ipv4Addr>),
}

pub open spec fn free_for_spec(st: PortStatus, ip: Ipv4Addr) -> bool {
    match st {
        PortStatus::Free => true,
        PortStatus::Wildcard => false,
        PortStatus::Specific(ips) => !ips@.contains(ip),
    }
}

impl PortStatus {
    /// Whether the port is free for this address.
    pub fn free_for(&self, ip: Ipv4Addr) -> (r: bool)
        ensures
            r == free_for_spec(*self, ip),
    {
        match self {
            PortStatus::Free => true,
            PortStatus::Wildcard => false,
            PortStatus::Specific(ips) => {
                let mut i: usize = 0;
                while i < ips.len()
                    invariant
                        i <= ips.len(),
                        free_for_spec(*self, ip) == !ips@.contains(ip),
                        forall|j: int| 0 <= j < i ==> ips@[j] != ip,
                    decreases ips.len() - i,
                {
                    if ips[i] == ip {
                        assert(ips@[i as int] == ip);
                        assert(ips@.contains(ip));
                        return false;
                    }
                    i += 1;
                }
                true
            },
        }
    }

    pub fn is_wildcard(&self) -> (r: bool)
        ensures
            r == (*self is Wildcard),
    {
        match self {
            PortStatus::Wildcard => true,
            _ => false,
        }
    }
}

/// The address that the hex `local_address` of `/proc/net/tcp` encodes: a
/// 32-bit number whose bytes are stored little-endian (`0100007F` is
/// 127.0.0.1).
pub open spec fn parse_v4_seq(hex: Seq<char>) -> Option<Ipv4Addr> {
    match parse_uint_spec(hex, 16, 0xffff_ffff) {
        Some(n) => Some(
            Ipv4Addr(
                (n % 256) as u8,
                ((n / 256) % 256) as u8,
                ((n / 65536) % 256) as u8,
                (n / 16777216) as u8,
            ),
        ),
        None => None,
    }
}

/// Decodes the IPv4 hex `local_address` of `/proc/net/tcp`.
pub fn parse_v4(hex: &str) -> (r: Option<Ipv4Addr>)
    ensures
        r == parse_v4_seq(hex@),
{
    let v = chars_of(hex);
    match parse_uint(&v, 16, 0xffff_ffff) {
        Some(raw) => Some(
            Ipv4Addr(
                (raw % 256) as u8,
                ((raw / 256) % 256) as u8,
                ((raw / 65536) % 256) as u8,
                (raw / 16777216) as u8,
            ),
        ),
        None => None,
    }
}

/// For a line of `/proc/net/tcp`: the hex address of `local_address`
/// (`ADDR:PORT`), when the socket is listening (state `0A`) on `port`.
pub open spec fn listen_addr_seq(line: Seq<char>, port: u16) -> Option<Seq<char>> {
    let cols = ws_fields_seq(line);
    if cols.len() < 4 || cols[3] != "0A"@ {
        None
    } else {
        let c = cols[1];
        let k = find_class_from(c, CharClass::Is(':'), 0);
        if k >= c.len() {
            None
        } else {
            match parse_uint_spec(c.subrange(k + 1, c.len() as int), 16, 0xffff) {
                Some(p) => if p == port {
                    Some(c.subrange(0, k))
                } else {
                    None
                },
                None => None,
            }
        }
    }
}

/// The hex address of a listening socket on `port`, from one line of
/// `/proc/net/tcp{,6}`.
pub fn listen_addr<'a>(line: &'a str, port: u16) -> (r: Option<&'a str>)
    ensures
        match r {
            Some(a) => listen_addr_seq(line@, port) == Some(a@),
            None => listen_addr_seq(line@, port) is None,
        },
{
    let v = chars_of(line);
    let ranges = ws_fields(&v);
    let ghost cols = ws_fields_seq(v@);
    if ranges.len() < 4 {
        return None;
    }
    let (s3, e3) = ranges[3];
    let f3 = subvec(&v, s3, e3);
    if !vec_eq_str(&f3, "0A") {
        return None;
    }
    let (a, b) = ranges[1];
    let f1 = subvec(&v, a, b);
    assert(f1@ == cols[1]);
    let k = find_class(&f1, CharClass::Is(':'), 0);
    if k >= f1.len() {
        return None;
    }
    let port_hex = subvec(&f1, k + 1, f1.len());
    match parse_uint(&port_hex, 16, 0xffff) {
        Some(p) => {
            if p == port as u64 {
                assert(v@.subrange(a as int, (a + k) as int) =~= f1@.subrange(0, k as int));
                Some(line.substring_char(a, a + k))
            } else {
                None
            }
        },
        None => None,
    }
}

/// The lines of a `/proc/net/tcp` file after its header line.
pub open spec fn body_lines(content: Seq<char>) -> Seq<Seq<char>> {
    let ls = lines_seq(content);
    if ls.len() > 0 {
        ls.drop_first()
    } else {
        ls
    }
}

fn body_lines_vec(content: &str) -> (r: Vec<Vec<char>>)
    ensures
        vv(r@) == body_lines(content@),
{
    let v = chars_of(content);
    let mut ls = lines_vec(&v);
    if ls.len() > 0 {
        let ghost before = vv(ls@);
        ls.remove(0);
        assert(vv(ls@) =~= before.drop_first());
    }
    ls
}

/// Over `lines`: whether some listener on `port` is the wildcard `0.0.0.0`,
/// and the other listening addresses, in order.
pub open spec fn scan_v4_seq(lines: Seq<Seq<char>>, port: u16) -> (bool, Seq<Ipv4Addr>)
    decreases lines.len(),
{
    if lines.len() == 0 {
        (false, Seq::<Ipv4Addr>::empty())
    } else {
        let prev = scan_v4_seq(lines.drop_last(), port);
        match listen_addr_seq(lines.last(), port) {
            None => prev,
            Some(a) => match parse_v4_seq(a) {
                None => prev,
                Some(ip) => if ip == Ipv4Addr(0, 0, 0, 0) {
                    (true, prev.1)
                } else {
                    (prev.0, prev.1.push(ip))
                },
            },
        }
    }
}

/// Reads the listeners on `port` from the text of `/proc/net/tcp`: a wildcard
/// one sets `wildcard`, the others are appended to `specifics`.
pub fn scan_v4(content: &str, port: u16, wildcard: &mut bool, specifics: &mut Vec<Ipv4Addr>)
    ensures
        *final(wildcard) == (*old(wildcard) || scan_v4_seq(body_lines(content@), port).0),
        final(specifics)@ == old(specifics)@ + scan_v4_seq(body_lines(content@), port).1,
{
    let lines = body_lines_vec(content);
    let ghost all = vv(lines@);
    let ghost w0 = *wildcard;
    let ghost s0 = specifics@;
    let mut i: usize = 0;
    assert(all.take(0) =~= Seq::<Seq<char>>::empty());
    assert(s0 + Seq::<Ipv4Addr>::empty() =~= s0);
    while i < lines.len()
        invariant
            i <= lines.len(),
            all == vv(lines@),
            *wildcard == (w0 || scan_v4_seq(all.take(i as int), port).0),
            specifics@ == s0 + scan_v4_seq(all.take(i as int), port).1,
        decreases lines.len() - i,
    {
        assert(all.take(i as int + 1).drop_last() =~= all.take(i as int));
        assert(all.take(i as int + 1).last() == lines@[i as int]@);
        let line = string_of(&lines[i]);
        match listen_addr(line.as_str(), port) {
            None => {},
            Some(a) => match parse_v4(a) {
                None => {},
                Some(ip) => {
                    if ip == Ipv4Addr(0, 0, 0, 0) {
                        *wildcard = true;
                    } else {
                        let ghost before = specifics@;
                        specifics.push(ip);
                        assert(specifics@ =~= s0 + scan_v4_seq(all.take(i as int), port).1.push(
                            ip,
                        ));
                    }
                },
            },
        }
        i += 1;
    }
    assert(all.take(lines.len() as int) =~= all);
}

/// Whether some listener on `port` in `lines` is the IPv6 wildcard `::` (all
/// zero digits). Listeners on `::1` do not clash with IPv4 binds.
pub open spec fn scan_v6_seq(lines: Seq<Seq<char>>, port: u16) -> bool {
    exists|i: int|
        0 <= i < lines.len() && match listen_addr_seq(#[trigger] lines[i], port) {
            Some(a) => is_all_zero(a),
            None => false,
        }
}

/// A hex address made of zero digits only (`::` in `/proc/net/tcp6`).
pub open spec fn is_all_zero(a: Seq<char>) -> bool {
    forall|j: int| 0 <= j < a.len() ==> a[j] == '0'
}

fn all_zero(v: &str) -> (r: bool)
    ensures
        r == is_all_zero(v@),
{
    let c = chars_of(v);
    let mut i: usize = 0;
    while i < c.len()
        invariant
            i <= c.len(),
            c@ == v@,
            forall|j: int| 0 <= j < i ==> c@[j] == '0',
        decreases c.len() - i,
    {
        if c[i] != '0' {
            return false;
        }
        i += 1;
    }
    true
}

/// Reads the text of `/proc/net/tcp6`: a wildcard listener on `port` sets
/// `wildcard`.
pub fn scan_v6(content: &str, port: u16, wildcard: &mut bool)
    ensures
        *final(wildcard) == (*old(wildcard) || scan_v6_seq(body_lines(content@), port)),
{
    let lines = body_lines_vec(content);
    let ghost all = vv(lines@);
    let ghost w0 = *wildcard;
    let mut i: usize = 0;
    while i < lines.len()
        invariant
            i <= lines.len(),
            *wildcard == w0,
            all == vv(lines@),
            all == body_lines(content@),
            forall|j: int|
                0 <= j < i ==> match listen_addr_seq(#[trigger] all[j], port) {
                    Some(a) => !is_all_zero(a),
                    None => true,
                },
        decreases lines.len() - i,
    {
        assert(all[i as int] == lines@[i as int]@);
        let line = string_of(&lines[i]);
        match listen_addr(line.as_str(), port) {
            Some(a) => {
                if all_zero(a) {
                    *wildcard = true;
                    return;
                }
                assert(line@ == all[i as int]);
                assert(listen_addr_seq(all[i as int], port) == Some(a@));
            },
            None => {
                assert(line@ == all[i as int]);
            },
        }
        assert(match listen_addr_seq(all[i as int], port) {
            Some(a) => !is_all_zero(a),
            None => true,
        });
        i += 1;
    }
    assert(!scan_v6_seq(all, port)) by {
        if scan_v6_seq(all, port) {
            let k = choose|k: int|
                0 <= k < all.len() && match listen_addr_seq(#[trigger] all[k], port) {
                    Some(a) => is_all_zero(a),
                    None => false,
                };
            assert(match listen_addr_seq(all[k], port) {
                Some(a) => !is_all_zero(a),
                None => true,
            });
        }
    }
}

/// Strictly increasing addresses.
pub open spec fn sorted_strict(v: Seq<Ipv4Addr>) -> bool {
    forall|i: int, j: int| 0 <= i < j < v.len() ==> ip_lt(#[trigger] v[i], #[trigger] v[j])
}

proof fn lemma_ip_lt_trans(x: Ipv4Addr, y: Ipv4Addr, z: Ipv4Addr)
    requires
        ip_lt(x, y),
        ip_lt(y, z),
    ensures
        ip_lt(x, z),
{
}

proof fn lemma_insert_contains(before: Seq<Ipv4Addr>, j: int, ip: Ipv4Addr)
    requires
        0 <= j <= before.len(),
    ensures
        forall|x: Ipv4Addr| #[trigger] before.insert(j, ip).contains(x) <==> (before.contains(x) || x == ip),
{
    let v = before.insert(j, ip);
    assert forall|x: Ipv4Addr| v.contains(x) <==> (before.contains(x) || x == ip) by {
        if v.contains(x) {
            let k = choose|k: int| 0 <= k < v.len() && v[k] == x;
            if k < j {
                assert(before[k] == x);
            } else if k > j {
                assert(before[k - 1] == x);
            }
        }
        if before.contains(x) {
            let k = choose|k: int| 0 <= k < before.len() && before[k] == x;
            if k < j {
                assert(v[k] == x);
            } else {
                assert(v[k + 1] == x);
            }
        }
        if x == ip {
            assert(v[j] == x);
        }
    }
}

/// Inserts `ip` into the sorted `v`, unless it is already there.
fn insert_sorted(v: &mut Vec<Ipv4Addr>, ip: Ipv4Addr)
    requires
        sorted_strict(old(v)@),
    ensures
        sorted_strict(final(v)@),
        forall|x: Ipv4Addr| final(v)@.contains(x) <==> (old(v)@.contains(x) || x == ip),
{
    let ghost before = v@;
    let mut j: usize = 0;
    while j < v.len() && ip_less(v[j], ip)
        invariant
            j <= v.len(),
            v@ == before,
            forall|k: int| 0 <= k < j ==> ip_lt(#[trigger] v@[k], ip),
        decreases v.len() - j,
    {
        j += 1;
    }
    if j < v.len() && v[j] == ip {
        assert(v@[j as int] == ip);
        return;
    }
    v.insert(j, ip);
    assert forall|a: int, b: int| 0 <= a < b < v@.len() implies ip_lt(#[trigger] v@[a], #[trigger] v@[b]) by {
        if b < j {
            assert(v@[a] == before[a] && v@[b] == before[b]);
        } else if b == j {
            assert(v@[a] == before[a]);
        } else if a == j {
            assert(v@[b] == before[b - 1]);
            if b - 1 > j {
                lemma_ip_lt_trans(ip, before[j as int], before[b - 1]);
            }
        } else if a < j {
            assert(v@[a] == before[a] && v@[b] == before[b - 1]);
        } else {
            assert(v@[a] == before[a - 1] && v@[b] == before[b - 1]);
        }
    }
    assert(v@ == before.insert(j as int, ip));
    proof {
        lemma_insert_contains(before, j as int, ip);
    }
}

/// The state of a port from what the scans found: any wildcard listener
/// makes it `Wildcard`; otherwise the listening addresses, sorted and without
/// repeats, or `Free` when there are none.
pub fn port_status(wildcard: bool, specifics: Vec<Ipv4Addr>) -> (r: PortStatus)
    ensures
        wildcard ==> r is Wildcard,
        !wildcard && specifics@.len() == 0 ==> r is Free,
        !wildcard && specifics@.len() > 0 ==> (r matches PortStatus::Specific(ips) && sorted_strict(
            ips@,
        ) && (forall|x: Ipv4Addr| ips@.contains(x) <==> specifics@.contains(x))),
{
    if wildcard {
        return PortStatus::Wildcard;
    }
    if specifics.len() == 0 {
        return PortStatus::Free;
    }
    let mut out: Vec<Ipv4Addr> = Vec::new();
    let mut i: usize = 0;
    while i < specifics.len()
        invariant
            i <= specifics.len(),
            sorted_strict(out@),
            forall|x: Ipv4Addr| out@.contains(x) <==> specifics@.take(i as int).contains(x),
        decreases specifics.len() - i,
    {
        let ghost before = out@;
        insert_sorted(&mut out, specifics[i]);
        assert forall|x: Ipv4Addr| out@.contains(x) <==> specifics@.take(i as int + 1).contains(x) by {
            let t = specifics@.take(i as int + 1);
            if t.contains(x) {
                let k = choose|k: int| 0 <= k < t.len() && t[k] == x;
                if k < i {
                    assert(specifics@.take(i as int)[k] == x);
                }
            }
            if specifics@.take(i as int).contains(x) {
                let k = choose|k: int| 0 <= k < i && specifics@.take(i as int)[k] == x;
                assert(t[k] == x);
            }
            if x == specifics@[i as int] {
                assert(t[i as int] == x);
            }
        }
        i += 1;
    }
    assert(specifics@.take(specifics.len() as int) =~= specifics@);
    PortStatus::Specific(out)
}

/// The first loopback address `127.0.0.x` with `x` from 2 to 254 free on both
/// ports, when neither port has a wildcard listener.
pub open spec fn loopback_candidate(sh: PortStatus, ss: PortStatus, x: u8) -> bool {
    free_for_spec(sh, Ipv4Addr(127, 0, 0, x)) && free_for_spec(ss, Ipv4Addr(127, 0, 0, x))
}

/// First loopback address `127.0.0.x` (`x` ≥ 2) free on BOTH ports; none when
/// either port has a wildcard listener.
pub fn pick_loopback_ip(sh: &PortStatus, ss: &PortStatus) -> (r: Option<Ipv4Addr>)
    ensures
        (sh is Wildcard || ss is Wildcard) ==> r is None,
        !(sh is Wildcard || ss is Wildcard) ==> match r {
            Some(ip) => exists|x: u8|
                2 <= x <= 254 && ip == Ipv4Addr(127, 0, 0, x) && loopback_candidate(*sh, *ss, x)
                    && (forall|y: u8| 2 <= y < x ==> !#[trigger] loopback_candidate(*sh, *ss, y)),
            None => forall|y: u8| 2 <= y <= 254 ==> !#[trigger] loopback_candidate(*sh, *ss, y),
        },
{
    if sh.is_wildcard() || ss.is_wildcard() {
        return None;
    }
    let mut x: u8 = 2;
    while x <= 254
        invariant
            2 <= x <= 255,
            forall|y: u8| 2 <= y < x ==> !#[trigger] loopback_candidate(*sh, *ss, y),
        decreases 255 - x,
    {
        let ip = Ipv4Addr(127, 0, 0, x);
        if sh.free_for(ip) && ss.free_for(ip) {
            assert(loopback_candidate(*sh, *ss, x));
            return Some(ip);
        }
        x += 1;
    }
    None
}

/// Whether `ip` can listen on `port`, by the tables `tcp` (`/proc/net/tcp`) and
/// `tcp6` (`/proc/net/tcp6`): no wildcard listener, and `ip` not listening.
pub open spec fn free_on(tcp: Seq<char>, tcp6: Seq<char>, port: u16, ip: Ipv4Addr) -> bool {
    let v4 = scan_v4_seq(body_lines(tcp), port);
    !(v4.0 || scan_v6_seq(body_lines(tcp6), port)) && !v4.1.contains(ip)
}

/// The state of `port` read from the text of `/proc/net/tcp` and
/// `/proc/net/tcp6`.
pub fn port_status_of(tcp: &str, tcp6: &str, port: u16) -> (r: PortStatus)
    ensures
        (r is Wildcard) == (scan_v4_seq(body_lines(tcp@), port).0 || scan_v6_seq(
            body_lines(tcp6@),
            port,
        )),
        forall|ip: Ipv4Addr| #[trigger] free_for_spec(r, ip) == free_on(tcp@, tcp6@, port, ip),
{
    let mut wildcard = false;
    let mut specifics: Vec<Ipv4Addr> = Vec::new();
    scan_v4(tcp, port, &mut wildcard, &mut specifics);
    scan_v6(tcp6, port, &mut wildcard);
    assert(specifics@ =~= scan_v4_seq(body_lines(tcp@), port).1);
    let ghost sp = specifics@;
    let r = port_status(wildcard, specifics);
    proof {
        if !wildcard && sp.len() == 0 {
            assert forall|ip: Ipv4Addr| !sp.contains(ip) by {}
        }
    }
    r
}

/// The loopback address the panel publishes on by default.
pub open spec fn lo() -> Ipv4Addr {
    Ipv4Addr(127, 0, 0, 1)
}

/// The first port from `p` up to 65000 free on `127.0.0.1`.
pub open spec fn first_free_port(tcp: Seq<char>, tcp6: Seq<char>, p: int) -> Option<u16>
    decreases 65001 - p,
{
    if p < 0 || p > 65000 {
        None
    } else if free_on(tcp, tcp6, p as u16, lo()) {
        Some(p as u16)
    } else {
        first_free_port(tcp, tcp6, p + 1)
    }
}

pub proof fn lemma_first_free_port_bounds(tcp: Seq<char>, tcp6: Seq<char>, p: int)
    ensures
        first_free_port(tcp, tcp6, p) matches Some(q) ==> p <= q <= 65000,
    decreases 65001 - p,
{
    if 0 <= p <= 65000 && !free_on(tcp, tcp6, p as u16, lo()) {
        lemma_first_free_port_bounds(tcp, tcp6, p + 1);
    }
}

/// The first port at or after `start` (up to 65000) free on `127.0.0.1`: the
/// fallback when the usual ports are taken.
pub fn pick_alt_port(tcp: &str, tcp6: &str, start: u16) -> (r: Option<u16>)
    ensures
        r == first_free_port(tcp@, tcp6@, start as int),
{
    let lo_ip = Ipv4Addr(127, 0, 0, 1);
    let mut p: u32 = start as u32;
    while p <= 65000
        invariant
            p <= 65536,
            lo_ip == lo(),
            first_free_port(tcp@, tcp6@, start as int) == first_free_port(tcp@, tcp6@, p as int),
        decreases 65001 - p,
    {
        let q = p as u16;
        let st = port_status_of(tcp, tcp6, q);
        let free = st.free_for(lo_ip);
        assert(free == free_on(tcp@, tcp6@, q, lo()));
        assert(q as int == p as int);
        if free {
            return Some(q);
        }
        p += 1;
    }
    None
}

/// The inode (tenth whitespace field) of each listening socket on `port` in
/// `lines`, in order.
pub open spec fn listen_inodes_seq(lines: Seq<Seq<char>>, port: u16) -> Seq<Seq<char>>
    decreases lines.len(),
{
    if lines.len() == 0 {
        Seq::<Seq<char>>::empty()
    } else {
        let prev = listen_inodes_seq(lines.drop_last(), port);
        let l = lines.last();
        if listen_addr_seq(l, port) is None || ws_fields_seq(l).len() <= 9 {
            prev
        } else {
            prev.push(ws_fields_seq(l)[9])
        }
    }
}

/// Inodes (column 9) of the sockets listening on `port`, from the text of
/// `/proc/net/tcp` or `/proc/net/tcp6`.
pub fn listen_inodes(content: &str, port: u16) -> (r: Vec<String>)
    ensures
        r@.map_values(|s: String| s@) == listen_inodes_seq(body_lines(content@), port),
{
    let lines = body_lines_vec(content);
    let ghost all = vv(lines@);
    let mut out: Vec<String> = Vec::new();
    let mut i: usize = 0;
    assert(all.take(0) =~= Seq::<Seq<char>>::empty());
    assert(out@.map_values(|s: String| s@) =~= Seq::<Seq<char>>::empty());
    while i < lines.len()
        invariant
            i <= lines.len(),
            all == vv(lines@),
            out@.map_values(|s: String| s@) == listen_inodes_seq(all.take(i as int), port),
        decreases lines.len() - i,
    {
        assert(all.take(i as int + 1).drop_last() =~= all.take(i as int));
        assert(all.take(i as int + 1).last() == lines@[i as int]@);
        let line = string_of(&lines[i]);
        if listen_addr(line.as_str(), port).is_some() {
            let ranges = ws_fields(&lines[i]);
            if ranges.len() > 9 {
                let (a, b) = ranges[9];
                let f = subvec(&lines[i], a, b);
                let ghost before = out@.map_values(|s: String| s@);
                out.push(string_of(&f));
                assert(out@.map_values(|s: String| s@) =~= before.push(f@));
            }
        }
        i += 1;
    }
    assert(all.take(lines.len() as int) =~= all);
    out
}

/// The inode a `/proc/<pid>/fd` link names, for a socket link `socket:[N]`.
pub open spec fn socket_inode_seq(link: Seq<char>) -> Option<Seq<char>> {
    if has_prefix(link, "socket:["@) && has_suffix(link, "]"@) && link.len() >= 9 {
        Some(link.subrange(8, link.len() - 1))
    } else {
        None
    }
}

/// The inode of a socket link (`socket:[12345]` gives `12345`).
pub fn socket_inode(link: &str) -> (r: Option<String>)
    ensures
        match r {
            Some(s) => socket_inode_seq(link@) == Some(s@),
            None => socket_inode_seq(link@) is None,
        },
{
    let v = chars_of(link);
    let pre = chars_of("socket:[");
    let suf = chars_of("]");
    proof {
        reveal_strlit("socket:[");
        reveal_strlit("]");
    }
    if v.len() >= 9 && vec_starts_with(&v, &pre) && vec_ends_with(&v, &suf) {
        Some(string_of(&subvec(&v, 8, v.len() - 1)))
    } else {
        None
    }
}

/// A listener on the port at the all-zero IPv6 address (`[::]`) in
/// `/proc/net/tcp6` holds the port for every IPv4 address: the port's state
/// is the wildcard, and the port is free on no address.
pub proof fn law_v6_any_address_listener_holds_every_address(
    tcp: Seq<char>,
    tcp6: Seq<char>,
    port: u16,
    i: int,
    ip: Ipv4Addr,
)
    requires
        0 <= i < body_lines(tcp6).len(),
        listen_addr_seq(body_lines(tcp6)[i], port) matches Some(a) && forall|j: int| 0 <= j < a.len() ==> a[j] == '0',
    ensures
        scan_v6_seq(body_lines(tcp6), port),
        !free_on(tcp, tcp6, port, ip),
{
    let a = listen_addr_seq(body_lines(tcp6)[i], port)->0;
    assert(is_all_zero(a));
}

/// The fallback port is the first port from `start` (up to 65000) that no
/// listener holds on `127.0.0.1`: every port before it is held there, and when
/// there is none, every port from `start` up to 65000 is held.
pub proof fn law_alt_port_is_first_free_on_localhost(tcp: Seq<char>, tcp6: Seq<char>, start: int)
    requires
        0 <= start,
    ensures
        match first_free_port(tcp, tcp6, start) {
            Some(p) => {
                &&& start <= p <= 65000
                &&& free_on(tcp, tcp6, p, Ipv4Addr(127, 0, 0, 1))
                &&& forall|q: int| start <= q < p ==> !#[trigger] free_on(tcp, tcp6, q as u16, Ipv4Addr(127, 0, 0, 1))
            },
            None => forall|q: int| start <= q <= 65000 ==> !#[trigger] free_on(tcp, tcp6, q as u16, Ipv4Addr(127, 0, 0, 1)),
        },
    decreases 65001 - start,
{
    assert(lo() == Ipv4Addr(127, 0, 0, 1));
    if start <= 65000 && !free_on(tcp, tcp6, start as u16, lo()) {
        law_alt_port_is_first_free_on_localhost(tcp, tcp6, start + 1);
    }
}

proof fn lemma_scan_v4_sees_line(lines: Seq<Seq<char>>, port: u16, i: int, ip: Ipv4Addr)
    requires
        0 <= i < lines.len(),
        listen_addr_seq(lines[i], port) matches Some(a) && parse_v4_seq(a) == Some(ip),
    ensures
        ip == Ipv4Addr(0, 0, 0, 0) ==> scan_v4_seq(lines, port).0,
        ip != Ipv4Addr(0, 0, 0, 0) ==> scan_v4_seq(lines, port).1.contains(ip),
    decreases lines.len(),
{
    let prev = scan_v4_seq(lines.drop_last(), port);
    if i == lines.len() - 1 {
        if ip != Ipv4Addr(0, 0, 0, 0) {
            assert(scan_v4_seq(lines, port).1 == prev.1.push(ip));
            assert(prev.1.push(ip)[prev.1.len() as int] == ip);
        }
    } else {
        assert(lines.drop_last()[i] == lines[i]);
        lemma_scan_v4_sees_line(lines.drop_last(), port, i, ip);
        if ip != Ipv4Addr(0, 0, 0, 0) {
            let k = choose|k: int| 0 <= k < prev.1.len() && prev.1[k] == ip;
            let cur = scan_v4_seq(lines, port).1;
            assert(cur == prev.1 || cur == prev.1.push(cur.last()));
            assert(cur[k] == ip);
        }
    }
}

/// A listener on the port in `/proc/net/tcp` holds the port for its own
/// address; a listener on `0.0.0.0` holds it for every address.
pub proof fn law_v4_listener_holds_its_address(
    tcp: Seq<char>,
    tcp6: Seq<char>,
    port: u16,
    i: int,
    ip: Ipv4Addr,
    other: Ipv4Addr,
)
    requires
        0 <= i < body_lines(tcp).len(),
        listen_addr_seq(body_lines(tcp)[i], port) matches Some(a) && parse_v4_seq(a) == Some(ip),
    ensures
        !free_on(tcp, tcp6, port, ip),
        ip == Ipv4Addr(0, 0, 0, 0) ==> !free_on(tcp, tcp6, port, other),
{
    lemma_scan_v4_sees_line(body_lines(tcp), port, i, ip);
}

} // verus!
