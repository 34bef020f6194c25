//! Name resolution of the `.test` domains and the host entries of tunnels.
//!
//! One dnsmasq wildcard rule (`address=/test/IP`) resolves every `*.test`
//! domain, present and future, so nothing is edited per project. Installing it
//! needs root (a `pkexec` shell script); here the rule and the scripts are
//! built, and the answers of a name lookup are judged.
//!
//! When the system resolver cannot resolve a fresh `*.trycloudflare.com`
//! name, the tunnel's address is pinned in `/etc/hosts` by one line per
//! project, tagged with a marker so that it can be replaced or removed alone.

use vstd::prelude::*;

use crate::netcheck::Ipv4Addr;
use crate::paths::{join, join_seq};
use crate::text::{chars_of, parse_dec, parse_uint_spec, split_seq, split_vec, CharClass};

verus! {

broadcast use vstd::string::group_string_axioms;

/// Address the `*.test` domains resolve to by default.
pub const DEFAULT_IP: &'static str = "127.0.0.1";

/// The dnsmasq wildcard rule sending every `*.test` name to `ip`.
pub fn wildcard_rule(ip: &str) -> (r: String)
    ensures
        r@ == "address=/test/"@ + ip@ + "\n"@,
{
    String::from_str("address=/test/").concat(ip).concat("\n")
}

/// Where the panel leaves the rule ready to install: `dnsmasq-panel.conf` in
/// its configuration folder.
pub fn snippet_path(config_dir: &str) -> (r: String)
    ensures
        r@ == join_seq(config_dir@, "dnsmasq-panel.conf"@),
{
    join(config_dir, "dnsmasq-panel.conf")
}

/// The NetworkManager dnsmasq file the rule is installed as (needs root).
pub fn install_target() -> (r: &'static str)
    ensures
        r@ == "/etc/NetworkManager/dnsmasq.d/wordpress-panel.conf"@,
{
    "/etc/NetworkManager/dnsmasq.d/wordpress-panel.conf"
}

/// The shell script, run through `pkexec sh -c`, that installs the rule for
/// `ip` and reloads NetworkManager. Running it again rewrites the same file.
pub fn install_wildcard_script(ip: &str) -> (r: String)
    ensures
        r@ == "install -d /etc/NetworkManager/dnsmasq.d && printf '%s' '"@ + ("address=/test/"@ + ip@
            + "\n"@) + "' > '"@ + "/etc/NetworkManager/dnsmasq.d/wordpress-panel.conf"@
            + "' && (systemctl reload NetworkManager || systemctl restart NetworkManager)"@,
{
    let rule = wildcard_rule(ip);
    String::from_str("install -d /etc/NetworkManager/dnsmasq.d && printf '%s' '").concat(
        rule.as_str(),
    ).concat("' > '").concat(install_target()).concat(
        "' && (systemctl reload NetworkManager || systemctl restart NetworkManager)",
    )
}

/// One address a name lookup answered.
#[derive(Debug, Clone, Copy)]
pub enum ResolvedAddr {
    V4(Ipv4Addr),
    /// The eight 16-bit segments.
    V6([u16; 8]),
}

/// `IpAddr::is_loopback`: `127.0.0.0/8`, or `::1`.
pub open spec fn is_loopback(a: ResolvedAddr) -> bool {
    match a {
        ResolvedAddr::V4(ip) => ip.0 == 127,
        ResolvedAddr::V6(seg) => seg@ == seq![0u16, 0, 0, 0, 0, 0, 0, 1],
    }
}

fn loopback(a: ResolvedAddr) -> (r: bool)
    ensures
        r == is_loopback(a),
{
    match a {
        ResolvedAddr::V4(ip) => ip.0 == 127,
        ResolvedAddr::V6(seg) => {
            let r = seg[0] == 0 && seg[1] == 0 && seg[2] == 0 && seg[3] == 0 && seg[4] == 0
                && seg[5] == 0 && seg[6] == 0 && seg[7] == 1;
            proof {
                if r {
                    assert(seg@ =~= seq![0u16, 0, 0, 0, 0, 0, 0, 1]);
                }
            }
            r
        },
    }
}

/// Whether the `.test` names already resolve to loopback, from the addresses
/// a lookup of `panel-probe.test` gave (none when it failed).
pub fn wildcard_active(addrs: &Vec<ResolvedAddr>) -> (r: bool)
    ensures
        r == exists|i: int| 0 <= i < addrs@.len() && is_loopback(#[trigger] addrs@[i]),
{
    let mut i: usize = 0;
    while i < addrs.len()
        invariant
            i <= addrs.len(),
            forall|j: int| 0 <= j < i ==> !is_loopback(#[trigger] addrs@[j]),
        decreases addrs.len() - i,
    {
        if loopback(addrs[i]) {
            return true;
        }
        i += 1;
    }
    false
}

/// Whether the `.test` names resolve exactly to `ip`, from the text form of
/// each address a lookup of `panel-probe.test` gave (none when it failed).
pub fn resolves_to(rendered: &Vec<String>, ip: &str) -> (r: bool)
    ensures
        r == exists|i: int| 0 <= i < rendered@.len() && (#[trigger] rendered@[i])@ == ip@,
{
    crate::text::list_contains(rendered, &chars_of(ip))
}

// ---------------------------------------------------------------------------
// /etc/hosts entries of tunnels
// ---------------------------------------------------------------------------

/// The tag that marks a project's line in `/etc/hosts`.
pub fn tunnel_host_marker(site_id: &str) -> (r: String)
    ensures
        r@ == "# panel-tunnel:"@ + site_id@,
{
    String::from_str("# panel-tunnel:").concat(site_id)
}

pub open spec fn hostname_char(c: char) -> bool {
    ('a' <= c && c <= 'z') || ('A' <= c && c <= 'Z') || ('0' <= c && c <= '9') || c == '-' || c
        == '.'
}

/// A host name safe to put in a shell script: 1 to 255 characters, each an
/// ASCII letter or digit, `-` or `.`.
pub open spec fn safe_hostname(h: Seq<char>) -> bool {
    &&& 0 < h.len() < 256
    &&& forall|i: int| 0 <= i < h.len() ==> hostname_char(#[trigger] h[i])
}

pub fn is_safe_hostname(h: &str) -> (r: bool)
    ensures
        r == safe_hostname(h@),
{
    let v = chars_of(h);
    if v.len() == 0 || v.len() >= 256 {
        return false;
    }
    let mut i: usize = 0;
    while i < v.len()
        invariant
            i <= v.len(),
            v@ == h@,
            forall|j: int| 0 <= j < i ==> hostname_char(#[trigger] v@[j]),
        decreases v.len() - i,
    {
        let c = v[i];
        if !(('a' <= c && c <= 'z') || ('A' <= c && c <= 'Z') || ('0' <= c && c <= '9') || c == '-'
            || c == '.') {
            return false;
        }
        i += 1;
    }
    true
}

/// One decimal octet of a dotted address as `Ipv4Addr::from_str` reads it: one
/// to three ASCII digits, no leading zero except `0` itself, at most 255.
pub open spec fn octet_seq(p: Seq<char>) -> Option<u8> {
    if 1 <= p.len() <= 3 && (forall|i: int| 0 <= i < p.len() ==> '0' <= #[trigger] p[i] <= '9')
        && !(p.len() > 1 && p[0] == '0') {
        match parse_uint_spec(p, 10, 255) {
            Some(v) => Some(v as u8),
            None => None,
        }
    } else {
        None
    }
}

/// `s.parse::<std::net::Ipv4Addr>()`: four octets separated by dots.
pub open spec fn parse_ipv4_seq(s: Seq<char>) -> Option<Ipv4Addr> {
    let parts = split_seq(s, CharClass::Is('.'));
    if parts.len() == 4 && octet_seq(parts[0]) is Some && octet_seq(parts[1]) is Some && octet_seq(
        parts[2],
    ) is Some && octet_seq(parts[3]) is Some {
        Some(
            Ipv4Addr(
                octet_seq(parts[0]).unwrap(),
                octet_seq(parts[1]).unwrap(),
                octet_seq(parts[2]).unwrap(),
                octet_seq(parts[3]).unwrap(),
            ),
        )
    } else {
        None
    }
}

fn octet(p: &Vec<char>) -> (r: Option<u8>)
    ensures
        r == octet_seq(p@),
{
    if p.len() < 1 || p.len() > 3 || (p.len() > 1 && p[0] == '0') {
        return None;
    }
    let mut i: usize = 0;
    while i < p.len()
        invariant
            i <= p.len(),
            forall|j: int| 0 <= j < i ==> '0' <= #[trigger] p@[j] <= '9',
        decreases p.len() - i,
    {
        if !('0' <= p[i] && p[i] <= '9') {
            return None;
        }
        i += 1;
    }
    match parse_dec(p, 255) {
        Some(v) => Some(v as u8),
        None => None,
    }
}

/// Reads a dotted IPv4 address.
pub fn parse_ipv4(s: &str) -> (r: Option<Ipv4Addr>)
    ensures
        r == parse_ipv4_seq(s@),
{
    let parts = split_vec(&chars_of(s), CharClass::Is('.'));
    if parts.len() != 4 {
        return None;
    }
    assert(parts@[0]@ == split_seq(s@, CharClass::Is('.'))[0]);
    assert(parts@[1]@ == split_seq(s@, CharClass::Is('.'))[1]);
    assert(parts@[2]@ == split_seq(s@, CharClass::Is('.'))[2]);
    assert(parts@[3]@ == split_seq(s@, CharClass::Is('.'))[3]);
    let a = octet(&parts[0]);
    let b = octet(&parts[1]);
    let c = octet(&parts[2]);
    let d = octet(&parts[3]);
    match (a, b, c, d) {
        (Some(a), Some(b), Some(c), Some(d)) => Some(Ipv4Addr(a, b, c, d)),
        _ => None,
    }
}

/// Why a host entry was refused.
#[derive(Debug, PartialEq, Eq)]
pub enum TunnelHostError {
    /// The host name has characters that could break the script.
    UnsafeHostname(String),
    /// The address is not a dotted IPv4 address.
    InvalidIp(String),
}

impl TunnelHostError {
    /// The message shown to the user.
    pub fn message(&self) -> (r: String)
        ensures
            r@ == match *self {
                TunnelHostError::UnsafeHostname(h) => "hostname con caracteres inesperados: "@ + h@,
                TunnelHostError::InvalidIp(ip) => "IP inválida: "@ + ip@,
            },
    {
        match self {
            TunnelHostError::UnsafeHostname(h) => String::from_str(
                "hostname con caracteres inesperados: ",
            ).concat(h.as_str()),
            TunnelHostError::InvalidIp(ip) => String::from_str("IP inválida: ").concat(ip.as_str()),
        }
    }
}

/// The script that drops every `/etc/hosts` line holding `marker` and, when
/// `new_line` is given, appends it; the file is replaced whole at the end.
pub open spec fn hosts_edit_seq(marker: Seq<char>, new_line: Option<Seq<char>>) -> Seq<char> {
    let append = match new_line {
        Some(l) => "echo '"@ + l + "' >> /etc/hosts.tmp && "@,
        None => Seq::<char>::empty(),
    };
    "grep -vF '"@ + marker + "' /etc/hosts > /etc/hosts.tmp || true; "@ + append
        + "install -m 644 /etc/hosts.tmp /etc/hosts && rm -f /etc/hosts.tmp"@
}

fn hosts_edit_script(marker: &str, new_line: Option<&str>) -> (r: String)
    ensures
        r@ == hosts_edit_seq(
            marker@,
            match new_line {
                Some(l) => Some(l@),
                None => None,
            },
        ),
{
    let start = String::from_str("grep -vF '").concat(marker).concat(
        "' /etc/hosts > /etc/hosts.tmp || true; ",
    );
    let with_append = match new_line {
        Some(l) => start.concat("echo '").concat(l).concat("' >> /etc/hosts.tmp && "),
        None => start,
    };
    let r = with_append.concat("install -m 644 /etc/hosts.tmp /etc/hosts && rm -f /etc/hosts.tmp");
    proof {
        match new_line {
            Some(l) => {
                assert(r@ =~= hosts_edit_seq(marker@, Some(l@)));
            },
            None => {
                assert(r@ =~= hosts_edit_seq(marker@, None));
            },
        }
    }
    r
}

/// The script (run through `pkexec sh -c`) that pins `hostname` to `ip` in
/// `/etc/hosts` for the project `site_id`, replacing its previous line. Both
/// are checked first so that nothing unexpected reaches the shell.
pub fn set_tunnel_host(site_id: &str, hostname: &str, ip: &str) -> (r: Result<
    String,
    TunnelHostError,
>)
    ensures
        !safe_hostname(hostname@) ==> (r matches Err(TunnelHostError::UnsafeHostname(h)) && h@
            == hostname@),
        safe_hostname(hostname@) && parse_ipv4_seq(ip@) is None ==> (r matches Err(
            TunnelHostError::InvalidIp(x),
        ) && x@ == ip@),
        safe_hostname(hostname@) && parse_ipv4_seq(ip@) is Some ==> (r matches Ok(script)
            && script@ == hosts_edit_seq(
            "# panel-tunnel:"@ + site_id@,
            Some(ip@ + " "@ + hostname@ + " "@ + ("# panel-tunnel:"@ + site_id@)),
        )),
{
    if !is_safe_hostname(hostname) {
        return Err(TunnelHostError::UnsafeHostname(String::from_str(hostname)));
    }
    if parse_ipv4(ip).is_none() {
        return Err(TunnelHostError::InvalidIp(String::from_str(ip)));
    }
    let marker = tunnel_host_marker(site_id);
    let line = String::from_str(ip).concat(" ").concat(hostname).concat(" ").concat(
        marker.as_str(),
    );
    Ok(hosts_edit_script(marker.as_str(), Some(line.as_str())))
}

/// The script that removes the `/etc/hosts` line of the project `site_id`
/// (when the tunnel stops or expires; harmless when there is none).
pub fn clear_tunnel_host(site_id: &str) -> (r: String)
    ensures
        r@ == hosts_edit_seq("# panel-tunnel:"@ + site_id@, None),
{
    let marker = tunnel_host_marker(site_id);
    hosts_edit_script(marker.as_str(), None)
}

} // verus!
