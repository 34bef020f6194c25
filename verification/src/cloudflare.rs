//! Cloudflare quick tunnels: the public URL that `cloudflared` prints in its
//! log when it starts, inside a box drawn with `|` and spaces.

use vstd::prelude::*;

use crate::text::{
    chars_of, has_prefix, has_suffix, split_seq, split_vec, string_of, trim, trim_vec,
    vec_ends_with, vec_starts_with, vv, CharClass,
};

verus! {

broadcast use vstd::string::group_string_axioms;

/// A tunnel URL: `https://...trycloudflare.com`.
pub open spec fn is_tunnel_url(t: Seq<char>) -> bool {
    has_prefix(t, "https://"@) && has_suffix(t, ".trycloudflare.com"@)
}

/// The first of `tokens` that, trimmed, is a tunnel URL.
pub open spec fn first_tunnel_url(tokens: Seq<Seq<char>>) -> Option<Seq<char>>
    decreases tokens.len(),
{
    if tokens.len() == 0 {
        None
    } else {
        let t = trim(tokens[0], CharClass::Whitespace);
        if is_tunnel_url(t) {
            Some(t)
        } else {
            first_tunnel_url(tokens.drop_first())
        }
    }
}

/// The tunnel URL of a log: the first field, between whitespace and `|`, that
/// starts with `https://` and ends with `.trycloudflare.com`.
pub open spec fn extract_url_seq(log: Seq<char>) -> Option<Seq<char>> {
    first_tunnel_url(split_seq(log, CharClass::WhitespaceOrBar))
}

/// Finds the public URL (`https://something.trycloudflare.com`) in the
/// container's log.
pub fn extract_url(log: &str) -> (r: Option<String>)
    ensures
        match r {
            Some(u) => extract_url_seq(log@) == Some(u@),
            None => extract_url_seq(log@) is None,
        },
{
    let v = chars_of(log);
    let tokens = split_vec(&v, CharClass::WhitespaceOrBar);
    let prefix = chars_of("https://");
    let suffix = chars_of(".trycloudflare.com");
    let ghost all = vv(tokens@);
    assert(all.skip(0) =~= all);
    let mut i: usize = 0;
    while i < tokens.len()
        invariant
            i <= tokens.len(),
            all == vv(tokens@),
            all == split_seq(log@, CharClass::WhitespaceOrBar),
            prefix@ == "https://"@,
            suffix@ == ".trycloudflare.com"@,
            first_tunnel_url(all) == first_tunnel_url(all.skip(i as int)),
        decreases tokens.len() - i,
    {
        let ghost here = all.skip(i as int);
        assert(here[0] == tokens@[i as int]@);
        assert(here.drop_first() =~= all.skip(i as int + 1));
        let t = trim_vec(&tokens[i], CharClass::Whitespace);
        if vec_starts_with(&t, &prefix) && vec_ends_with(&t, &suffix) {
            return Some(string_of(&t));
        }
        i += 1;
    }
    assert(all.skip(tokens.len() as int) =~= Seq::<Seq<char>>::empty());
    None
}

} // verus!
