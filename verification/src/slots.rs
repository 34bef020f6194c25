//! Free slug, folder and domain for a new derived project (clone or worktree).

use vstd::prelude::*;

use crate::config::SiteConfig;
use crate::ids::{is_lower_hex, new_short_id};
use crate::paths::{join, join_seq};
use crate::text::{chars_of, dec_seq, list_contains, push_dec, vec_eq_str};

verus! {

broadcast use vstd::string::group_string_axioms;

/// The `n`-th candidate slug: `base`, then `base-1`, `base-2`, ...
pub open spec fn slot_slug(base: Seq<char>, n: nat) -> Seq<char> {
    if n == 0 {
        base
    } else {
        base + "-"@ + dec_seq(n)
    }
}

/// A slug is taken when a folder of that name exists under the projects root
/// (`taken`) or a project already uses the domain `{slug}.test`.
pub open spec fn slot_taken(slug: Seq<char>, taken: Seq<String>, existing: Seq<SiteConfig>) -> bool {
    ||| exists|i: int| 0 <= i < taken.len() && (#[trigger] taken[i])@ == slug
    ||| exists|i: int| 0 <= i < existing.len() && (#[trigger] existing[i]).domain@ == slug + ".test"@
}

/// `n` (at most 99) is the first candidate that is not taken.
pub open spec fn first_free(base: Seq<char>, taken: Seq<String>, existing: Seq<SiteConfig>, n: nat) -> bool {
    &&& n <= 99
    &&& !slot_taken(slot_slug(base, n), taken, existing)
    &&& forall|m: nat| m < n ==> slot_taken(#[trigger] slot_slug(base, m), taken, existing)
}

/// What `find_free_slot` returns: the first free candidate among `base`,
/// `base-1`, ..., `base-99`; if all are taken, `base-` and eight random hex
/// digits. The folder is `root/slug` and the domain `slug.test`.
pub open spec fn is_free_slot(
    root: Seq<char>,
    base: Seq<char>,
    taken: Seq<String>,
    existing: Seq<SiteConfig>,
    r: (Seq<char>, Seq<char>, Seq<char>),
) -> bool {
    &&& r.1 == join_seq(root, r.0)
    &&& r.2 == r.0 + ".test"@
    &&& {
        ||| exists|n: nat| first_free(base, taken, existing, n) && r.0 == slot_slug(base, n)
        ||| {
            &&& forall|n: nat| n <= 99 ==> slot_taken(#[trigger] slot_slug(base, n), taken, existing)
            &&& exists|short: Seq<char>|
                #![trigger short.len()]
                short.len() == 8 && (forall|i: int| 0 <= i < 8 ==> is_lower_hex(#[trigger] short[i]))
                    && r.0 == base + "-"@ + short
        }
    }
}

fn candidate(base: &str, n: u64) -> (r: String)
    ensures
        r@ == slot_slug(base@, n as nat),
{
    if n == 0 {
        String::from_str(base)
    } else {
        let mut s = String::from_str(base).concat("-");
        push_dec(&mut s, n);
        s
    }
}

fn is_taken(slug: &String, taken: &Vec<String>, existing: &[SiteConfig]) -> (r: bool)
    ensures
        r == slot_taken(slug@, taken@, existing@),
{
    let sv = chars_of(slug.as_str());
    if list_contains(taken, &sv) {
        return true;
    }
    let domain = String::from_str(slug.as_str()).concat(".test");
    let dv = chars_of(domain.as_str());
    let mut i: usize = 0;
    while i < existing.len()
        invariant
            i <= existing.len(),
            dv@ == slug@ + ".test"@,
            forall|j: int| 0 <= j < i ==> (#[trigger] existing@[j]).domain@ != slug@ + ".test"@,
        decreases existing.len() - i,
    {
        if vec_eq_str(&dv, existing[i].domain.as_str()) {
            return true;
        }
        i += 1;
    }
    false
}

/// Some candidate among `base`, `base-1`, ..., `base-99` is free.
pub open spec fn some_candidate_free(base: Seq<char>, taken: Seq<String>, existing: Seq<SiteConfig>) -> bool {
    exists|n: nat| n <= 99 && !slot_taken(#[trigger] slot_slug(base, n), taken, existing)
}

/// (slug, folder, domain) free for a new project derived from `base`, avoiding
/// folders present under `root` (`taken`) and domains of `existing` projects.
/// `None` only when every numbered candidate is taken and the system's random
/// source fails.
pub fn find_free_slot(root: &str, base: &str, existing: &[SiteConfig], taken: &Vec<String>) -> (r: Option<(
    String,
    String,
    String,
)>)
    ensures
        r matches Some(t) ==> is_free_slot(root@, base@, taken@, existing@, (t.0@, t.1@, t.2@)),
        some_candidate_free(base@, taken@, existing@) ==> r is Some,
{
    let mut n: u64 = 0;
    while n <= 99
        invariant
            n <= 100,
            forall|m: nat| m < n ==> slot_taken(#[trigger] slot_slug(base@, m), taken@, existing@),
        decreases 100 - n,
    {
        let slug = candidate(base, n);
        if !is_taken(&slug, taken, existing) {
            let path = join(root, slug.as_str());
            let domain = String::from_str(slug.as_str()).concat(".test");
            assert(first_free(base@, taken@, existing@, n as nat));
            return Some((slug, path, domain));
        }
        n += 1;
    }
    let short = match new_short_id() {
        Some(s) => s,
        None => {
            return None;
        },
    };
    let slug = String::from_str(base).concat("-").concat(short.as_str());
    let domain = String::from_str(slug.as_str()).concat(".test");
    let path = join(root, slug.as_str());
    assert(short@.len() == 8);
    Some((slug, path, domain))
}

} // verus!
