//! The list of project groups (`groups.json`): the known groups in display
//! order, so that a group can exist without projects, keep its place and be
//! renamed or deleted. Membership itself stays in each project's `group`.
//!
//! The operations here work on the list as read; the caller writes it back
//! when an operation reports a change.

use vstd::prelude::*;

use crate::config::SiteConfig;
use crate::text::{chars_of, list_contains, string_of, trim, trim_vec, CharClass};

verus! {

broadcast use vstd::string::group_string_axioms;

/// The names in a stored list.
pub open spec fn names(v: Seq<String>) -> Seq<Seq<char>> {
    v.map_values(|s: String| s@)
}

/// No name occurs twice.
pub open spec fn distinct(s: Seq<Seq<char>>) -> bool {
    forall|i: int, j: int| 0 <= i < j < s.len() ==> #[trigger] s[i] != #[trigger] s[j]
}

/// A group name as stored: surrounding whitespace removed.
pub open spec fn clean_name(name: Seq<char>) -> Seq<char> {
    trim(name, CharClass::Whitespace)
}

/// The list after `create(name)`: the trimmed name appended, unless it is
/// empty or already there.
pub open spec fn create_spec(order: Seq<Seq<char>>, name: Seq<char>) -> Seq<Seq<char>> {
    let n = clean_name(name);
    if n.len() == 0 || order.contains(n) {
        order
    } else {
        order.push(n)
    }
}

/// `order` without any occurrence of `name`.
pub open spec fn remove_all(order: Seq<Seq<char>>, name: Seq<char>) -> Seq<Seq<char>>
    decreases order.len(),
{
    if order.len() == 0 {
        order
    } else {
        let rest = remove_all(order.drop_last(), name);
        if order.last() == name {
            rest
        } else {
            rest.push(order.last())
        }
    }
}

/// The first occurrence of each name, in order.
pub open spec fn dedup(order: Seq<Seq<char>>) -> Seq<Seq<char>>
    decreases order.len(),
{
    if order.len() == 0 {
        order
    } else {
        let rest = dedup(order.drop_last());
        if order.drop_last().contains(order.last()) {
            rest
        } else {
            rest.push(order.last())
        }
    }
}

/// Every `old` replaced by `new`.
pub open spec fn replace_all(order: Seq<Seq<char>>, old: Seq<char>, new: Seq<char>) -> Seq<
    Seq<char>,
> {
    order.map_values(|g: Seq<char>| if g == old { new } else { g })
}

/// The list after `rename(old, new)`: with `new` trimmed, nothing changes when
/// it is empty, equal to `old`, or `old` is not in the list; otherwise every
/// `old` becomes `new` and repeated names keep their first place.
pub open spec fn rename_spec(order: Seq<Seq<char>>, old: Seq<char>, new: Seq<char>) -> Seq<
    Seq<char>,
> {
    let n = clean_name(new);
    if n.len() == 0 || old == n || !order.contains(old) {
        order
    } else {
        dedup(replace_all(order, old, n))
    }
}

/// Each name trimmed, empty ones dropped.
pub open spec fn cleaned(order: Seq<Seq<char>>) -> Seq<Seq<char>>
    decreases order.len(),
{
    if order.len() == 0 {
        order
    } else {
        let rest = cleaned(order.drop_last());
        let n = clean_name(order.last());
        if n.len() == 0 {
            rest
        } else {
            rest.push(n)
        }
    }
}

/// The list after `reorder(order)`: trimmed, without empty names, each name
/// once at its first place.
pub open spec fn reorder_spec(order: Seq<Seq<char>>) -> Seq<Seq<char>> {
    dedup(cleaned(order))
}

// ---------------------------------------------------------------------------
// Facts about the list operations
// ---------------------------------------------------------------------------

proof fn lemma_take_last<A>(s: Seq<A>, i: int)
    requires
        0 <= i < s.len(),
    ensures
        s.take(i + 1).drop_last() == s.take(i),
        s.take(i + 1).last() == s[i],
{
    assert(s.take(i + 1).drop_last() =~= s.take(i));
}

proof fn lemma_push_contains(s: Seq<Seq<char>>, x: Seq<char>, y: Seq<char>)
    ensures
        s.push(x).contains(y) <==> (s.contains(y) || y == x),
{
    if s.push(x).contains(y) {
        let k = choose|k: int| 0 <= k < s.push(x).len() && s.push(x)[k] == y;
        if k < s.len() {
            assert(s[k] == y);
        }
    }
    if s.contains(y) {
        let k = choose|k: int| 0 <= k < s.len() && s[k] == y;
        assert(s.push(x)[k] == y);
    }
    if y == x {
        assert(s.push(x)[s.len() as int] == y);
    }
}

pub proof fn lemma_dedup_contains(s: Seq<Seq<char>>, x: Seq<char>)
    ensures
        dedup(s).contains(x) <==> s.contains(x),
    decreases s.len(),
{
    if s.len() > 0 {
        let p = s.drop_last();
        lemma_dedup_contains(p, x);
        lemma_push_contains(p, s.last(), x);
        lemma_push_contains(dedup(p), s.last(), x);
        assert(p.push(s.last()) =~= s);
    }
}

pub proof fn lemma_dedup_distinct(s: Seq<Seq<char>>)
    ensures
        distinct(dedup(s)),
    decreases s.len(),
{
    if s.len() > 0 {
        let p = s.drop_last();
        lemma_dedup_distinct(p);
        if !p.contains(s.last()) {
            let d = dedup(p);
            lemma_dedup_contains(p, s.last());
            assert forall|i: int, j: int| 0 <= i < j < d.push(s.last()).len() implies #[trigger] d.push(
                s.last(),
            )[i] != #[trigger] d.push(s.last())[j] by {
                if j == d.len() {
                    if d[i] == s.last() {
                        assert(d.contains(s.last()));
                    }
                }
            }
        }
    }
}

pub proof fn lemma_dedup_of_distinct(s: Seq<Seq<char>>)
    requires
        distinct(s),
    ensures
        dedup(s) == s,
    decreases s.len(),
{
    if s.len() > 0 {
        let p = s.drop_last();
        assert(distinct(p)) by {
            assert forall|i: int, j: int| 0 <= i < j < p.len() implies #[trigger] p[i] != #[trigger] p[j] by {
                assert(s[i] == p[i] && s[j] == p[j]);
            }
        }
        lemma_dedup_of_distinct(p);
        if p.contains(s.last()) {
            let k = choose|k: int| 0 <= k < p.len() && p[k] == s.last();
            assert(s[k] == s[s.len() - 1]);
        }
        assert(p.push(s.last()) =~= s);
    }
}

pub proof fn lemma_remove_all_contains(s: Seq<Seq<char>>, name: Seq<char>, x: Seq<char>)
    ensures
        remove_all(s, name).contains(x) <==> (s.contains(x) && x != name),
    decreases s.len(),
{
    if s.len() > 0 {
        let p = s.drop_last();
        lemma_remove_all_contains(p, name, x);
        lemma_push_contains(p, s.last(), x);
        lemma_push_contains(remove_all(p, name), s.last(), x);
        assert(p.push(s.last()) =~= s);
    }
}

proof fn lemma_remove_all_distinct(s: Seq<Seq<char>>, name: Seq<char>)
    requires
        distinct(s),
    ensures
        distinct(remove_all(s, name)),
    decreases s.len(),
{
    if s.len() > 0 {
        let p = s.drop_last();
        assert(distinct(p)) by {
            assert forall|i: int, j: int| 0 <= i < j < p.len() implies #[trigger] p[i] != #[trigger] p[j] by {
                assert(s[i] == p[i] && s[j] == p[j]);
            }
        }
        lemma_remove_all_distinct(p, name);
        if s.last() != name {
            let r = remove_all(p, name);
            assert forall|i: int, j: int| 0 <= i < j < r.push(s.last()).len() implies #[trigger] r.push(
                s.last(),
            )[i] != #[trigger] r.push(s.last())[j] by {
                if j == r.len() && r[i] == s.last() {
                    assert(r.contains(s.last()));
                    lemma_remove_all_contains(p, name, s.last());
                    let k = choose|k: int| 0 <= k < p.len() && p[k] == s.last();
                    assert(s[k] == s[s.len() - 1]);
                }
            }
        }
    }
}

proof fn lemma_trim_bounds(s: Seq<char>)
    ensures
        ({
            let a = skip_from_ws(s);
            let b = crate::text::back_from(s, CharClass::Whitespace, a, s.len() as int);
            &&& 0 <= a <= b <= s.len()
            &&& clean_name(s) == s.subrange(a, b)
            &&& a < b ==> !crate::text::in_class(CharClass::Whitespace, s[a])
            &&& a < b ==> !crate::text::in_class(CharClass::Whitespace, s[b - 1])
        }),
{
    let a = skip_from_ws(s);
    crate::text::lemma_skip_from_bounds(s, CharClass::Whitespace, 0);
    crate::text::lemma_back_from_bounds(s, CharClass::Whitespace, a, s.len() as int);
}

spec fn skip_from_ws(s: Seq<char>) -> int {
    crate::text::skip_from(s, CharClass::Whitespace, 0)
}

/// A trimmed name trims to itself.
pub proof fn lemma_clean_name_idempotent(s: Seq<char>)
    ensures
        clean_name(clean_name(s)) == clean_name(s),
{
    let t = clean_name(s);
    lemma_trim_bounds(s);
    lemma_trim_bounds(t);
    if t.len() > 0 {
        assert(crate::text::skip_from(t, CharClass::Whitespace, 0) == 0);
        assert(crate::text::back_from(t, CharClass::Whitespace, 0, t.len() as int) == t.len());
    } else {
        crate::text::lemma_skip_from_bounds(t, CharClass::Whitespace, 0);
    }
    assert(clean_name(t) =~= t);
}

proof fn lemma_cleaned_shape(s: Seq<Seq<char>>)
    ensures
        forall|i: int|
            0 <= i < cleaned(s).len() ==> (#[trigger] cleaned(s)[i]).len() > 0 && clean_name(
                cleaned(s)[i],
            ) == cleaned(s)[i],
    decreases s.len(),
{
    if s.len() > 0 {
        let p = s.drop_last();
        lemma_cleaned_shape(p);
        lemma_clean_name_idempotent(s.last());
        let rest = cleaned(p);
        let n = clean_name(s.last());
        if n.len() > 0 {
            assert forall|i: int| 0 <= i < cleaned(s).len() implies (#[trigger] cleaned(s)[i]).len()
                > 0 && clean_name(cleaned(s)[i]) == cleaned(s)[i] by {
                if i < rest.len() {
                    assert(cleaned(s)[i] == rest[i]);
                } else {
                    assert(cleaned(s)[i] == n);
                }
            }
        }
    }
}

proof fn lemma_dedup_subset(s: Seq<Seq<char>>, i: int)
    requires
        0 <= i < dedup(s).len(),
    ensures
        s.contains(dedup(s)[i]),
{
    let x = dedup(s)[i];
    assert(dedup(s).contains(x));
    lemma_dedup_contains(s, x);
}

// ---------------------------------------------------------------------------
// Laws
// ---------------------------------------------------------------------------

/// Creating a group that is already there changes nothing: `create` twice is
/// `create` once.
pub proof fn law_create_idempotent(order: Seq<Seq<char>>, name: Seq<char>)
    ensures
        create_spec(create_spec(order, name), name) == create_spec(order, name),
{
    let n = clean_name(name);
    if !(n.len() == 0 || order.contains(n)) {
        lemma_push_contains(order, n, n);
    }
}

/// After `create`, the trimmed name is in the list (when it is not empty), and
/// a list without repeats stays without repeats.
pub proof fn law_create_adds(order: Seq<Seq<char>>, name: Seq<char>)
    ensures
        clean_name(name).len() > 0 ==> create_spec(order, name).contains(clean_name(name)),
        distinct(order) ==> distinct(create_spec(order, name)),
{
    let n = clean_name(name);
    if n.len() > 0 && !order.contains(n) {
        lemma_push_contains(order, n, n);
        let r = order.push(n);
        assert forall|i: int, j: int| distinct(order) && 0 <= i < j < r.len() implies #[trigger] r[i]
            != #[trigger] r[j] by {
            if j == order.len() && r[i] == n {
                assert(order.contains(n));
            }
        }
    }
}

/// After `delete(name)` the name is gone and every other group is still there;
/// a list without repeats stays without repeats.
pub proof fn law_delete_removes(order: Seq<Seq<char>>, name: Seq<char>)
    ensures
        !remove_all(order, name).contains(name),
        forall|x: Seq<char>| x != name ==> (#[trigger] remove_all(order, name).contains(x) <==> order.contains(x)),
        distinct(order) ==> distinct(remove_all(order, name)),
{
    lemma_remove_all_contains(order, name, name);
    assert forall|x: Seq<char>| x != name implies (#[trigger] remove_all(order, name).contains(x)
        <==> order.contains(x)) by {
        lemma_remove_all_contains(order, name, x);
    }
    if distinct(order) {
        lemma_remove_all_distinct(order, name);
    }
}

/// `reorder` leaves each name trimmed, non-empty and once, and applying it to
/// its own result changes nothing.
pub proof fn law_reorder_dedups_and_trims(order: Seq<Seq<char>>)
    ensures
        distinct(reorder_spec(order)),
        forall|i: int|
            0 <= i < reorder_spec(order).len() ==> (#[trigger] reorder_spec(order)[i]).len() > 0
                && clean_name(reorder_spec(order)[i]) == reorder_spec(order)[i],
        reorder_spec(reorder_spec(order)) == reorder_spec(order),
{
    let c = cleaned(order);
    let r = dedup(c);
    lemma_dedup_distinct(c);
    lemma_cleaned_shape(order);
    assert forall|i: int| 0 <= i < r.len() implies (#[trigger] r[i]).len() > 0 && clean_name(r[i])
        == r[i] by {
        lemma_dedup_subset(c, i);
        let k = choose|k: int| 0 <= k < c.len() && c[k] == r[i];
        assert(c[k].len() > 0 && clean_name(c[k]) == c[k]);
    }
    lemma_cleaned_fixed(r);
    lemma_dedup_of_distinct(r);
}

proof fn lemma_cleaned_fixed(s: Seq<Seq<char>>)
    requires
        forall|i: int| 0 <= i < s.len() ==> (#[trigger] s[i]).len() > 0 && clean_name(s[i]) == s[i],
    ensures
        cleaned(s) == s,
    decreases s.len(),
{
    if s.len() > 0 {
        let p = s.drop_last();
        assert forall|i: int| 0 <= i < p.len() implies (#[trigger] p[i]).len() > 0 && clean_name(p[i])
            == p[i] by {
            assert(p[i] == s[i]);
        }
        lemma_cleaned_fixed(p);
        assert(s[s.len() - 1] == s.last());
        assert(p.push(s.last()) =~= s);
    }
}

/// After a rename that takes effect, `old` is gone, `new` (trimmed) is there
/// once, and no name is repeated.
pub proof fn law_rename_moves(order: Seq<Seq<char>>, old: Seq<char>, new: Seq<char>)
    requires
        clean_name(new).len() > 0,
        old != clean_name(new),
        order.contains(old),
    ensures
        !rename_spec(order, old, new).contains(old),
        rename_spec(order, old, new).contains(clean_name(new)),
        distinct(rename_spec(order, old, new)),
{
    let n = clean_name(new);
    let m = replace_all(order, old, n);
    lemma_dedup_distinct(m);
    lemma_dedup_contains(m, old);
    lemma_dedup_contains(m, n);
    let k = choose|k: int| 0 <= k < order.len() && order[k] == old;
    assert(m[k] == n);
    if m.contains(old) {
        let j = choose|j: int| 0 <= j < m.len() && m[j] == old;
        assert(m[j] == (if order[j] == old { n } else { order[j] }));
    }
}

// ---------------------------------------------------------------------------
// Operations
// ---------------------------------------------------------------------------

/// The groups as stored: the list read from `groups.json`, or none when the
/// file is missing or unreadable.
pub fn list(stored: Option<Vec<String>>) -> (r: Vec<String>)
    ensures
        names(r@) == match stored {
            Some(v) => names(v@),
            None => Seq::<Seq<char>>::empty(),
        },
{
    match stored {
        Some(v) => v,
        None => {
            let r: Vec<String> = Vec::new();
            assert(names(r@) =~= Seq::<Seq<char>>::empty());
            r
        },
    }
}

/// Adds the group `name` (trimmed) at the end unless it is empty or already
/// listed. Returns whether the list changed.
pub fn create(order: &mut Vec<String>, name: &str) -> (changed: bool)
    ensures
        names(final(order)@) == create_spec(names(old(order)@), name@),
        changed == (names(final(order)@) != names(old(order)@)),
{
    let n = trim_vec(&chars_of(name), CharClass::Whitespace);
    if n.len() == 0 {
        return false;
    }
    if list_contains(order, &n) {
        proof {
            let k = choose|k: int| 0 <= k < order@.len() && (#[trigger] order@[k])@ == n@;
            assert(names(order@)[k] == n@);
        }
        return false;
    }
    let ghost before = names(order@);
    proof {
        if before.contains(n@) {
            let k = choose|k: int| 0 <= k < before.len() && before[k] == n@;
            assert(order@[k]@ == n@);
        }
    }
    order.push(string_of(&n));
    assert(names(order@) =~= before.push(n@));
    assert(names(order@).len() != before.len());
    true
}

/// Removes every occurrence of `name`. Returns whether the list changed.
pub fn delete(order: &mut Vec<String>, name: &str) -> (changed: bool)
    ensures
        names(final(order)@) == remove_all(names(old(order)@), name@),
        changed == (final(order)@.len() != old(order)@.len()),
{
    let nv = chars_of(name);
    let ghost all = names(order@);
    let mut src: Vec<String> = Vec::new();
    std::mem::swap(&mut src, order);
    let total = src.len();
    let mut rev: Vec<String> = Vec::new();
    proof {
        assert(all.take(total as int) =~= all);
        assert(names(rev@).reverse() =~= Seq::<Seq<char>>::empty());
        assert(remove_all(all, name@) + names(rev@).reverse() =~= remove_all(all, name@));
    }
    // Walk from the end so that each element is moved, not copied.
    while src.len() > 0
        invariant
            names(src@) == all.take(src@.len() as int),
            src@.len() <= all.len(),
            total == all.len(),
            nv@ == name@,
            remove_all(all, name@) == remove_all(all.take(src@.len() as int), name@) + names(
                rev@,
            ).reverse(),
        decreases src.len(),
    {
        let ghost k = src@.len() - 1;
        let ghost before_src = names(src@);
        let ghost before_rev = names(rev@);
        let g = src.pop().unwrap();
        proof {
            lemma_take_last(all, k);
            assert(names(src@) =~= before_src.drop_last());
            assert(all.take(k + 1)[k] == all[k]);
            assert(before_src[k] == g@);
        }
        if !crate::text::vec_eq_str(&nv, g.as_str()) {
            rev.push(g);
            proof {
                assert(names(rev@) =~= before_rev.push(all[k]));
                assert(before_rev.push(all[k]).reverse() =~= seq![all[k]] + before_rev.reverse());
                assert(remove_all(all.take(k + 1), name@) == remove_all(all.take(k), name@).push(
                    all[k],
                ));
                assert(remove_all(all.take(k), name@).push(all[k]) + before_rev.reverse()
                    =~= remove_all(all.take(k), name@) + (seq![all[k]] + before_rev.reverse()));
            }
        } else {
            proof {
                assert(remove_all(all.take(k + 1), name@) == remove_all(all.take(k), name@));
            }
        }
        assert(names(src@) =~= all.take(src@.len() as int));
    }
    proof {
        assert(all.take(0) =~= Seq::<Seq<char>>::empty());
        assert(remove_all(all.take(0), name@) =~= Seq::<Seq<char>>::empty());
        assert(remove_all(all, name@) =~= names(rev@).reverse());
    }
    let ghost kept = remove_all(all, name@);
    while rev.len() > 0
        invariant
            kept == names(order@) + names(rev@).reverse(),
        decreases rev.len(),
    {
        let ghost before_rev = names(rev@);
        let ghost before_out = names(order@);
        let g = rev.pop().unwrap();
        order.push(g);
        proof {
            assert(names(rev@) =~= before_rev.drop_last());
            assert(names(order@) =~= before_out.push(before_rev.last()));
            assert(before_rev.reverse() =~= seq![before_rev.last()] + before_rev.drop_last().reverse());
            assert(kept =~= names(order@) + names(rev@).reverse());
        }
    }
    proof {
        assert(names(order@) =~= kept);
        lemma_remove_all_len(all, name@);
    }
    order.len() != total
}

proof fn lemma_remove_all_len(s: Seq<Seq<char>>, name: Seq<char>)
    ensures
        remove_all(s, name).len() <= s.len(),
        remove_all(s, name).len() == s.len() <==> !s.contains(name),
    decreases s.len(),
{
    if s.len() > 0 {
        let p = s.drop_last();
        lemma_remove_all_len(p, name);
        lemma_push_contains(p, s.last(), name);
        assert(p.push(s.last()) =~= s);
    }
}

/// `src` with repeated names dropped, keeping first places.
fn dedup_vec(src: Vec<String>) -> (r: Vec<String>)
    ensures
        names(r@) == dedup(names(src@)),
{
    let ghost all = names(src@);
    let mut out: Vec<String> = Vec::new();
    let mut i: usize = 0;
    let n = src.len();
    assert(all.take(0) =~= Seq::<Seq<char>>::empty());
    while i < n
        invariant
            n == src.len(),
            i <= n,
            all == names(src@),
            names(out@) == dedup(all.take(i as int)),
        decreases n - i,
    {
        let g = &src[i];
        let gv = chars_of(g.as_str());
        proof {
            lemma_take_last(all, i as int);
        }
        let seen = list_contains(&out, &gv);
        proof {
            lemma_dedup_contains(all.take(i as int), gv@);
            if seen {
                let k = choose|k: int| 0 <= k < out@.len() && (#[trigger] out@[k])@ == gv@;
                assert(names(out@)[k] == gv@);
            } else if names(out@).contains(gv@) {
                let k = choose|k: int| 0 <= k < names(out@).len() && names(out@)[k] == gv@;
                assert(out@[k]@ == gv@);
            }
        }
        if !seen {
            let ghost before = names(out@);
            out.push(string_of(&gv));
            assert(names(out@) =~= before.push(all[i as int]));
        }
        i += 1;
    }
    assert(all.take(n as int) =~= all);
    out
}

/// Whether renaming `old_name` to `new_name` does anything at all: the new
/// name (trimmed) is not empty and differs from the old one. When it does,
/// the projects of the old group move to the new one, whether or not the old
/// name was listed.
pub fn rename_applies(old_name: &str, new_name: &str) -> (r: bool)
    ensures
        r == (clean_name(new_name@).len() > 0 && old_name@ != clean_name(new_name@)),
{
    let n = trim_vec(&chars_of(new_name), CharClass::Whitespace);
    n.len() > 0 && !crate::text::vec_eq(&chars_of(old_name), &n)
}

/// Renames the group `old` to `new` (trimmed): each `old` becomes `new` and a
/// name that now appears twice keeps its first place. Nothing changes when
/// `new` is empty or equal to `old`, or `old` is not listed. Returns whether
/// the list changed.
pub fn rename(order: &mut Vec<String>, old_name: &str, new_name: &str) -> (changed: bool)
    ensures
        names(final(order)@) == rename_spec(names(old(order)@), old_name@, new_name@),
        changed == (clean_name(new_name@).len() > 0 && old_name@ != clean_name(new_name@) && names(
            old(order)@,
        ).contains(old_name@)),
{
    let n = trim_vec(&chars_of(new_name), CharClass::Whitespace);
    let ov = chars_of(old_name);
    if n.len() == 0 || crate::text::vec_eq(&ov, &n) {
        return false;
    }
    let ghost all = names(order@);
    let mut src: Vec<String> = Vec::new();
    std::mem::swap(&mut src, order);
    let mut replaced: Vec<String> = Vec::new();
    let mut changed = false;
    let mut i: usize = 0;
    while i < src.len()
        invariant
            i <= src.len(),
            names(src@) == all,
            ov@ == old_name@,
            n@ == clean_name(new_name@),
            names(replaced@) == replace_all(all, old_name@, n@).take(i as int),
            changed == all.take(i as int).contains(old_name@),
        decreases src.len() - i,
    {
        let gv = chars_of(src[i].as_str());
        let ghost before = names(replaced@);
        assert(gv@ == all[i as int]);
        assert(replace_all(all, old_name@, n@)[i as int] == (if all[i as int] == old_name@ {
            n@
        } else {
            all[i as int]
        }));
        proof {
            lemma_take_last(all, i as int);
            lemma_push_contains(all.take(i as int), all[i as int], old_name@);
            assert(all.take(i as int + 1) =~= all.take(i as int).push(all[i as int]));
        }
        if crate::text::vec_eq(&gv, &ov) {
            replaced.push(string_of(&n));
            changed = true;
            assert(names(replaced@) =~= before.push(n@));
        } else {
            replaced.push(string_of(&gv));
            assert(names(replaced@) =~= before.push(gv@));
        }
        assert(names(replaced@) =~= replace_all(all, old_name@, n@).take(i as int + 1));
        i += 1;
    }
    assert(all.take(src.len() as int) =~= all);
    assert(replace_all(all, old_name@, n@).take(src.len() as int) =~= replace_all(all, old_name@, n@));
    if changed {
        *order = dedup_vec(replaced);
    } else {
        *order = src;
    }
    changed
}

/// The new display order: names trimmed, empty ones dropped, each once at its
/// first place.
pub fn reorder(order: Vec<String>) -> (r: Vec<String>)
    ensures
        names(r@) == reorder_spec(names(order@)),
{
    let ghost all = names(order@);
    let mut cl: Vec<String> = Vec::new();
    let mut i: usize = 0;
    assert(all.take(0) =~= Seq::<Seq<char>>::empty());
    while i < order.len()
        invariant
            i <= order.len(),
            all == names(order@),
            names(cl@) == cleaned(all.take(i as int)),
        decreases order.len() - i,
    {
        let t = trim_vec(&chars_of(order[i].as_str()), CharClass::Whitespace);
        proof {
            lemma_take_last(all, i as int);
        }
        if t.len() > 0 {
            let ghost before = names(cl@);
            cl.push(string_of(&t));
            assert(names(cl@) =~= before.push(t@));
        }
        i += 1;
    }
    assert(all.take(order.len() as int) =~= all);
    dedup_vec(cl)
}

/// Whether the project belongs to the group `name`.
pub open spec fn in_group(site: SiteConfig, name: Seq<char>) -> bool {
    match site.group {
        Some(g) => g@ == name,
        None => false,
    }
}

/// Positions of the projects whose group is `name`: those to reassign when the
/// group is renamed, or to leave without a group when it is deleted.
pub fn members(sites: &[SiteConfig], name: &str) -> (r: Vec<usize>)
    ensures
        forall|k: int| 0 <= k < r@.len() ==> (#[trigger] r@[k]) < sites@.len(),
        forall|k: int, l: int| 0 <= k < l < r@.len() ==> #[trigger] r@[k] < #[trigger] r@[l],
        forall|j: int|
            0 <= j < sites@.len() ==> (r@.contains(j as usize) <==> in_group(#[trigger] sites@[j], name@)),
{
    let nv = chars_of(name);
    let mut r: Vec<usize> = Vec::new();
    let mut i: usize = 0;
    while i < sites.len()
        invariant
            i <= sites.len(),
            nv@ == name@,
            forall|k: int| 0 <= k < r@.len() ==> (#[trigger] r@[k]) < i,
            forall|k: int, l: int| 0 <= k < l < r@.len() ==> #[trigger] r@[k] < #[trigger] r@[l],
            forall|j: int|
                0 <= j < i ==> (r@.contains(j as usize) <==> in_group(#[trigger] sites@[j], name@)),
        decreases sites.len() - i,
    {
        let is_member = match &sites[i].group {
            Some(g) => crate::text::vec_eq_str(&nv, g.as_str()),
            None => false,
        };
        let ghost before = r@;
        if is_member {
            r.push(i);
            proof {
                assert forall|j: int| 0 <= j <= i implies (r@.contains(j as usize) <==> in_group(#[trigger] sites@[j], name@)) by {
                    if j < i {
                        if r@.contains(j as usize) {
                            let k = choose|k: int| 0 <= k < r@.len() && r@[k] == j as usize;
                            if k < before.len() {
                                assert(before[k] == j as usize);
                            }
                        }
                        if before.contains(j as usize) {
                            let k = choose|k: int| 0 <= k < before.len() && before[k] == j as usize;
                            assert(r@[k] == j as usize);
                        }
                    } else {
                        assert(r@[before.len() as int] == i);
                    }
                }
            }
        } else {
            proof {
                assert forall|j: int| 0 <= j <= i implies (r@.contains(j as usize) <==> in_group(#[trigger] sites@[j], name@)) by {
                    if j == i && r@.contains(j as usize) {
                        let k = choose|k: int| 0 <= k < r@.len() && r@[k] == j as usize;
                        assert(r@[k] < i);
                    }
                }
            }
        }
        i += 1;
    }
    r
}

/// The group given to a project: none when the name is blank (it is kept as
/// given otherwise; the list of groups stores it trimmed).
pub fn site_group(group: Option<String>) -> (r: Option<String>)
    ensures
        match group {
            Some(g) => if clean_name(g@).len() > 0 {
                r == Some(g)
            } else {
                r is None
            },
            None => r is None,
        },
{
    match group {
        Some(g) => {
            if trim_vec(&chars_of(g.as_str()), CharClass::Whitespace).len() > 0 {
                Some(g)
            } else {
                None
            }
        },
        None => None,
    }
}

} // verus!
