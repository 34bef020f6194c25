//! Host paths, held as text with `/` as the separator.

use vstd::prelude::*;

use crate::text::push_chars;
use crate::text::chars_of;
use crate::text::{split_seq, split_vec, string_of, vv, CharClass};

verus! {

/// `Path::new(base).join(seg)` on a Unix host: an absolute `seg` replaces
/// `base`; otherwise a `/` is put between them unless `base` is empty or
/// already ends in `/`.
pub open spec fn join_seq(base: Seq<char>, seg: Seq<char>) -> Seq<char> {
    if seg.len() > 0 && seg[0] == '/' {
        seg
    } else if base.len() == 0 {
        seg
    } else if base.last() == '/' {
        base + seg
    } else {
        base + seq!['/'] + seg
    }
}

/// `Path::new(base).join(seg)`.
pub fn join(base: &str, seg: &str) -> (r: String)
    ensures
        r@ == join_seq(base@, seg@),
{
    let b = chars_of(base);
    let s = chars_of(seg);
    if s.len() > 0 && s[0] == '/' {
        let mut r = String::new();
        push_chars(&mut r, &s);
        assert(Seq::<char>::empty() + s@ =~= s@);
        return r;
    }
    let mut r = String::new();
    push_chars(&mut r, &b);
    if b.len() > 0 && b[b.len() - 1] != '/' {
        crate::text::push_char(&mut r, '/');
    }
    push_chars(&mut r, &s);
    assert(Seq::<char>::empty() + b@ =~= b@);
    assert(b@ + seq!['/'] =~= b@.push('/'));
    r
}

/// The normal parts among the `/`-separated parts of a path: empty parts and
/// `.` dropped.
pub open spec fn normal_parts(parts: Seq<Seq<char>>) -> Seq<Seq<char>>
    decreases parts.len(),
{
    if parts.len() == 0 {
        parts
    } else {
        let rest = normal_parts(parts.drop_last());
        let x = parts.last();
        if x.len() == 0 || x == seq!['.'] {
            rest
        } else {
            rest.push(x)
        }
    }
}

/// `Path::components` of a Unix path, each as text: the root as `/`, a
/// leading `.` of a relative path kept, then the normal parts (empty parts
/// and inner `.` dropped; `..` kept).
pub open spec fn components_seq(p: Seq<char>) -> Seq<Seq<char>> {
    let parts = split_seq(p, CharClass::Is('/'));
    let head = if p.len() > 0 && p[0] == '/' {
        seq![seq!['/']]
    } else if parts.len() > 0 && parts[0] == seq!['.'] {
        seq![seq!['.']]
    } else {
        Seq::<Seq<char>>::empty()
    };
    head + normal_parts(parts)
}

/// `Path::starts_with`: the components of `base` begin those of `path`.
pub open spec fn path_starts_with(path: Seq<char>, base: Seq<char>) -> bool {
    let a = components_seq(path);
    let b = components_seq(base);
    b.len() <= a.len() && a.subrange(0, b.len() as int) == b
}

fn components(p: &str) -> (r: Vec<Vec<char>>)
    ensures
        vv(r@) == components_seq(p@),
{
    let v = chars_of(p);
    let parts = split_vec(&v, CharClass::Is('/'));
    let ghost ps = vv(parts@);
    let mut out: Vec<Vec<char>> = Vec::new();
    if v.len() > 0 && v[0] == '/' {
        let root = vec!['/'];
        assert(root@ =~= seq!['/']);
        out.push(root);
        assert(vv(out@) =~= seq![seq!['/']]);
    } else if parts.len() > 0 && parts[0].len() == 1 && parts[0][0] == '.' {
        assert(parts@[0]@ == ps[0]);
        assert(ps[0] =~= seq!['.']);
        let cur = vec!['.'];
        assert(cur@ =~= seq!['.']);
        out.push(cur);
        assert(vv(out@) =~= seq![seq!['.']]);
    } else {
        assert(vv(out@) =~= Seq::<Seq<char>>::empty());
        proof {
            if parts@.len() > 0 && ps[0] == seq!['.'] {
                assert(parts@[0]@ == ps[0]);
                assert(parts@[0]@[0] == '.');
            }
        }
    }
    let ghost head = vv(out@);
    assert(head =~= (if p@.len() > 0 && p@[0] == '/' {
        seq![seq!['/']]
    } else if ps.len() > 0 && ps[0] == seq!['.'] {
        seq![seq!['.']]
    } else {
        Seq::<Seq<char>>::empty()
    }));
    let mut i: usize = 0;
    assert(ps.take(0) =~= Seq::<Seq<char>>::empty());
    assert(head + normal_parts(ps.take(0)) =~= head);
    while i < parts.len()
        invariant
            i <= parts.len(),
            ps == vv(parts@),
            vv(out@) == head + normal_parts(ps.take(i as int)),
        decreases parts.len() - i,
    {
        assert(ps.take(i as int + 1).drop_last() =~= ps.take(i as int));
        assert(ps.take(i as int + 1).last() == parts@[i as int]@);
        let x = &parts[i];
        let dot = x.len() == 1 && x[0] == '.';
        proof {
            if x@ == seq!['.'] {
                assert(x@[0] == '.');
            }
            if dot {
                assert(x@ =~= seq!['.']);
            }
        }
        if x.len() > 0 && !dot {
            let ghost before = vv(out@);
            let mut y: Vec<char> = Vec::new();
            let mut k: usize = 0;
            while k < x.len()
                invariant
                    k <= x.len(),
                    y@ == x@.take(k as int),
                decreases x.len() - k,
            {
                y.push(x[k]);
                assert(y@ =~= x@.take(k as int + 1));
                k += 1;
            }
            assert(x@.take(x.len() as int) =~= x@);
            out.push(y);
            assert(vv(out@) =~= before.push(x@));
            assert(head + normal_parts(ps.take(i as int)).push(x@) =~= (head + normal_parts(
                ps.take(i as int),
            )).push(x@));
        }
        i += 1;
    }
    assert(ps.take(parts.len() as int) =~= ps);
    out
}

/// `Path::new(path).starts_with(base)`.
pub fn starts_with(path: &str, base: &str) -> (r: bool)
    ensures
        r == path_starts_with(path@, base@),
{
    let a = components(path);
    let b = components(base);
    let ghost av = vv(a@);
    let ghost bv = vv(b@);
    assert(av.len() == a@.len() && bv.len() == b@.len());
    if b.len() > a.len() {
        return false;
    }
    let mut i: usize = 0;
    while i < b.len()
        invariant
            i <= b.len() <= a.len(),
            av == vv(a@),
            bv == vv(b@),
            av == components_seq(path@),
            bv == components_seq(base@),
            forall|j: int| 0 <= j < i ==> av[j] == bv[j],
        decreases b.len() - i,
    {
        assert(av[i as int] == a@[i as int]@ && bv[i as int] == b@[i as int]@);
        if !crate::text::vec_eq(&a[i], &b[i]) {
            assert(av.subrange(0, bv.len() as int)[i as int] != bv[i as int]);
            return false;
        }
        i += 1;
    }
    assert(av.subrange(0, bv.len() as int) =~= bv);
    true
}

/// `PathBuf` equality: the same components.
pub open spec fn same_path(a: Seq<char>, b: Seq<char>) -> bool {
    components_seq(a) == components_seq(b)
}

pub fn path_eq(a: &str, b: &str) -> (r: bool)
    ensures
        r == same_path(a@, b@),
{
    let x = components(a);
    let y = components(b);
    let ghost xv = vv(x@);
    let ghost yv = vv(y@);
    assert(xv.len() == x@.len() && yv.len() == y@.len());
    if x.len() != y.len() {
        return false;
    }
    let mut i: usize = 0;
    while i < x.len()
        invariant
            i <= x.len() == y.len(),
            xv == vv(x@),
            yv == vv(y@),
            xv == components_seq(a@),
            yv == components_seq(b@),
            forall|j: int| 0 <= j < i ==> xv[j] == yv[j],
        decreases x.len() - i,
    {
        assert(xv[i as int] == x@[i as int]@ && yv[i as int] == y@[i as int]@);
        if !crate::text::vec_eq(&x[i], &y[i]) {
            return false;
        }
        i += 1;
    }
    assert(xv =~= yv);
    true
}

} // verus!
