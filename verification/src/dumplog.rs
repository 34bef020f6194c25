//! Log of database dumps: one JSON line per dump written to `app/sql/`, so the
//! user can review them later. Cleaning prunes the log only, never the `.sql`
//! files.

use vstd::prelude::*;

use crate::config::SiteConfig;
use crate::text::{chars_of, lines_seq, lines_vec, seq_lt, string_of, trim, trim_vec, vec_eq_str, vec_lt, vv, CharClass};

verus! {

broadcast use vstd::string::group_string_axioms;

/// One entry of the dump log.
#[derive(Debug)]
pub struct DumpLogEntry {
    /// UTC, `YYYY-MM-DDTHH:MM:SSZ` (sorts lexicographically).
    pub timestamp: String,
    pub site_id: String,
    pub site_name: String,
    pub db_name: String,
    /// Path of the `.sql` file.
    pub file: String,
    /// Size of the dump in bytes.
    pub bytes: u64,
    /// Origin: `auto`, `stop` or `manual`.
    pub source: String,
}

/// The entry for a dump of `site` just written to `file` (`bytes` long), made
/// by `source`, at `timestamp`.
pub fn dump_log_entry(timestamp: &str, site: &SiteConfig, file: &str, bytes: u64, source: &str) -> (e: DumpLogEntry)
    ensures
        e.timestamp@ == timestamp@,
        e.site_id@ == site.id@,
        e.site_name@ == site.name@,
        e.db_name@ == site.services.db.db_name@,
        e.file@ == file@,
        e.bytes == bytes,
        e.source@ == source@,
{
    DumpLogEntry {
        timestamp: String::from_str(timestamp),
        site_id: String::from_str(site.id.as_str()),
        site_name: String::from_str(site.name.as_str()),
        db_name: String::from_str(site.services.db.db_name.as_str()),
        file: String::from_str(file),
        bytes,
        source: String::from_str(source),
    }
}

/// `dump_log_entry` stamped with the current UTC time
/// (`YYYY-MM-DDTHH:MM:SSZ`); `None` when the system gives no current time.
pub fn new_dump_log_entry(site: &SiteConfig, file: &str, bytes: u64, source: &str) -> (r: Option<DumpLogEntry>)
    ensures
        r matches Some(e) ==> {
            &&& crate::clock::is_log_time(e.timestamp@)
            &&& e.site_id@ == site.id@
            &&& e.site_name@ == site.name@
            &&& e.db_name@ == site.services.db.db_name@
            &&& e.file@ == file@
            &&& e.bytes == bytes
            &&& e.source@ == source@
        },
{
    match crate::clock::now_log_time() {
        Some(t) => Some(dump_log_entry(t.as_str(), site, file, bytes, source)),
        None => None,
    }
}

/// An entry is removed when it meets every filter given: a timestamp strictly
/// before `before`, and the database `db`. With no filters, every entry is.
pub open spec fn removed_by(e: DumpLogEntry, before: Option<Seq<char>>, db: Option<Seq<char>>) -> bool {
    &&& match before {
        Some(b) => seq_lt(e.timestamp@, b),
        None => true,
    }
    &&& match db {
        Some(d) => e.db_name@ == d,
        None => true,
    }
}

/// The entries of `es` that are not removed, in order.
pub open spec fn kept_entries(
    es: Seq<DumpLogEntry>,
    before: Option<Seq<char>>,
    db: Option<Seq<char>>,
) -> Seq<DumpLogEntry>
    decreases es.len(),
{
    if es.len() == 0 {
        es
    } else {
        let rest = kept_entries(es.drop_last(), before, db);
        if removed_by(es.last(), before, db) {
            rest
        } else {
            rest.push(es.last())
        }
    }
}

pub open spec fn opt_view(o: Option<&str>) -> Option<Seq<char>> {
    match o {
        Some(s) => Some(s@),
        None => None,
    }
}

fn is_removed(e: &DumpLogEntry, before: &Option<Vec<char>>, db: Option<&str>) -> (r: bool)
    ensures
        r == removed_by(
            *e,
            match before {
                Some(b) => Some(b@),
                None => None,
            },
            opt_view(db),
        ),
{
    let by_date = match before {
        Some(b) => {
            let t = chars_of(e.timestamp.as_str());
            vec_lt(&t, b)
        },
        None => true,
    };
    let by_db = match db {
        Some(d) => {
            let n = chars_of(e.db_name.as_str());
            vec_eq_str(&n, d)
        },
        None => true,
    };
    by_date && by_db
}

/// Removes from `entries` those that meet every given filter (`before`: a
/// timestamp strictly earlier; `db_name`: that database). Returns the entries
/// kept, in their order, and how many were removed.
pub fn clean(entries: Vec<DumpLogEntry>, before: Option<&str>, db_name: Option<&str>) -> (r: (
    Vec<DumpLogEntry>,
    usize,
))
    ensures
        r.0@ == kept_entries(entries@, opt_view(before), opt_view(db_name)),
        r.1 == entries@.len() - r.0@.len(),
{
    let bv: Option<Vec<char>> = match before {
        Some(b) => Some(chars_of(b)),
        None => None,
    };
    let ghost bview = opt_view(before);
    let ghost all = entries@;
    let total = entries.len();
    let mut rest = entries;
    let mut rev_kept: Vec<DumpLogEntry> = Vec::new();
    while rest.len() > 0
        invariant
            rest@ == all.take(rest@.len() as int),
            rest@.len() <= all.len(),
            total == all.len(),
            bview == match bv {
                Some(b) => Some(b@),
                None => None::<Seq<char>>,
            },
            kept_entries(all, bview, opt_view(db_name)) == kept_entries(
                rest@,
                bview,
                opt_view(db_name),
            ) + rev_kept@.reverse(),
            rev_kept@.len() <= all.len() - rest@.len(),
        decreases rest.len(),
    {
        let ghost before_rest = rest@;
        let e = rest.pop().unwrap();
        assert(rest@ =~= before_rest.drop_last());
        assert(rest@ =~= all.take(rest@.len() as int));
        if !is_removed(&e, &bv, db_name) {
            let ghost prev = rev_kept@;
            rev_kept.push(e);
            assert(rev_kept@.reverse() =~= seq![e] + prev.reverse());
        }
    }
    assert(kept_entries(rest@, bview, opt_view(db_name)) =~= Seq::<DumpLogEntry>::empty());
    let mut kept: Vec<DumpLogEntry> = Vec::new();
    while rev_kept.len() > 0
        invariant
            kept_entries(all, bview, opt_view(db_name)) == kept@ + rev_kept@.reverse(),
            kept@.len() + rev_kept@.len() <= total,
        decreases rev_kept.len(),
    {
        let ghost before_rev = rev_kept@;
        let e = rev_kept.pop().unwrap();
        assert(before_rev.reverse() =~= seq![e] + rev_kept@.reverse());
        kept.push(e);
    }
    assert(kept@ =~= kept_entries(all, bview, opt_view(db_name)));
    let n = kept.len();
    (kept, total - n)
}

/// With no filters, cleaning removes every entry.
pub proof fn clean_without_filters_removes_all(es: Seq<DumpLogEntry>)
    ensures
        kept_entries(es, None, None).len() == 0,
    decreases es.len(),
{
    if es.len() > 0 {
        clean_without_filters_removes_all(es.drop_last());
    }
}

/// Cleaning keeps exactly the entries that do not meet every filter: each kept
/// entry escapes some filter, none is invented, and order is kept (the kept
/// entries are a subsequence of the log).
pub proof fn clean_keeps_only_unmatched(
    es: Seq<DumpLogEntry>,
    before: Option<Seq<char>>,
    db: Option<Seq<char>>,
)
    ensures
        kept_entries(es, before, db).len() <= es.len(),
        forall|i: int|
            0 <= i < kept_entries(es, before, db).len() ==> !removed_by(
                #[trigger] kept_entries(es, before, db)[i],
                before,
                db,
            ),
        forall|e: DumpLogEntry|
            kept_entries(es, before, db).contains(e) ==> #[trigger] es.contains(e),
    decreases es.len(),
{
    if es.len() > 0 {
        clean_keeps_only_unmatched(es.drop_last(), before, db);
        let rest = kept_entries(es.drop_last(), before, db);
        assert forall|e: DumpLogEntry| kept_entries(es, before, db).contains(e) implies #[trigger] es.contains(e) by {
            let k = kept_entries(es, before, db);
            let i = choose|i: int| 0 <= i < k.len() && k[i] == e;
            if i < rest.len() {
                assert(rest[i] == e);
                assert(rest.contains(e));
                assert(es.drop_last().contains(e));
                let j = choose|j: int| 0 <= j < es.drop_last().len() && es.drop_last()[j] == e;
                assert(es[j] == e);
            } else {
                assert(es[es.len() - 1] == e);
            }
        }
    }
}

/// The log as read back: newest entries first (the file is written oldest
/// first).
pub fn newest_first(entries: Vec<DumpLogEntry>) -> (r: Vec<DumpLogEntry>)
    ensures
        r@ == entries@.reverse(),
{
    let ghost all = entries@;
    let mut rest = entries;
    let mut out: Vec<DumpLogEntry> = Vec::new();
    while rest.len() > 0
        invariant
            all.reverse() == out@ + rest@.reverse(),
        decreases rest.len(),
    {
        let ghost before = rest@;
        let e = rest.pop().unwrap();
        assert(before.reverse() =~= seq![e] + rest@.reverse());
        out.push(e);
    }
    assert(out@ =~= all.reverse());
    out
}

/// The lines of the log file that hold something (blank lines skipped).
pub open spec fn record_lines(lines: Seq<Seq<char>>) -> Seq<Seq<char>>
    decreases lines.len(),
{
    if lines.len() == 0 {
        lines
    } else {
        let rest = record_lines(lines.drop_last());
        if trim(lines.last(), CharClass::Whitespace).len() == 0 {
            rest
        } else {
            rest.push(lines.last())
        }
    }
}

/// The non-blank lines of the log file, in order; each holds one entry.
pub fn record_lines_of(content: &str) -> (r: Vec<String>)
    ensures
        r@.map_values(|s: String| s@) == record_lines(lines_seq(content@)),
{
    let v = chars_of(content);
    let lines = lines_vec(&v);
    let ghost all = vv(lines@);
    let mut out: Vec<String> = Vec::new();
    let mut i: usize = 0;
    assert(all.take(0) =~= Seq::<Seq<char>>::empty());
    assert(out@.map_values(|s: String| s@) =~= Seq::<Seq<char>>::empty());
    while i < lines.len()
        invariant
            i <= lines.len(),
            all == vv(lines@),
            out@.map_values(|s: String| s@) == record_lines(all.take(i as int)),
        decreases lines.len() - i,
    {
        assert(all.take(i as int + 1).drop_last() =~= all.take(i as int));
        assert(all.take(i as int + 1).last() == lines@[i as int]@);
        let t = trim_vec(&lines[i], CharClass::Whitespace);
        if t.len() > 0 {
            let ghost before = out@.map_values(|s: String| s@);
            let s = string_of(&lines[i]);
            out.push(s);
            assert(out@.map_values(|s: String| s@) =~= before.push(lines@[i as int]@));
        }
        i += 1;
    }
    assert(all.take(lines.len() as int) =~= all);
    out
}

proof fn lemma_record_lines_filter(lines: Seq<Seq<char>>, pred: spec_fn(Seq<char>) -> bool)
    requires
        forall|l: Seq<char>| #[trigger] pred(l) == (trim(l, CharClass::Whitespace).len() > 0),
    ensures
        record_lines(lines) == lines.filter(pred),
    decreases lines.len(),
{
    reveal(Seq::filter);
    if lines.len() > 0 {
        lemma_record_lines_filter(lines.drop_last(), pred);
        assert(pred(lines.last()) == (trim(lines.last(), CharClass::Whitespace).len() > 0));
    }
}

/// Reading the dump log keeps every line that is not blank, in order, and
/// nothing else: each entry read is a non-blank line, and every non-blank line
/// is read.
pub proof fn law_log_keeps_every_nonblank_line(lines: Seq<Seq<char>>)
    ensures
        record_lines(lines) == lines.filter(|l: Seq<char>| trim(l, CharClass::Whitespace).len() > 0),
        forall|k: int|
            0 <= k < record_lines(lines).len() ==> trim(#[trigger] record_lines(lines)[k], CharClass::Whitespace).len() > 0,
        forall|j: int|
            0 <= j < lines.len() && trim(lines[j], CharClass::Whitespace).len() > 0 ==> #[trigger] record_lines(
                lines,
            ).contains(lines[j]),
{
    let pred = |l: Seq<char>| trim(l, CharClass::Whitespace).len() > 0;
    lemma_record_lines_filter(lines, pred);
    broadcast use vstd::seq_lib::group_filter_ensures;

}

} // verus!
