//! Database dumps of a project, and watching an active project's database so
//! that a fresh dump always exists.
//!
//! `mysqldump` runs inside the database container and its output is kept in
//! `app/sql/db-{stamp}.sql`; only the newest few of those are kept. While a
//! project runs, a watcher reads a cheap counter of written rows and, when it
//! moved, dumps the database and keeps the dump only if it differs from the
//! last one kept.

use vstd::prelude::*;

use crate::config::{DbType, SiteConfig};
use crate::order::{lemma_sort_map, sort_by, sort_ranked, sort_stable, Ranked};
use crate::paths::{join, join_seq};
use crate::text::{
    chars_of, has_prefix, has_suffix, lines_seq, lines_vec, parse_dec, parse_uint_spec,
    string_of, vec_ends_with, vec_starts_with, vv, ws_fields, ws_fields_seq, subvec, ranges_match,
};

verus! {

broadcast use vstd::string::group_string_axioms;

/// How many rotating dumps are kept per project.
pub const KEEP_DUMPS: usize = 3;

/// How often, in seconds, the watcher looks at an active project's database.
pub const WATCH_POLL_SECS: u64 = 20;

/// The arguments of `mysqldump` for the project's database: one transaction,
/// no tablespaces, and no date line (so that equal databases give equal
/// dumps).
pub fn mysqldump_args(db_name: &str) -> (r: Vec<String>)
    ensures
        r@.len() == 7,
        r@[0]@ == "mysqldump"@,
        r@[1]@ == "-uroot"@,
        r@[2]@ == "-ppanel"@,
        r@[3]@ == "--single-transaction"@,
        r@[4]@ == "--no-tablespaces"@,
        r@[5]@ == "--skip-dump-date"@,
        r@[6]@ == db_name@,
{
    vec![
        String::from_str("mysqldump"),
        String::from_str("-uroot"),
        String::from_str("-ppanel"),
        String::from_str("--single-transaction"),
        String::from_str("--no-tablespaces"),
        String::from_str("--skip-dump-date"),
        String::from_str(db_name),
    ]
}

/// The error when the project's database container is not running.
pub fn db_not_running_message(site_name: &str) -> (r: String)
    ensures
        r@ == "la base de datos '"@ + site_name@ + "' no está encendida"@,
{
    String::from_str("la base de datos '").concat(site_name).concat("' no está encendida")
}

/// The error when `mysqldump` printed nothing.
pub fn empty_dump_message(db_name: &str) -> (r: String)
    ensures
        r@ == "mysqldump no produjo salida para "@ + db_name@,
{
    String::from_str("mysqldump no produjo salida para ").concat(db_name)
}

/// Where a dump taken at `stamp` is kept: `{path}/app/sql/db-{stamp}.sql`.
pub fn dump_path(site: &SiteConfig, stamp: &str) -> (r: String)
    ensures
        r@ == join_seq(join_seq(join_seq(site.path@, "app"@), "sql"@), "db-"@ + stamp@ + ".sql"@),
{
    let sql = site.sql_dir();
    join(sql.as_str(), String::from_str("db-").concat(stamp).concat(".sql").as_str())
}

/// A dump the panel rotates: `db-*.sql` (other `.sql` files, such as
/// `imported.sql`, are left alone).
pub open spec fn is_rotating(name: Seq<char>) -> bool {
    has_prefix(name, "db-"@) && has_suffix(name, ".sql"@)
}

pub fn is_rotating_dump(name: &str) -> (r: bool)
    ensures
        r == is_rotating(name@),
{
    let v = chars_of(name);
    vec_starts_with(&v, &chars_of("db-")) && vec_ends_with(&v, &chars_of(".sql"))
}

/// A dump file: its path and modification time.
#[derive(Debug)]
pub struct DumpFile {
    pub path: String,
    pub mtime: u128,
}

impl Ranked for DumpFile {
    /// Newer first.
    open spec fn ranks_before(&self, other: &Self) -> bool {
        self.mtime > other.mtime
    }

    fn goes_before(&self, other: &Self) -> (r: bool) {
        self.mtime > other.mtime
    }
}

/// The rotating dumps among `entries` (path, file name, modification time),
/// in order.
pub open spec fn rotating_of(entries: Seq<(Seq<char>, Seq<char>, u128)>) -> Seq<(Seq<char>, u128)>
    decreases entries.len(),
{
    if entries.len() == 0 {
        Seq::empty()
    } else {
        let rest = rotating_of(entries.drop_last());
        let (path, name, mtime) = entries.last();
        if is_rotating(name) {
            rest.push((path, mtime))
        } else {
            rest
        }
    }
}

pub open spec fn entries_view(entries: Seq<(String, String, u128)>) -> Seq<(Seq<char>, Seq<char>, u128)> {
    entries.map_values(|e: (String, String, u128)| (e.0@, e.1@, e.2))
}

pub open spec fn newer(a: (Seq<char>, u128), b: (Seq<char>, u128)) -> bool {
    a.1 > b.1
}

/// The paths to delete so that only the `keep` newest rotating dumps remain:
/// none when there are at most `keep`; else the rotating dumps sorted newest
/// first (ties keep their order), past the first `keep`.
pub open spec fn to_remove_seq(entries: Seq<(Seq<char>, Seq<char>, u128)>, keep: nat) -> Seq<Seq<char>> {
    let d = rotating_of(entries);
    if d.len() <= keep {
        Seq::empty()
    } else {
        sort_by(d, |a: (Seq<char>, u128), b: (Seq<char>, u128)| newer(a, b)).skip(keep as int).map_values(
            |x: (Seq<char>, u128)| x.0,
        )
    }
}

pub fn dumps_to_remove(entries: &Vec<(String, String, u128)>, keep: usize) -> (r: Vec<String>)
    ensures
        r@.map_values(|s: String| s@) == to_remove_seq(entries_view(entries@), keep as nat),
{
    let ghost all = entries_view(entries@);
    let mut d: Vec<DumpFile> = Vec::new();
    let mut i: usize = 0;
    assert(all.take(0) =~= Seq::<(Seq<char>, Seq<char>, u128)>::empty());
    while i < entries.len()
        invariant
            i <= entries.len(),
            all == entries_view(entries@),
            d@.map_values(|f: DumpFile| (f.path@, f.mtime)) == rotating_of(all.take(i as int)),
        decreases entries.len() - i,
    {
        assert(all.take(i as int + 1).drop_last() =~= all.take(i as int));
        assert(all.take(i as int + 1).last() == (entries@[i as int].0@, entries@[i as int].1@, entries@[i as int].2));
        if is_rotating_dump(entries[i].1.as_str()) {
            let ghost before = d@.map_values(|f: DumpFile| (f.path@, f.mtime));
            let f = DumpFile { path: String::from_str(entries[i].0.as_str()), mtime: entries[i].2 };
            d.push(f);
            assert(d@.map_values(|f: DumpFile| (f.path@, f.mtime)) =~= before.push((f.path@, f.mtime)));
        }
        i += 1;
    }
    assert(all.take(entries.len() as int) =~= all);
    if d.len() <= keep {
        let r: Vec<String> = Vec::new();
        assert(r@.map_values(|s: String| s@) =~= Seq::<Seq<char>>::empty());
        return r;
    }
    let ghost dv = d@;
    let sorted = sort_stable(d);
    proof {
        lemma_sort_map(dv, |f: DumpFile| (f.path@, f.mtime), |a: (Seq<char>, u128), b: (Seq<char>, u128)| newer(a, b));
        crate::order::lemma_sort_ranked_len(dv);
    }
    let ghost sv = sorted@.map_values(|f: DumpFile| (f.path@, f.mtime));
    let mut r: Vec<String> = Vec::new();
    let mut k: usize = keep;
    while k < sorted.len()
        invariant
            keep <= k <= sorted.len(),
            sv == sorted@.map_values(|f: DumpFile| (f.path@, f.mtime)),
            r@.map_values(|s: String| s@) == sv.skip(keep as int).take(k - keep).map_values(
                |x: (Seq<char>, u128)| x.0,
            ),
        decreases sorted.len() - k,
    {
        let ghost before = r@.map_values(|s: String| s@);
        r.push(String::from_str(sorted[k].path.as_str()));
        assert(sv.len() == sorted@.len());
        assert(sv[k as int] == (sorted@[k as int].path@, sorted@[k as int].mtime));
        assert(r@.map_values(|s: String| s@) =~= before.push(sorted@[k as int].path@));
        assert(r@.map_values(|s: String| s@) =~= sv.skip(keep as int).take(k + 1 - keep).map_values(
            |x: (Seq<char>, u128)| x.0,
        ));
        k += 1;
    }
    assert(sv.skip(keep as int).take(sorted.len() - keep) =~= sv.skip(keep as int));
    r
}

/// The newest rotating dump (the last one among those with the greatest
/// time), whose hash seeds the watcher.
pub open spec fn newest_rotating_seq(entries: Seq<(Seq<char>, Seq<char>, u128)>) -> Option<(Seq<char>, u128)>
    decreases entries.len(),
{
    if entries.len() == 0 {
        None
    } else {
        let prev = newest_rotating_seq(entries.drop_last());
        let (path, name, mtime) = entries.last();
        if !is_rotating(name) {
            prev
        } else {
            match prev {
                Some((p, t)) => if mtime >= t {
                    Some((path, mtime))
                } else {
                    Some((p, t))
                },
                None => Some((path, mtime)),
            }
        }
    }
}

pub fn newest_rotating_dump(entries: &Vec<(String, String, u128)>) -> (r: Option<String>)
    ensures
        match newest_rotating_seq(entries_view(entries@)) {
            Some((p, t)) => r matches Some(s) && s@ == p,
            None => r is None,
        },
{
    let ghost all = entries_view(entries@);
    let mut best: Option<(usize, u128)> = None;
    let mut i: usize = 0;
    assert(all.take(0) =~= Seq::<(Seq<char>, Seq<char>, u128)>::empty());
    while i < entries.len()
        invariant
            i <= entries.len(),
            all == entries_view(entries@),
            match newest_rotating_seq(all.take(i as int)) {
                Some((p, t)) => best matches Some((k, bt)) && k < i && entries@[k as int].0@ == p && bt
                    == t,
                None => best is None,
            },
        decreases entries.len() - i,
    {
        assert(all.take(i as int + 1).drop_last() =~= all.take(i as int));
        assert(all.take(i as int + 1).last() == (entries@[i as int].0@, entries@[i as int].1@, entries@[i as int].2));
        if is_rotating_dump(entries[i].1.as_str()) {
            let m = entries[i].2;
            match best {
                Some((_, t)) => {
                    if m >= t {
                        best = Some((i, m));
                    }
                },
                None => {
                    best = Some((i, m));
                },
            }
        }
        i += 1;
    }
    assert(all.take(entries.len() as int) =~= all);
    match best {
        Some((k, _)) => Some(String::from_str(entries[k].0.as_str())),
        None => None,
    }
}

// ---------------------------------------------------------------------------
// The watcher
// ---------------------------------------------------------------------------

/// Whether the engine has the cheap counter of written rows (PostgreSQL is
/// watched by the dump's hash alone).
pub fn has_write_counter(t: DbType) -> (r: bool)
    ensures
        r == !(t is Postgres),
{
    match t {
        DbType::Postgres => false,
        _ => true,
    }
}

/// The command that prints the engine's counters of inserted, updated and
/// deleted rows.
pub fn write_counter_command() -> (r: Vec<String>)
    ensures
        r@.len() == 7,
        r@[0]@ == "mysql"@,
        r@[1]@ == "-uroot"@,
        r@[2]@ == "-ppanel"@,
        r@[3]@ == "-N"@,
        r@[4]@ == "-B"@,
        r@[5]@ == "-e"@,
        r@[6]@ == "SHOW GLOBAL STATUS WHERE Variable_name IN ('Innodb_rows_inserted','Innodb_rows_updated','Innodb_rows_deleted')"@,
{
    vec![
        String::from_str("mysql"),
        String::from_str("-uroot"),
        String::from_str("-ppanel"),
        String::from_str("-N"),
        String::from_str("-B"),
        String::from_str("-e"),
        String::from_str(
            "SHOW GLOBAL STATUS WHERE Variable_name IN ('Innodb_rows_inserted','Innodb_rows_updated','Innodb_rows_deleted')",
        ),
    ]
}

/// The counter on one output line: its first two words, the first naming an
/// `Innodb_rows_*` counter and the second a number.
pub open spec fn counter_of_line(line: Seq<char>) -> Option<nat> {
    let cols = ws_fields_seq(line);
    if cols.len() >= 2 && has_prefix(cols[0], "Innodb_rows_"@) {
        parse_uint_spec(cols[1], 10, u64::MAX as nat)
    } else {
        None
    }
}

/// The sum (saturating at the largest `u64`) of the counters found in
/// `lines`, or none when no line holds one (noise such as the client's
/// password warning is skipped).
pub open spec fn counters_sum(lines: Seq<Seq<char>>) -> Option<u64>
    decreases lines.len(),
{
    if lines.len() == 0 {
        None
    } else {
        let prev = counters_sum(lines.drop_last());
        match counter_of_line(lines.last()) {
            Some(n) => Some(
                match prev {
                    Some(p) => if p + n > u64::MAX {
                        u64::MAX
                    } else {
                        (p + n) as u64
                    },
                    None => n as u64,
                },
            ),
            None => prev,
        }
    }
}

fn counter_in_line(line: &Vec<char>) -> (r: Option<u64>)
    ensures
        match counter_of_line(line@) {
            Some(n) => r == Some(n as u64),
            None => r is None,
        },
{
    let ranges = ws_fields(line);
    let ghost cols = ws_fields_seq(line@);
    if ranges.len() < 2 {
        return None;
    }
    let (a0, b0) = ranges[0];
    let (a1, b1) = ranges[1];
    let name = subvec(line, a0, b0);
    let val = subvec(line, a1, b1);
    assert(name@ == cols[0]);
    assert(val@ == cols[1]);
    if !vec_starts_with(&name, &chars_of("Innodb_rows_")) {
        return None;
    }
    parse_dec(&val, u64::MAX)
}

/// The rows written so far by the engine, from the counter command's output;
/// none when it holds no counter (then the dump's hash decides alone).
pub fn write_counter_sum(out: &str) -> (r: Option<u64>)
    ensures
        r == counters_sum(lines_seq(out@)),
{
    let lines = lines_vec(&chars_of(out));
    let ghost all = vv(lines@);
    let mut sum: u64 = 0;
    let mut any = false;
    let mut i: usize = 0;
    assert(all.take(0) =~= Seq::<Seq<char>>::empty());
    while i < lines.len()
        invariant
            i <= lines.len(),
            all == vv(lines@),
            counters_sum(all.take(i as int)) == (if any {
                Some(sum)
            } else {
                None::<u64>
            }),
        decreases lines.len() - i,
    {
        assert(all.take(i as int + 1).drop_last() =~= all.take(i as int));
        assert(all.take(i as int + 1).last() == lines@[i as int]@);
        match counter_in_line(&lines[i]) {
            Some(n) => {
                if any {
                    sum = sum.saturating_add(n);
                } else {
                    sum = n;
                }
                any = true;
            },
            None => {},
        }
        i += 1;
    }
    assert(all.take(lines.len() as int) =~= all);
    if any {
        Some(sum)
    } else {
        None
    }
}

/// The watcher's gate: with a counter reading equal to the last one, nothing
/// was written and no dump is taken; otherwise a dump is taken, and a reading
/// becomes the new last one (no reading leaves it as it was).
pub fn writes_gate(last: Option<u64>, reading: Option<u64>) -> (r: (bool, Option<u64>))
    ensures
        r == (match reading {
            Some(w) => if last == Some(w) {
                (false, last)
            } else {
                (true, Some(w))
            },
            None => (true, last),
        }),
{
    match reading {
        Some(w) => {
            if last == Some(w) {
                (false, last)
            } else {
                (true, Some(w))
            }
        },
        None => (true, last),
    }
}

/// The 64-bit hash `std::collections::hash_map::DefaultHasher::new()` gives a
/// byte slice (fixed keys, the same in every run of a given build).
pub uninterp spec fn default_hash(bytes: Seq<u8>) -> u64;

/// `std::hash::BuildHasher::hash_one` with the default builder of
/// `DefaultHasher`: a `DefaultHasher::new()` fed the bytes (`Hash for [u8]`),
/// then `finish`. Claimed: the result is `default_hash` of the bytes.
#[verifier::external_body]
fn hash_bytes(bytes: &[u8]) -> (r: u64)
    ensures
        r == default_hash(bytes@),
{
    std::hash::BuildHasher::hash_one(
        &std::hash::BuildHasherDefault::<std::collections::hash_map::DefaultHasher>::default(),
        bytes,
    )
}

/// Whether a new dump should be kept: its hash differs from the last kept
/// one. Returns that and the dump's hash (the new last one when kept).
pub fn dump_changed(last_hash: Option<u64>, dump: &[u8]) -> (r: (bool, u64))
    ensures
        r.1 == default_hash(dump@),
        r.0 == (last_hash != Some(default_hash(dump@))),
{
    let h = hash_bytes(dump);
    (last_hash != Some(h), h)
}

/// The hash a watcher starts from: that of the newest kept dump, if any.
pub fn seed_hash(newest_dump: Option<&[u8]>) -> (r: Option<u64>)
    ensures
        match newest_dump {
            Some(b) => r == Some(default_hash(b@)),
            None => r is None,
        },
{
    match newest_dump {
        Some(b) => Some(hash_bytes(b)),
        None => None,
    }
}

/// Where a dump taken now is kept (`dump_path` with the current time's
/// stamp); `None` when the system gives no current time.
pub fn new_dump_path(site: &SiteConfig) -> (res: Option<String>)
    ensures
        res matches Some(r) ==> exists|stamp: Seq<char>|
            crate::clock::is_file_stamp(stamp) && #[trigger] join_seq(
                join_seq(join_seq(site.path@, "app"@), "sql"@),
                "db-"@ + stamp + ".sql"@,
            ) == r@,
{
    let stamp = match crate::clock::now_stamp() {
        Some(s) => s,
        None => {
            return None;
        },
    };
    let r = dump_path(site, stamp.as_str());
    assert(join_seq(join_seq(join_seq(site.path@, "app"@), "sql"@), "db-"@ + stamp@ + ".sql"@) == r@);
    Some(r)
}

/// Rotation orders the dumps newest first, none lost or added.
pub proof fn law_dumps_newest_first(s: Seq<DumpFile>)
    ensures
        crate::order::is_ranked(sort_ranked(s)),
        sort_ranked(s).to_multiset() == s.to_multiset(),
{
    crate::order::law_sort_ranked(s);
}

} // verus!
