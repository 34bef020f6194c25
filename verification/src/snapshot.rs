//! Save points of a project: an archive of its code (without uploads, cache,
//! `wp-config.php` and logs) and a dump of its database, kept in
//! `{path}/snapshots/{id}/` with a `meta.json`.

use vstd::prelude::*;

use crate::config::{DbType, SiteConfig};
use crate::order::{lemma_sort_map, sort_by, sort_ranked, sort_stable, Ranked};
use crate::paths::{join, join_seq};
use crate::text::{
    chars_of, int_string, int_text, lines_seq, lines_vec, seq_lt, string_of, subvec, trim,
    trim_vec, vec_eq_str, vec_lt, CharClass,
};

verus! {

broadcast use vstd::string::group_string_axioms;

/// What `meta.json` records of a save point.
#[derive(Debug)]
pub struct SnapshotMeta {
    pub id: String,
    pub label: String,
    pub created_at: String,
    pub db_name: String,
    pub db_type: DbType,
    /// Size of `code.tar.zst` (0 when it could not be measured).
    pub code_bytes: u64,
    /// Size of `db.sql` (0 when it could not be measured).
    pub db_bytes: u64,
    /// Extra paths (relative to the public folder) left out of this archive.
    pub excludes: Vec<String>,
}

/// A folder that may be left out of save points, found on disk.
#[derive(Debug)]
pub struct ExcludableEntry {
    /// Path relative to the public folder.
    pub path: String,
    /// Size of the folder on disk.
    pub bytes: u64,
    /// A backup folder of a known plugin (recommended to leave out).
    pub known: bool,
    /// The plugin it belongs to, when `known`.
    pub label: Option<String>,
}

/// `{path}/snapshots`.
pub fn snapshots_root(site: &SiteConfig) -> (r: String)
    ensures
        r@ == join_seq(site.path@, "snapshots"@),
{
    join(site.path.as_str(), "snapshots")
}

/// `{path}/snapshots/{snapshot_id}`.
pub fn snapshot_dir(site: &SiteConfig, snapshot_id: &str) -> (r: String)
    ensures
        r@ == join_seq(join_seq(site.path@, "snapshots"@), snapshot_id@),
{
    join(snapshots_root(site).as_str(), snapshot_id)
}

/// Backup folders of known plugins (relative to the public folder), with the
/// plugin each belongs to. They are heavy and rarely wanted in a save point.
pub open spec fn known_dirs() -> Seq<(Seq<char>, Seq<char>)> {
    seq![
        ("wp-content/updraft"@, "UpdraftPlus"@),
        ("wp-content/ai1wm-backups"@, "All-in-One WP Migration"@),
        ("wp-content/wpvividbackups"@, "WPvivid"@),
        ("wp-content/backups-dup-lite"@, "Duplicator"@),
        ("wp-content/backups-dup-pro"@, "Duplicator Pro"@),
        ("wp-content/backuply"@, "Backuply"@),
        ("wp-snapshots"@, "Duplicator"@),
    ]
}

fn known_table() -> (r: Vec<(&'static str, &'static str)>)
    ensures
        r@.len() == known_dirs().len(),
        forall|k: int| 0 <= k < r@.len() ==> (#[trigger] r@[k]).0@ == known_dirs()[k].0 && r@[k].1@
            == known_dirs()[k].1,
{
    let r = vec![
        ("wp-content/updraft", "UpdraftPlus"),
        ("wp-content/ai1wm-backups", "All-in-One WP Migration"),
        ("wp-content/wpvividbackups", "WPvivid"),
        ("wp-content/backups-dup-lite", "Duplicator"),
        ("wp-content/backups-dup-pro", "Duplicator Pro"),
        ("wp-content/backuply", "Backuply"),
        ("wp-snapshots", "Duplicator"),
    ];
    r
}

/// The known backup folders, in the order of `known_dirs` (the sizes given to
/// `excludable_entries` follow this order).
pub fn known_backup_dirs() -> (r: Vec<&'static str>)
    ensures
        r@.len() == known_dirs().len(),
        forall|k: int| 0 <= k < r@.len() ==> (#[trigger] r@[k])@ == known_dirs()[k].0,
{
    let table = known_table();
    let mut r: Vec<&'static str> = Vec::new();
    let mut k: usize = 0;
    while k < table.len()
        invariant
            k <= table.len(),
            table@.len() == known_dirs().len(),
            forall|j: int| 0 <= j < table@.len() ==> (#[trigger] table@[j]).0@ == known_dirs()[j].0,
            r@.len() == k,
            forall|j: int| 0 <= j < k ==> (#[trigger] r@[j])@ == known_dirs()[j].0,
        decreases table.len() - k,
    {
        r.push(table[k].0);
        k += 1;
    }
    r
}

/// The plugin of the first known backup folder at `rel`, from entry `k` on.
pub open spec fn known_from(rel: Seq<char>, k: int) -> Option<Seq<char>>
    decreases known_dirs().len() - k,
{
    if k < 0 || k >= known_dirs().len() {
        None
    } else if known_dirs()[k].0 == rel {
        Some(known_dirs()[k].1)
    } else {
        known_from(rel, k + 1)
    }
}

/// Whether `rel` is a known backup folder, and of which plugin.
pub fn known_backup(rel: &str) -> (r: (bool, Option<String>))
    ensures
        r.0 == known_from(rel@, 0) is Some,
        match known_from(rel@, 0) {
            Some(l) => r.1 matches Some(s) && s@ == l,
            None => r.1 is None,
        },
{
    let table = known_table();
    let rv = chars_of(rel);
    let mut k: usize = 0;
    while k < table.len()
        invariant
            k <= table.len(),
            table@.len() == known_dirs().len(),
            forall|j: int| 0 <= j < table@.len() ==> (#[trigger] table@[j]).0@ == known_dirs()[j].0
                && table@[j].1@ == known_dirs()[j].1,
            rv@ == rel@,
            known_from(rel@, 0) == known_from(rel@, k as int),
        decreases table.len() - k,
    {
        let (dir, label) = table[k];
        if vec_eq_str(&rv, dir) {
            return (true, Some(String::from_str(label)));
        }
        k += 1;
    }
    (false, None)
}

// ---------------------------------------------------------------------------
// The code archive
// ---------------------------------------------------------------------------

/// `s` without any number of leading `./`.
pub open spec fn strip_dot_slashes(s: Seq<char>) -> Seq<char>
    decreases s.len(),
{
    if s.len() >= 2 && s[0] == '.' && s[1] == '/' {
        strip_dot_slashes(s.subrange(2, s.len() as int))
    } else {
        s
    }
}

/// An extra exclusion as `tar` wants it: trimmed, without leading `./` and
/// without leading or trailing `/`.
pub open spec fn clean_exclude_seq(rel: Seq<char>) -> Seq<char> {
    trim(strip_dot_slashes(trim(rel, CharClass::Whitespace)), CharClass::Is('/'))
}

fn clean_exclude(rel: &str) -> (r: Vec<char>)
    ensures
        r@ == clean_exclude_seq(rel@),
{
    let t = trim_vec(&chars_of(rel), CharClass::Whitespace);
    let mut start: usize = 0;
    assert(t@.subrange(0, t@.len() as int) =~= t@);
    while t.len() - start >= 2 && t[start] == '.' && t[start + 1] == '/'
        invariant
            start <= t.len(),
            strip_dot_slashes(t@) == strip_dot_slashes(t@.subrange(start as int, t@.len() as int)),
        decreases t.len() - start,
    {
        assert(t@.subrange(start as int, t@.len() as int).subrange(2, t@.len() - start) =~= t@.subrange(
            start + 2,
            t@.len() as int,
        ));
        start += 2;
    }
    let rest = subvec(&t, start, t.len());
    trim_vec(&rest, CharClass::Is('/'))
}

/// The `--exclude=./{path}` options of the project's extra exclusions, empty
/// ones skipped.
pub open spec fn extra_exclude_args(extras: Seq<Seq<char>>) -> Seq<Seq<char>>
    decreases extras.len(),
{
    if extras.len() == 0 {
        Seq::<Seq<char>>::empty()
    } else {
        let rest = extra_exclude_args(extras.drop_last());
        let c = clean_exclude_seq(extras.last());
        if c.len() == 0 {
            rest
        } else {
            rest.push("--exclude=./"@ + c)
        }
    }
}

pub open spec fn strs(v: Seq<String>) -> Seq<Seq<char>> {
    v.map_values(|s: String| s@)
}

/// The arguments of `tar` that write the code archive `code_path` from the
/// public folder `public`: uploads, cache, `wp-config.php` and `*.log` always
/// left out, then the project's extra exclusions.
pub fn tar_args(code_path: &str, public: &str, extras: &Vec<String>) -> (r: Vec<String>)
    ensures
        strs(r@) == seq![
            "--zstd"@,
            "-cf"@,
            code_path@,
            "--exclude=./wp-content/uploads"@,
            "--exclude=./wp-content/cache"@,
            "--exclude=./wp-config.php"@,
            "--exclude=./*.log"@,
        ] + extra_exclude_args(strs(extras@)) + seq!["-C"@, public@, "."@],
{
    let mut r: Vec<String> = vec![
        String::from_str("--zstd"),
        String::from_str("-cf"),
        String::from_str(code_path),
        String::from_str("--exclude=./wp-content/uploads"),
        String::from_str("--exclude=./wp-content/cache"),
        String::from_str("--exclude=./wp-config.php"),
        String::from_str("--exclude=./*.log"),
    ];
    let ghost head = strs(r@);
    let ghost all = strs(extras@);
    assert(head =~= seq![
        "--zstd"@,
        "-cf"@,
        code_path@,
        "--exclude=./wp-content/uploads"@,
        "--exclude=./wp-content/cache"@,
        "--exclude=./wp-config.php"@,
        "--exclude=./*.log"@,
    ]);
    let mut i: usize = 0;
    assert(all.take(0) =~= Seq::<Seq<char>>::empty());
    assert(head + extra_exclude_args(all.take(0)) =~= head);
    while i < extras.len()
        invariant
            i <= extras.len(),
            all == strs(extras@),
            strs(r@) == head + extra_exclude_args(all.take(i as int)),
        decreases extras.len() - i,
    {
        assert(all.take(i as int + 1).drop_last() =~= all.take(i as int));
        assert(all.take(i as int + 1).last() == extras@[i as int]@);
        let c = clean_exclude(extras[i].as_str());
        if c.len() > 0 {
            let ghost before = strs(r@);
            r.push(String::from_str("--exclude=./").concat(string_of(&c).as_str()));
            assert(strs(r@) =~= before.push("--exclude=./"@ + c@));
            assert(head + extra_exclude_args(all.take(i as int)).push("--exclude=./"@ + c@) =~= (head
                + extra_exclude_args(all.take(i as int))).push("--exclude=./"@ + c@));
        }
        i += 1;
    }
    assert(all.take(extras.len() as int) =~= all);
    let ghost mid = strs(r@);
    r.push(String::from_str("-C"));
    r.push(String::from_str(public));
    r.push(String::from_str("."));
    assert(strs(r@) =~= mid + seq!["-C"@, public@, "."@]);
    r
}

/// How `tar` ended: 0 is success, 1 a warning that is not fatal (files that
/// changed while being read in a live site; the archive is valid), anything
/// else (or no exit code, given as -1) a failure.
#[derive(Debug, PartialEq, Eq, Structural)]
pub enum TarStatus {
    Clean,
    Warned,
    Failed,
}

pub fn tar_status(code: i32) -> (r: TarStatus)
    ensures
        r == (if code == 0 {
            TarStatus::Clean
        } else if code == 1 {
            TarStatus::Warned
        } else {
            TarStatus::Failed
        }),
{
    if code == 0 {
        TarStatus::Clean
    } else if code == 1 {
        TarStatus::Warned
    } else {
        TarStatus::Failed
    }
}

/// The error when `tar` fails.
pub fn tar_failure_message(code: i32, stderr: &str) -> (r: String)
    ensures
        r@ == "tar falló (código "@ + int_text(code as int)
            + ") al crear el snapshot de código:\n"@ + trim(stderr@, CharClass::Whitespace),
{
    let t = trim_vec(&chars_of(stderr), CharClass::Whitespace);
    String::from_str("tar falló (código ").concat(int_string(code as i64).as_str()).concat(
        ") al crear el snapshot de código:\n",
    ).concat(string_of(&t).as_str())
}

/// The first line of the trimmed error output (empty when there is none).
pub open spec fn first_line(s: Seq<char>) -> Seq<char> {
    let ls = lines_seq(trim(s, CharClass::Whitespace));
    if ls.len() > 0 {
        ls[0]
    } else {
        Seq::<char>::empty()
    }
}

/// The progress line when `tar` warned.
pub fn tar_warning_line(stderr: &str) -> (r: String)
    ensures
        r@ == "      ⚠ tar avisó de archivos que cambiaron durante la copia (no fatal): "@
            + first_line(stderr@),
{
    let t = trim_vec(&chars_of(stderr), CharClass::Whitespace);
    let ls = lines_vec(&t);
    let first = if ls.len() > 0 {
        string_of(&ls[0])
    } else {
        String::new()
    };
    proof {
        if ls.len() > 0 {
            assert(crate::text::vv(ls@)[0] == ls@[0]@);
        }
    }
    String::from_str("      ⚠ tar avisó de archivos que cambiaron durante la copia (no fatal): ").concat(
        first.as_str(),
    )
}

fn copy_strings(v: &Vec<String>) -> (r: Vec<String>)
    ensures
        strs(r@) == strs(v@),
{
    let mut r: Vec<String> = Vec::new();
    let mut i: usize = 0;
    while i < v.len()
        invariant
            i <= v.len(),
            strs(r@) == strs(v@).take(i as int),
        decreases v.len() - i,
    {
        let ghost before = strs(r@);
        r.push(String::from_str(v[i].as_str()));
        assert(strs(v@)[i as int] == v@[i as int]@);
        assert(strs(r@) =~= before.push(v@[i as int]@));
        assert(strs(r@) =~= strs(v@).take(i as int + 1));
        i += 1;
    }
    assert(strs(v@).take(v.len() as int) =~= strs(v@));
    r
}

/// The record of a new save point of `site`.
pub fn new_meta(
    id: &str,
    label: &str,
    created_at: &str,
    site: &SiteConfig,
    code_bytes: u64,
    db_bytes: u64,
) -> (r: SnapshotMeta)
    ensures
        r.id@ == id@,
        r.label@ == label@,
        r.created_at@ == created_at@,
        r.db_name@ == site.services.db.db_name@,
        r.db_type == site.services.db.db_type,
        r.code_bytes == code_bytes,
        r.db_bytes == db_bytes,
        strs(r.excludes@) == strs(site.snapshot_excludes@),
{
    SnapshotMeta {
        id: String::from_str(id),
        label: String::from_str(label),
        created_at: String::from_str(created_at),
        db_name: String::from_str(site.services.db.db_name.as_str()),
        db_type: site.services.db.db_type,
        code_bytes,
        db_bytes,
        excludes: copy_strings(&site.snapshot_excludes),
    }
}

// ---------------------------------------------------------------------------
// Listing
// ---------------------------------------------------------------------------

impl Ranked for SnapshotMeta {
    /// Newest first: a later creation time goes first.
    open spec fn ranks_before(&self, other: &Self) -> bool {
        seq_lt(other.created_at@, self.created_at@)
    }

    fn goes_before(&self, other: &Self) -> (r: bool) {
        vec_lt(&chars_of(other.created_at.as_str()), &chars_of(self.created_at.as_str()))
    }
}

/// The save points as listed: newest first (by creation time, ties keeping
/// their order).
pub fn newest_first(metas: Vec<SnapshotMeta>) -> (r: Vec<SnapshotMeta>)
    ensures
        r@ == sort_ranked(metas@),
{
    sort_stable(metas)
}

// ---------------------------------------------------------------------------
// Excludable folders
// ---------------------------------------------------------------------------

/// An entry as plain values: path, size, known, plugin.
pub open spec fn entry_view(e: ExcludableEntry) -> (Seq<char>, u64, bool, Option<Seq<char>>) {
    (
        e.path@,
        e.bytes,
        e.known,
        match e.label {
            Some(l) => Some(l@),
            None => None,
        },
    )
}

/// Bigger folders first.
pub open spec fn bigger(a: (Seq<char>, u64, bool, Option<Seq<char>>), b: (Seq<char>, u64, bool, Option<Seq<char>>)) -> bool {
    a.1 > b.1
}

impl Ranked for ExcludableEntry {
    open spec fn ranks_before(&self, other: &Self) -> bool {
        self.bytes > other.bytes
    }

    fn goes_before(&self, other: &Self) -> (r: bool) {
        self.bytes > other.bytes
    }
}

/// The entries for the folders directly under `wp-content` (`dirs`: name and
/// size of each), except `uploads` and `cache`, which are always left out.
pub open spec fn wp_content_entries(dirs: Seq<(Seq<char>, u64)>) -> Seq<(Seq<char>, u64, bool, Option<Seq<char>>)>
    decreases dirs.len(),
{
    if dirs.len() == 0 {
        Seq::empty()
    } else {
        let rest = wp_content_entries(dirs.drop_last());
        let (name, bytes) = dirs.last();
        if name == "uploads"@ || name == "cache"@ {
            rest
        } else {
            let rel = "wp-content/"@ + name;
            rest.push((rel, bytes, known_from(rel, 0) is Some, known_from(rel, 0)))
        }
    }
}

/// The known backup folders from entry `k` on that exist (`sizes[k]`) and are
/// not among `listed`.
pub open spec fn known_entries(
    listed: Seq<(Seq<char>, u64, bool, Option<Seq<char>>)>,
    sizes: Seq<Option<u64>>,
    k: int,
) -> Seq<(Seq<char>, u64, bool, Option<Seq<char>>)>
    decreases k,
{
    if k <= 0 || k > known_dirs().len() {
        Seq::empty()
    } else {
        let rest = known_entries(listed, sizes, k - 1);
        let (rel, label) = known_dirs()[k - 1];
        if (exists|i: int| 0 <= i < listed.len() && (#[trigger] listed[i]).0 == rel) {
            rest
        } else {
            match sizes[k - 1] {
                Some(b) => rest.push((rel, b, true, Some(label))),
                None => rest,
            }
        }
    }
}

fn entry_of(rel: &str, bytes: u64) -> (r: ExcludableEntry)
    ensures
        entry_view(r) == (rel@, bytes, known_from(rel@, 0) is Some, known_from(rel@, 0)),
{
    let (known, label) = known_backup(rel);
    ExcludableEntry { path: String::from_str(rel), bytes, known, label }
}

/// The folders a save point may leave out, biggest first: each folder
/// directly under `wp-content` but `uploads` and `cache` (`dirs`: name and
/// size), then the known backup folders elsewhere that exist (`known_sizes`:
/// the size of each entry of the known list, none when it is not a folder).
pub fn excludable_entries(dirs: &Vec<(String, u64)>, known_sizes: &Vec<Option<u64>>) -> (r: Vec<ExcludableEntry>)
    requires
        known_sizes@.len() == known_dirs().len(),
    ensures
        r@.map_values(|e: ExcludableEntry| entry_view(e)) == sort_by(
            {
                let a = wp_content_entries(dirs@.map_values(|d: (String, u64)| (d.0@, d.1)));
                a + known_entries(a, known_sizes@, known_dirs().len() as int)
            },
            |x: (Seq<char>, u64, bool, Option<Seq<char>>), y: (Seq<char>, u64, bool, Option<Seq<char>>)|
                bigger(x, y),
        ),
{
    let ghost dv = dirs@.map_values(|d: (String, u64)| (d.0@, d.1));
    let mut out: Vec<ExcludableEntry> = Vec::new();
    let mut i: usize = 0;
    assert(dv.take(0) =~= Seq::<(Seq<char>, u64)>::empty());
    while i < dirs.len()
        invariant
            i <= dirs.len(),
            dv == dirs@.map_values(|d: (String, u64)| (d.0@, d.1)),
            out@.map_values(|e: ExcludableEntry| entry_view(e)) == wp_content_entries(dv.take(i as int)),
        decreases dirs.len() - i,
    {
        assert(dv.take(i as int + 1).drop_last() =~= dv.take(i as int));
        assert(dv.take(i as int + 1).last() == (dirs@[i as int].0@, dirs@[i as int].1));
        let name = chars_of(dirs[i].0.as_str());
        if !(vec_eq_str(&name, "uploads") || vec_eq_str(&name, "cache")) {
            let rel = String::from_str("wp-content/").concat(dirs[i].0.as_str());
            let ghost before = out@.map_values(|e: ExcludableEntry| entry_view(e));
            let e = entry_of(rel.as_str(), dirs[i].1);
            out.push(e);
            assert(out@.map_values(|e: ExcludableEntry| entry_view(e)) =~= before.push(entry_view(e)));
        }
        i += 1;
    }
    assert(dv.take(dirs.len() as int) =~= dv);
    let ghost a = wp_content_entries(dv);
    let n_listed = out.len();
    let table = known_table();
    let mut k: usize = 0;
    assert(a + known_entries(a, known_sizes@, 0) =~= a);
    while k < table.len()
        invariant
            k <= table.len(),
            n_listed <= out@.len(),
            table@.len() == known_dirs().len(),
            known_sizes@.len() == known_dirs().len(),
            forall|j: int| 0 <= j < table@.len() ==> (#[trigger] table@[j]).0@ == known_dirs()[j].0
                && table@[j].1@ == known_dirs()[j].1,
            a.len() == n_listed,
            out@.map_values(|e: ExcludableEntry| entry_view(e)) == a + known_entries(a, known_sizes@, k as int),
        decreases table.len() - k,
    {
        let (rel, label) = table[k];
        let rv = chars_of(rel);
        let mut seen = false;
        let mut j: usize = 0;
        while j < n_listed
            invariant
                j <= n_listed,
                n_listed <= out@.len(),
                a.len() == n_listed,
                rv@ == rel@,
                out@.map_values(|e: ExcludableEntry| entry_view(e)) == a + known_entries(a, known_sizes@, k as int),
                seen == exists|m: int| 0 <= m < j && (#[trigger] a[m]).0 == rel@,
            decreases n_listed - j,
        {
            assert(out@.map_values(|e: ExcludableEntry| entry_view(e))[j as int] == entry_view(
                out@[j as int],
            ));
            assert((a + known_entries(a, known_sizes@, k as int))[j as int] == a[j as int]);
            assert(entry_view(out@[j as int]) == a[j as int]);
            if vec_eq_str(&rv, out[j].path.as_str()) {
                seen = true;
            }
            j += 1;
        }
        let ghost before = out@.map_values(|e: ExcludableEntry| entry_view(e));
        if !seen {
            match known_sizes[k] {
                Some(b) => {
                    let e = ExcludableEntry {
                        path: String::from_str(rel),
                        bytes: b,
                        known: true,
                        label: Some(String::from_str(label)),
                    };
                    out.push(e);
                    assert(out@.map_values(|e: ExcludableEntry| entry_view(e)) =~= before.push(entry_view(e)));
                    assert(a + known_entries(a, known_sizes@, k as int).push(entry_view(e)) =~= (a
                        + known_entries(a, known_sizes@, k as int)).push(entry_view(e)));
                },
                None => {},
            }
        }
        k += 1;
    }
    let ghost collected = out@;
    let r = sort_stable(out);
    proof {
        lemma_sort_map(
            collected,
            |e: ExcludableEntry| entry_view(e),
            |x: (Seq<char>, u64, bool, Option<Seq<char>>), y: (Seq<char>, u64, bool, Option<Seq<char>>)|
                bigger(x, y),
        );
    }
    r
}

/// `new_meta` stamped with the current time; `None` when the system gives no
/// current time.
pub fn new_meta_now(id: &str, label: &str, site: &SiteConfig, code_bytes: u64, db_bytes: u64) -> (res: Option<SnapshotMeta>)
    ensures
        res matches Some(r) ==> {
            &&& r.id@ == id@
            &&& r.label@ == label@
            &&& crate::clock::is_rfc3339_utc(r.created_at@)
            &&& r.db_name@ == site.services.db.db_name@
            &&& r.db_type == site.services.db.db_type
            &&& r.code_bytes == code_bytes
            &&& r.db_bytes == db_bytes
            &&& strs(r.excludes@) == strs(site.snapshot_excludes@)
        },
{
    match crate::clock::now_rfc3339() {
        Some(now) => Some(new_meta(id, label, now.as_str(), site, code_bytes, db_bytes)),
        None => None,
    }
}

/// The extra exclusions as stored: each cleaned as for `tar`, empty ones
/// dropped, sorted, repeats removed.
pub open spec fn dedup_sorted(s: Seq<Seq<char>>) -> Seq<Seq<char>>
    decreases s.len(),
{
    if s.len() == 0 {
        s
    } else {
        let rest = dedup_sorted(s.drop_last());
        if rest.len() > 0 && rest.last() == s.last() {
            rest
        } else {
            rest.push(s.last())
        }
    }
}

pub open spec fn cleaned_excludes(v: Seq<Seq<char>>) -> Seq<Seq<char>>
    decreases v.len(),
{
    if v.len() == 0 {
        v
    } else {
        let rest = cleaned_excludes(v.drop_last());
        let c = clean_exclude_seq(v.last());
        if c.len() == 0 {
            rest
        } else {
            rest.push(c)
        }
    }
}

pub fn clean_excludes(excludes: Vec<String>) -> (r: Vec<String>)
    ensures
        exists|cleaned: Seq<String>|
            #![trigger cleaned.len()]
            strs(cleaned) == cleaned_excludes(strs(excludes@)) && strs(r@) == dedup_sorted(
                strs(sort_ranked(cleaned)),
            ),
{
    let ghost all = strs(excludes@);
    let mut c: Vec<String> = Vec::new();
    let mut i: usize = 0;
    assert(all.take(0) =~= Seq::<Seq<char>>::empty());
    while i < excludes.len()
        invariant
            i <= excludes.len(),
            all == strs(excludes@),
            strs(c@) == cleaned_excludes(all.take(i as int)),
        decreases excludes.len() - i,
    {
        assert(all.take(i as int + 1).drop_last() =~= all.take(i as int));
        assert(all.take(i as int + 1).last() == excludes@[i as int]@);
        let x = clean_exclude(excludes[i].as_str());
        if x.len() > 0 {
            let ghost before = strs(c@);
            c.push(string_of(&x));
            assert(strs(c@) =~= before.push(x@));
        }
        i += 1;
    }
    assert(all.take(excludes.len() as int) =~= all);
    let ghost cleaned = c@;
    let sorted = sort_stable(c);
    let ghost sv = strs(sorted@);
    let mut out: Vec<String> = Vec::new();
    let mut k: usize = 0;
    assert(sv.take(0) =~= Seq::<Seq<char>>::empty());
    while k < sorted.len()
        invariant
            k <= sorted.len(),
            sv == strs(sorted@),
            strs(out@) == dedup_sorted(sv.take(k as int)),
        decreases sorted.len() - k,
    {
        assert(sv.take(k as int + 1).drop_last() =~= sv.take(k as int));
        assert(sv.take(k as int + 1).last() == sorted@[k as int]@);
        let ghost before = strs(out@);
        let dup = out.len() > 0 && crate::text::str_eq(out[out.len() - 1].as_str(), sorted[k].as_str());
        proof {
            if out@.len() > 0 {
                assert(before.last() == out@[out@.len() - 1]@);
            }
        }
        if !dup {
            out.push(String::from_str(sorted[k].as_str()));
            assert(strs(out@) =~= before.push(sorted@[k as int]@));
        }
        k += 1;
    }
    assert(sv.take(sorted.len() as int) =~= sv);
    out
}

/// Save points are listed newest first, none lost or added.
pub proof fn law_snapshots_newest_first(s: Seq<SnapshotMeta>)
    ensures
        crate::order::is_ranked(sort_ranked(s)),
        sort_ranked(s).to_multiset() == s.to_multiset(),
{
    assert forall|a: SnapshotMeta, b: SnapshotMeta| #[trigger] a.ranks_before(&b) implies !b.ranks_before(&a) by {
        crate::text::lemma_seq_lt_asym(b.created_at@, a.created_at@);
    }
    assert forall|a: SnapshotMeta, b: SnapshotMeta, c: SnapshotMeta|
        #![trigger a.ranks_before(&b), b.ranks_before(&c)]
        !a.ranks_before(&b) && !b.ranks_before(&c) implies !a.ranks_before(&c) by {
        crate::text::lemma_seq_not_lt_trans(c.created_at@, b.created_at@, a.created_at@);
    }
    crate::order::law_sort_ranked(s);
}

/// Excludable folders are listed biggest first, none lost or added.
pub proof fn law_excludable_biggest_first(s: Seq<ExcludableEntry>)
    ensures
        crate::order::is_ranked(sort_ranked(s)),
        sort_ranked(s).to_multiset() == s.to_multiset(),
{
    crate::order::law_sort_ranked(s);
}

} // verus!
