//! Bringing a project to this system: a project folder copied from another
//! machine, or imported from LocalWP, is marked pending; migrating it creates
//! its database, rewrites `wp-config.php`, imports the newest dump of
//! `app/sql/`, makes its certificate and starts it.
//!
//! The import feeds the dump to the database container's `mysql` through
//! stdin, shows a live counter, and is cancelled by a watchdog when neither
//! the input nor the database's size has moved for three minutes.

use vstd::prelude::*;

use crate::config::SiteConfig;
use crate::text::{
    chars_of, dec_seq, dec_string, lines_seq, lines_vec, parse_dec, parse_uint_spec, push_char,
    string_of, trim, trim_vec, vv, CharClass,
};

verus! {

broadcast use vstd::string::group_string_axioms;

/// What migrating gives back: the updated project and an optional notice for
/// the interface (such as "there was no dump").
#[derive(Debug)]
pub struct Migration {
    pub site: SiteConfig,
    pub note: Option<String>,
}

/// The notice when `app/sql/` held no dump.
pub fn no_dump_note() -> (r: String)
    ensures
        r@ == "No había dump en app/sql/: el sitio arranca con la base de datos vacía."@,
{
    String::from_str("No había dump en app/sql/: el sitio arranca con la base de datos vacía.")
}

/// `https` when the project serves TLS, else `http`.
pub fn url_scheme(ssl: bool) -> (r: &'static str)
    ensures
        r@ == (if ssl {
            "https"@
        } else {
            "http"@
        }),
{
    if ssl {
        "https"
    } else {
        "http"
    }
}

/// The project as recorded once migrated at `now`.
pub fn mark_migrated(site: &mut SiteConfig, now: &str)
    ensures
        final(site).migration_pending == false,
        final(site).last_migrated_at matches Some(t) && t@ == now@,
        final(site).id == old(site).id,
        final(site).name == old(site).name,
        final(site).path == old(site).path,
        final(site).domain == old(site).domain,
        final(site).group == old(site).group,
        final(site).created_at == old(site).created_at,
        final(site).services == old(site).services,
        final(site).github == old(site).github,
        final(site).one_click_admin == old(site).one_click_admin,
        final(site).xdebug_enabled == old(site).xdebug_enabled,
        final(site).headless == old(site).headless,
        final(site).frontend_framework == old(site).frontend_framework,
        final(site).minio == old(site).minio,
        final(site).clone_of == old(site).clone_of,
        final(site).worktree_of == old(site).worktree_of,
        final(site).snapshot_excludes == old(site).snapshot_excludes,
{
    site.migration_pending = false;
    site.last_migrated_at = Some(String::from_str(now));
}

// ---------------------------------------------------------------------------
// Picking the dump
// ---------------------------------------------------------------------------

/// `Path::extension` of a file name is `sql`: the name ends in `.sql` and that
/// `.` is not its first character.
pub open spec fn is_sql_name(name: Seq<char>) -> bool {
    &&& name.len() >= 5
    &&& name.subrange(name.len() - 4, name.len() as int) == ".sql"@
}

fn sql_name(name: &str) -> (r: bool)
    ensures
        r == is_sql_name(name@),
{
    let v = chars_of(name);
    let n = v.len();
    if n < 5 {
        return false;
    }
    let r = v[n - 4] == '.' && v[n - 3] == 's' && v[n - 2] == 'q' && v[n - 1] == 'l';
    proof {
        reveal_strlit(".sql");
        if r {
            assert(v@.subrange(n - 4, n as int) =~= ".sql"@);
        } else {
            let t = v@.subrange(n - 4, n as int);
            if t == ".sql"@ {
                assert(t[0] == v@[n - 4]);
                assert(t[1] == v@[n - 3]);
                assert(t[2] == v@[n - 2]);
                assert(t[3] == v@[n - 1]);
            }
        }
    }
    r
}

/// The newest dump among the files of `app/sql/` (`entries`: path, file name
/// and modification time of each): the first file ending in `.sql` with the
/// greatest time.
pub open spec fn latest_dump_seq(entries: Seq<(Seq<char>, Seq<char>, u128)>) -> Option<(Seq<char>, u128)>
    decreases entries.len(),
{
    if entries.len() == 0 {
        None
    } else {
        let prev = latest_dump_seq(entries.drop_last());
        let (path, name, mtime) = entries.last();
        if !is_sql_name(name) {
            prev
        } else {
            match prev {
                Some((p, t)) => if mtime > t {
                    Some((path, mtime))
                } else {
                    Some((p, t))
                },
                None => Some((path, mtime)),
            }
        }
    }
}

pub open spec fn entries_view(entries: Seq<(String, String, u128)>) -> Seq<(Seq<char>, Seq<char>, u128)> {
    entries.map_values(|e: (String, String, u128)| (e.0@, e.1@, e.2))
}

/// The path of the newest dump, if any.
pub fn latest_dump(entries: &Vec<(String, String, u128)>) -> (r: Option<String>)
    ensures
        match latest_dump_seq(entries_view(entries@)) {
            Some((p, t)) => r matches Some(s) && s@ == p,
            None => r is None,
        },
{
    let ghost all = entries_view(entries@);
    let mut best: Option<(usize, u128)> = None;
    let mut i: usize = 0;
    assert(all.take(0) =~= Seq::<(Seq<char>, Seq<char>, u128)>::empty());
    while i < entries.len()
        invariant
            i <= entries.len(),
            all == entries_view(entries@),
            match latest_dump_seq(all.take(i as int)) {
                Some((p, t)) => best matches Some((k, bt)) && k < i && entries@[k as int].0@ == p && bt
                    == t,
                None => best is None,
            },
        decreases entries.len() - i,
    {
        assert(all.take(i as int + 1).drop_last() =~= all.take(i as int));
        assert(all.take(i as int + 1).last() == (entries@[i as int].0@, entries@[i as int].1@, entries@[i as int].2));
        let (_, name, mtime) = &entries[i];
        if sql_name(name.as_str()) {
            match best {
                Some((_, t)) => {
                    if *mtime > t {
                        best = Some((i, *mtime));
                    }
                },
                None => {
                    best = Some((i, *mtime));
                },
            }
        }
        i += 1;
    }
    assert(all.take(entries.len() as int) =~= all);
    match best {
        Some((k, _)) => Some(String::from_str(entries[k].0.as_str())),
        None => None,
    }
}

// ---------------------------------------------------------------------------
// The import
// ---------------------------------------------------------------------------

/// How long the import may go with neither input sent nor the database
/// growing before it is cancelled (three minutes).
pub const IMPORT_IDLE_TIMEOUT_MS: u64 = 180_000;

/// How often the counter and the watchdog run.
pub const IMPORT_TICK_MS: u64 = 2_000;

/// Bytes written to the importer's input per write.
pub const IMPORT_CHUNK: usize = 1_048_576;

/// Written before the dump: one transaction, no per-row unique and foreign
/// key checks (this is what makes a dump of tens of megabytes apply in
/// seconds rather than minutes).
pub const IMPORT_PREAMBLE: &'static str = "SET autocommit=0;\nSET unique_checks=0;\nSET foreign_key_checks=0;\n";

/// Written after the dump: the transaction's commit.
pub const IMPORT_EPILOGUE: &'static str = "\nCOMMIT;\n";

/// The pieces in which `len` bytes are written, `size` at a time: from 0 to
/// `len`, each following the one before, all of `size` bytes but the last,
/// which has between 1 and `size`.
pub open spec fn is_chunking(r: Seq<(usize, usize)>, len: usize, size: usize) -> bool {
    &&& len == 0 ==> r.len() == 0
    &&& len > 0 ==> r.len() > 0 && r[0].0 == 0 && r.last().1 == len
    &&& forall|i: int| 0 <= i < r.len() ==> 0 < (#[trigger] r[i]).1 - r[i].0 <= size
    &&& forall|i: int| 0 <= i < r.len() - 1 ==> (#[trigger] r[i]).1 == r[i + 1].0 && r[i].1 - r[i].0 == size
}

pub fn chunk_ranges(len: usize, size: usize) -> (r: Vec<(usize, usize)>)
    requires
        size > 0,
    ensures
        is_chunking(r@, len, size),
{
    let mut r: Vec<(usize, usize)> = Vec::new();
    let mut start: usize = 0;
    while start < len
        invariant
            size > 0,
            start <= len,
            r@.len() == 0 ==> start == 0,
            r@.len() > 0 ==> r@[0].0 == 0 && r@.last().1 == start,
            forall|i: int| 0 <= i < r@.len() ==> 0 < (#[trigger] r@[i]).1 - r@[i].0 <= size,
            forall|i: int| 0 <= i < r@.len() - 1 ==> (#[trigger] r@[i]).1 == r@[i + 1].0 && r@[i].1 - r@[i].0 == size,
            r@.len() > 0 && start < len ==> r@.last().1 - r@.last().0 == size,
        decreases len - start,
    {
        let end = if len - start > size {
            start + size
        } else {
            len
        };
        r.push((start, end));
        start = end;
    }
    r
}

/// The `mysql` arguments that run `sql` and print only its values.
pub fn query_args(sql: &str) -> (r: Vec<String>)
    ensures
        r@.len() == 7,
        r@[0]@ == "mysql"@,
        r@[1]@ == "-uroot"@,
        r@[2]@ == "-ppanel"@,
        r@[3]@ == "-N"@,
        r@[4]@ == "-B"@,
        r@[5]@ == "-e"@,
        r@[6]@ == sql@,
{
    vec![
        String::from_str("mysql"),
        String::from_str("-uroot"),
        String::from_str("-ppanel"),
        String::from_str("-N"),
        String::from_str("-B"),
        String::from_str("-e"),
        String::from_str(sql),
    ]
}

/// The line when the watchdog cancels the import.
pub fn import_cancel_line() -> (r: String)
    ensures
        r@ == "      ✗ Import sin avance por 3 min: cancelando y restaurando la DB…"@,
{
    String::from_str("      ✗ Import sin avance por 3 min: cancelando y restaurando la DB…")
}

/// The line once the database was emptied again after a cancelled import.
pub fn import_restored_line() -> (r: String)
    ensures
        r@ == "      ✓ DB restaurada (vacía)."@,
{
    String::from_str("      ✓ DB restaurada (vacía).")
}

/// The `docker` arguments that run the container's `mysql` client on
/// `db_name`, reading the dump from stdin.
pub fn import_args(db_container: &str, db_name: &str) -> (r: Vec<String>)
    ensures
        r@.len() == 7,
        r@[0]@ == "exec"@,
        r@[1]@ == "-i"@,
        r@[2]@ == db_container@,
        r@[3]@ == "mysql"@,
        r@[4]@ == "-uroot"@,
        r@[5]@ == "-ppanel"@,
        r@[6]@ == db_name@,
{
    vec![
        String::from_str("exec"),
        String::from_str("-i"),
        String::from_str(db_container),
        String::from_str("mysql"),
        String::from_str("-uroot"),
        String::from_str("-ppanel"),
        String::from_str(db_name),
    ]
}

/// The query for the database's current size in bytes.
pub fn db_size_query(db_name: &str) -> (r: String)
    ensures
        r@ == "SELECT COALESCE(SUM(data_length+index_length),0) FROM information_schema.tables WHERE table_schema='"@
            + db_name@ + "'"@,
{
    String::from_str(
        "SELECT COALESCE(SUM(data_length+index_length),0) FROM information_schema.tables WHERE table_schema='",
    ).concat(db_name).concat("'")
}

/// The number the size query printed: the last line that, trimmed, is an
/// unsigned integer (the client also prints a password warning); 0 when none
/// is.
pub open spec fn size_in_lines(lines: Seq<Seq<char>>) -> u64
    decreases lines.len(),
{
    if lines.len() == 0 {
        0
    } else {
        match parse_uint_spec(trim(lines.last(), CharClass::Whitespace), 10, u64::MAX as nat) {
            Some(n) => n as u64,
            None => size_in_lines(lines.drop_last()),
        }
    }
}

pub fn db_size_from_output(out: &str) -> (r: u64)
    ensures
        r == size_in_lines(lines_seq(out@)),
{
    let lines = lines_vec(&chars_of(out));
    let ghost all = vv(lines@);
    let mut i = lines.len();
    assert(all.take(i as int) =~= all);
    while i > 0
        invariant
            i <= lines.len(),
            all == vv(lines@),
            all == lines_seq(out@),
            size_in_lines(all) == size_in_lines(all.take(i as int)),
        decreases i,
    {
        let t = trim_vec(&lines[i - 1], CharClass::Whitespace);
        assert(all.take(i as int).last() == lines@[i - 1]@);
        assert(all.take(i as int).drop_last() =~= all.take(i - 1));
        match parse_dec(&t, u64::MAX) {
            Some(n) => {
                return n;
            },
            None => {},
        }
        i -= 1;
    }
    assert(all.take(lines.len() as int) =~= all);
    0
}

/// The watchdog's state: the largest database size seen, and the time of the
/// last sign of progress (written input or a larger database), in
/// milliseconds since the import began.
pub open spec fn watchdog_next(max_db_bytes: u64, last_activity_ms: u64, now_ms: u64, db_bytes: u64) -> (u64, u64, bool) {
    let (m, l) = if db_bytes > max_db_bytes {
        (db_bytes, now_ms)
    } else {
        (max_db_bytes, last_activity_ms)
    };
    let idle: int = if now_ms >= l {
        now_ms - l
    } else {
        0
    };
    (m, l, idle >= IMPORT_IDLE_TIMEOUT_MS)
}

/// One tick of the watchdog at `now_ms` with the database at `db_bytes`:
/// growth counts as progress; the import has stalled when the time since the
/// last progress reaches the timeout. Returns the new state and whether it
/// stalled.
pub fn watchdog_tick(max_db_bytes: u64, last_activity_ms: u64, now_ms: u64, db_bytes: u64) -> (r: (u64, u64, bool))
    ensures
        r == watchdog_next(max_db_bytes, last_activity_ms, now_ms, db_bytes),
{
    let (m, l) = if db_bytes > max_db_bytes {
        (db_bytes, now_ms)
    } else {
        (max_db_bytes, last_activity_ms)
    };
    let idle = now_ms.saturating_sub(l);
    (m, l, idle >= IMPORT_IDLE_TIMEOUT_MS)
}

/// `n` copies of `c`.
pub open spec fn repeat(c: char, n: nat) -> Seq<char> {
    Seq::new(n, |i: int| c)
}

/// How many of `width` cells are filled for `done` of `total`.
pub open spec fn filled_cells(done: u64, total: u64, width: usize) -> int {
    if total == 0 {
        0
    } else {
        (if done < total {
            done as int
        } else {
            total as int
        }) * width / total as int
    }
}

/// A text progress bar of `width` cells: `━` for the part done, `─` for the
/// rest.
pub fn progress_bar(done: u64, total: u64, width: usize) -> (r: String)
    ensures
        0 <= filled_cells(done, total, width) <= width,
        r@ == repeat('━', filled_cells(done, total, width) as nat) + repeat(
            '─',
            (width - filled_cells(done, total, width)) as nat,
        ),
{
    let filled: usize = if total == 0 {
        0
    } else {
        let d: u128 = if done < total {
            done as u128
        } else {
            total as u128
        };
        proof {
            assert(d <= total);
            assert(d * (width as u128) <= (total as u128) * (width as u128)) by (nonlinear_arith)
                requires
                    d <= total,
            ;
            assert((total as int) * (width as int) < 0x1_0000_0000_0000_0000_0000_0000_0000_0000)
                by (nonlinear_arith)
                requires
                    total < 0x1_0000_0000_0000_0000,
                    width < 0x1_0000_0000_0000_0000,
            ;
            assert((d as int) * (width as int) / (total as int) <= width as int) by (nonlinear_arith)
                requires
                    d <= total,
                    total > 0,
            ;
        }
        let f = d * (width as u128) / (total as u128);
        f as usize
    };
    let mut s = String::new();
    let mut i: usize = 0;
    while i < filled
        invariant
            i <= filled,
            s@ == repeat('━', i as nat),
        decreases filled - i,
    {
        push_char(&mut s, '━');
        assert(s@ =~= repeat('━', i as nat + 1));
        i += 1;
    }
    let ghost head = s@;
    let mut j: usize = 0;
    while j < width - filled
        invariant
            j <= width - filled,
            filled <= width,
            s@ == head + repeat('─', j as nat),
        decreases width - filled - j,
    {
        push_char(&mut s, '─');
        assert(s@ =~= head + repeat('─', j as nat + 1));
        j += 1;
    }
    s
}

/// Two-digit decimal text, padded with `0`.
pub open spec fn two_digits(n: nat) -> Seq<char> {
    if n < 10 {
        "0"@ + dec_seq(n)
    } else {
        dec_seq(n)
    }
}

/// The live counter line: megabytes sent of the total, the bar (24 cells) and
/// the time taken as `m:ss`.
pub fn progress_line(sent: u64, total: u64, secs: u64) -> (r: String)
    ensures
        r@ == "      "@ + dec_seq((sent / 1_048_576) as nat) + "/"@ + dec_seq((total / 1_048_576) as nat)
            + " MB "@ + repeat('━', filled_cells(sent, total, 24) as nat) + repeat(
            '─',
            (24 - filled_cells(sent, total, 24)) as nat,
        ) + " "@ + dec_seq((secs / 60) as nat) + ":"@ + two_digits((secs % 60) as nat),
{
    let ss = secs % 60;
    let pad = if ss < 10 {
        String::from_str("0").concat(dec_string(ss).as_str())
    } else {
        dec_string(ss)
    };
    String::from_str("      ").concat(dec_string(sent / 1_048_576).as_str()).concat("/").concat(
        dec_string(total / 1_048_576).as_str(),
    ).concat(" MB ").concat(progress_bar(sent, total, 24).as_str()).concat(" ").concat(
        dec_string(secs / 60).as_str(),
    ).concat(":").concat(pad.as_str())
}

/// The error when the import command fails.
pub fn import_failure_message(db_container: &str, stderr: &str) -> (r: String)
    ensures
        r@ == "import del dump falló en "@ + db_container@ + ": "@ + trim(
            stderr@,
            CharClass::Whitespace,
        ),
{
    let t = trim_vec(&chars_of(stderr), CharClass::Whitespace);
    String::from_str("import del dump falló en ").concat(db_container).concat(": ").concat(
        string_of(&t).as_str(),
    )
}

/// The error when the watchdog cancelled the import.
pub fn import_stalled_message() -> (r: String)
    ensures
        r@ == "import cancelado: sin actividad por 3 min. La DB se restauró vacía; reintenta la migración para importar de nuevo."@,
{
    String::from_str(
        "import cancelado: sin actividad por 3 min. La DB se restauró vacía; reintenta la migración para importar de nuevo.",
    )
}

/// The `wp` arguments that set the option `opt` (`home` or `siteurl`) to
/// `url`, skipping plugins and themes (a migrated site may bring a plugin that
/// hangs while loading).
pub fn set_url_args(opt: &str, url: &str) -> (r: Vec<String>)
    ensures
        r@.len() == 6,
        r@[0]@ == "--skip-plugins"@,
        r@[1]@ == "--skip-themes"@,
        r@[2]@ == "option"@,
        r@[3]@ == "update"@,
        r@[4]@ == opt@,
        r@[5]@ == url@,
{
    vec![
        String::from_str("--skip-plugins"),
        String::from_str("--skip-themes"),
        String::from_str("option"),
        String::from_str("update"),
        String::from_str(opt),
        String::from_str(url),
    ]
}

// ---------------------------------------------------------------------------
// The migration, step by step
// ---------------------------------------------------------------------------

/// What migrating a project does once its folder was checked and the panel's
/// mu-plugins synchronised, in order. The caller performs each action.
#[derive(Debug, Clone, Copy, PartialEq, Eq, Structural)]
pub enum MigrationStep {
    /// The shared engine up and the project's schema created (if missing).
    PrepareDatabase,
    /// The TLS certificate, made before nginx loads the vhost that names it.
    GenerateCert,
    /// TLS is off: no certificate.
    SkipCert,
    /// The PHP container, the vhost and nginx.
    Start,
    /// `wp-config.php` rewritten with the panel's credentials.
    WpConfig,
    /// The newest dump imported.
    ImportDump,
    /// No dump: the site starts with an empty database.
    NoDump,
    /// `home` and `siteurl` set to the panel's domain (a failure here is only
    /// a warning).
    FixUrls,
}

/// The steps of a migration: the certificate step depends on TLS, the import
/// and the URL fix on whether `app/sql/` holds a dump.
pub open spec fn migration_steps(ssl: bool, has_dump: bool) -> Seq<MigrationStep> {
    seq![
        MigrationStep::PrepareDatabase,
        if ssl {
            MigrationStep::GenerateCert
        } else {
            MigrationStep::SkipCert
        },
        MigrationStep::Start,
        MigrationStep::WpConfig,
    ] + if has_dump {
        seq![MigrationStep::ImportDump, MigrationStep::FixUrls]
    } else {
        seq![MigrationStep::NoDump]
    }
}

pub fn migration_plan(ssl: bool, has_dump: bool) -> (r: Vec<MigrationStep>)
    ensures
        r@ == migration_steps(ssl, has_dump),
{
    let mut r = vec![MigrationStep::PrepareDatabase];
    r.push(
        if ssl {
            MigrationStep::GenerateCert
        } else {
            MigrationStep::SkipCert
        },
    );
    r.push(MigrationStep::Start);
    r.push(MigrationStep::WpConfig);
    if has_dump {
        r.push(MigrationStep::ImportDump);
        r.push(MigrationStep::FixUrls);
    } else {
        r.push(MigrationStep::NoDump);
    }
    assert(r@ =~= migration_steps(ssl, has_dump));
    r
}

/// `{scheme}://{domain}` of the project.
pub open spec fn site_address(site: SiteConfig) -> Seq<char> {
    (if site.services.nginx.ssl {
        "https"@
    } else {
        "http"@
    }) + "://"@ + site.domain@
}

fn address(site: &SiteConfig) -> (r: String)
    ensures
        r@ == site_address(*site),
{
    String::from_str(url_scheme(site.services.nginx.ssl)).concat("://").concat(site.domain.as_str())
}

/// The lines that open a migration: the project, then where it will answer.
pub fn migration_intro(site: &SiteConfig) -> (r: (String, String))
    ensures
        r.0@ == "▶ Migrando «"@ + site.name@ + "» a este sistema."@,
        r.1@ == "  Destino: "@ + site_address(*site),
{
    (
        String::from_str("▶ Migrando «").concat(site.name.as_str()).concat("» a este sistema."),
        String::from_str("  Destino: ").concat(address(site).as_str()),
    )
}

/// The lines announcing a step (`dump_name` and `dump_mb` describe the dump
/// imported).
pub open spec fn migration_header_seq(step: MigrationStep, site: SiteConfig, dump_name: Seq<char>, dump_mb: u64) -> Seq<Seq<char>> {
    match step {
        MigrationStep::PrepareDatabase => seq![
            "[1/6] Base de datos: arrancando MySQL "@ + site.services.db.version@ + " compartido…"@,
            "      Creando el esquema «"@ + site.services.db.db_name@ + "» (si no existe)…"@,
        ],
        MigrationStep::GenerateCert => seq![
            "[2/6] SSL: generando certificado mkcert para "@ + site.domain@ + "…"@,
        ],
        MigrationStep::SkipCert => seq!["[2/6] SSL: desactivado para este proyecto, se omite."@],
        MigrationStep::Start => seq![
            "[3/6] Encendiendo el proyecto (la 1ª vez construye la imagen PHP, puede tardar)…"@,
        ],
        MigrationStep::WpConfig => seq!["[4/6] Regenerando wp-config.php con las credenciales del panel…"@],
        MigrationStep::ImportDump => seq![
            "[5/6] Importando la base de datos ("@ + dump_name + ", "@ + dec_seq(dump_mb as nat)
                + " MB), espera…"@,
        ],
        MigrationStep::NoDump => seq!["[5/6] No hay dump en app/sql/: el sitio arranca con la DB vacía."@],
        MigrationStep::FixUrls => seq!["[6/6] Ajustando URLs del sitio a "@ + site_address(site) + "…"@],
    }
}

pub fn migration_header(step: MigrationStep, site: &SiteConfig, dump_name: &str, dump_mb: u64) -> (r: Vec<String>)
    ensures
        r@.map_values(|s: String| s@) == migration_header_seq(step, *site, dump_name@, dump_mb),
{
    let r = match step {
        MigrationStep::PrepareDatabase => vec![
            String::from_str("[1/6] Base de datos: arrancando MySQL ").concat(
                site.services.db.version.as_str(),
            ).concat(" compartido…"),
            String::from_str("      Creando el esquema «").concat(site.services.db.db_name.as_str()).concat(
                "» (si no existe)…",
            ),
        ],
        MigrationStep::GenerateCert => vec![
            String::from_str("[2/6] SSL: generando certificado mkcert para ").concat(site.domain.as_str()).concat(
                "…",
            ),
        ],
        MigrationStep::SkipCert => vec![String::from_str("[2/6] SSL: desactivado para este proyecto, se omite.")],
        MigrationStep::Start => vec![
            String::from_str(
                "[3/6] Encendiendo el proyecto (la 1ª vez construye la imagen PHP, puede tardar)…",
            ),
        ],
        MigrationStep::WpConfig => vec![
            String::from_str("[4/6] Regenerando wp-config.php con las credenciales del panel…"),
        ],
        MigrationStep::ImportDump => vec![
            String::from_str("[5/6] Importando la base de datos (").concat(dump_name).concat(", ").concat(
                dec_string(dump_mb).as_str(),
            ).concat(" MB), espera…"),
        ],
        MigrationStep::NoDump => vec![
            String::from_str("[5/6] No hay dump en app/sql/: el sitio arranca con la DB vacía."),
        ],
        MigrationStep::FixUrls => vec![
            String::from_str("[6/6] Ajustando URLs del sitio a ").concat(address(site).as_str()).concat("…"),
        ],
    };
    assert(r@.map_values(|s: String| s@) =~= migration_header_seq(step, *site, dump_name@, dump_mb));
    r
}

/// The line once a step succeeded (none for the steps that say nothing more).
pub open spec fn migration_done_seq(step: MigrationStep) -> Option<Seq<char>> {
    match step {
        MigrationStep::PrepareDatabase => Some("      ✓ Base de datos lista."@),
        MigrationStep::GenerateCert => Some("      ✓ Certificado listo."@),
        MigrationStep::Start => Some("      ✓ Container del proyecto y nginx arriba."@),
        MigrationStep::WpConfig => Some("      ✓ wp-config.php regenerado."@),
        MigrationStep::ImportDump => Some("      ✓ Dump importado."@),
        MigrationStep::FixUrls => Some("      ✓ URLs (home/siteurl) actualizadas."@),
        _ => None,
    }
}

pub fn migration_done(step: MigrationStep) -> (r: Option<String>)
    ensures
        match migration_done_seq(step) {
            Some(t) => r matches Some(x) && x@ == t,
            None => r is None,
        },
{
    match step {
        MigrationStep::PrepareDatabase => Some(String::from_str("      ✓ Base de datos lista.")),
        MigrationStep::GenerateCert => Some(String::from_str("      ✓ Certificado listo.")),
        MigrationStep::Start => Some(String::from_str("      ✓ Container del proyecto y nginx arriba.")),
        MigrationStep::WpConfig => Some(String::from_str("      ✓ wp-config.php regenerado.")),
        MigrationStep::ImportDump => Some(String::from_str("      ✓ Dump importado.")),
        MigrationStep::FixUrls => Some(String::from_str("      ✓ URLs (home/siteurl) actualizadas.")),
        _ => None,
    }
}

/// The notice a migration gives back: only when there was no dump.
pub fn migration_note(has_dump: bool) -> (r: Option<String>)
    ensures
        has_dump ==> r is None,
        !has_dump ==> (r matches Some(n) && n@
            == "No había dump en app/sql/: el sitio arranca con la base de datos vacía."@),
{
    if has_dump {
        None
    } else {
        Some(no_dump_note())
    }
}

/// The closing line of a migration.
pub fn migration_finished(site: &SiteConfig) -> (r: String)
    ensures
        r@ == "✓ «"@ + site.name@ + "» migrado y encendido — "@ + site_address(*site),
{
    String::from_str("✓ «").concat(site.name.as_str()).concat("» migrado y encendido — ").concat(
        address(site).as_str(),
    )
}

/// The line when a migration failed.
pub fn migration_failed(err: &str) -> (r: String)
    ensures
        r@ == "✗ La migración falló: "@ + err@,
{
    String::from_str("✗ La migración falló: ").concat(err)
}

} // verus!
