//! Importing projects from LocalWP.
//!
//! LocalWP lists its sites in `~/.config/Local/sites.json`; each one becomes a
//! panel project: its `app/public` is copied, its dump `app/sql/local.sql` is
//! copied as `imported.sql`, and its `config.json` is written marked pending
//! migration (the database is made later, when it is migrated).

use vstd::prelude::*;

use crate::config::{
    DbService, DbType, GithubConfig, NginxService, PhpService, Services, SiteConfig,
};
use crate::order::{sort_ranked, sort_stable, Ranked};
use crate::paths::{join, join_seq};
use crate::text::{
    chars_of, has_prefix, seq_lt, split_seq, split_vec, string_of, subvec, trim, trim_vec,
    vec_eq_str, vec_lt, CharClass,
};
use crate::wordpress::{db_name_for_slug, db_name_seq, slugify, slugify_seq};

verus! {

broadcast use vstd::string::group_string_axioms;

/// A site as `sites.json` describes it (missing fields read as empty).
#[derive(Debug)]
pub struct RawLocalSite {
    /// Its key in `sites.json`.
    pub id: String,
    pub name: String,
    pub path: String,
    pub php_version: String,
    pub mysql_version: String,
    /// Non-empty for a multisite install.
    pub multi_site: String,
    pub xdebug_enabled: bool,
}

/// A LocalWP site that can be imported.
#[derive(Debug)]
pub struct LocalSite {
    pub id: String,
    pub name: String,
    pub domain: String,
    pub path: String,
    pub php_version: String,
    pub db_version: String,
    pub multisite: bool,
    pub xdebug: bool,
    pub already_imported: bool,
}

/// The outcome of an import: the new project and an optional notice (no dump,
/// version changed, multisite).
#[derive(Debug)]
pub struct ImportResult {
    pub site: SiteConfig,
    pub note: Option<String>,
}

/// `8.4.10` → `8.4`: the first two dot-separated parts (or the only one).
pub open spec fn major_minor_seq(v: Seq<char>) -> Seq<char> {
    let parts = split_seq(v, CharClass::Is('.'));
    if parts.len() >= 2 {
        parts[0] + "."@ + parts[1]
    } else {
        parts[0]
    }
}

pub fn major_minor(v: &str) -> (r: String)
    ensures
        r@ == major_minor_seq(v@),
{
    let parts = split_vec(&chars_of(v), CharClass::Is('.'));
    assert(parts@[0]@ == split_seq(v@, CharClass::Is('.'))[0]);
    if parts.len() >= 2 {
        assert(parts@[1]@ == split_seq(v@, CharClass::Is('.'))[1]);
        string_of(&parts[0]).concat(".").concat(string_of(&parts[1]).as_str())
    } else {
        string_of(&parts[0])
    }
}

/// A path with a leading `~/` taken from the home folder (unchanged when there
/// is no home folder).
pub open spec fn expand_tilde_seq(p: Seq<char>, home: Option<Seq<char>>) -> Seq<char> {
    if has_prefix(p, "~/"@) && home is Some {
        join_seq(home.unwrap(), p.subrange(2, p.len() as int))
    } else {
        p
    }
}

pub fn expand_tilde(p: &str, home: Option<&str>) -> (r: String)
    ensures
        r@ == expand_tilde_seq(
            p@,
            match home {
                Some(h) => Some(h@),
                None => None,
            },
        ),
{
    let v = chars_of(p);
    let starts = v.len() >= 2 && v[0] == '~' && v[1] == '/';
    proof {
        reveal_strlit("~/");
        if has_prefix(v@, "~/"@) {
            assert(v@.subrange(0, 2)[0] == v@[0]);
            assert(v@.subrange(0, 2)[1] == v@[1]);
        }
        if starts {
            assert(v@.subrange(0, 2) =~= "~/"@);
        }
    }
    match home {
        Some(h) => {
            if starts {
                let rest = string_of(&subvec(&v, 2, v.len()));
                return join(h, rest.as_str());
            }
            String::from_str(p)
        },
        None => String::from_str(p),
    }
}

/// The PHP versions the panel runs.
pub open spec fn php_supported() -> Seq<Seq<char>> {
    seq!["7.4"@, "8.0"@, "8.1"@, "8.2"@, "8.3"@, "8.4"@]
}

/// The MySQL versions the panel runs.
pub open spec fn mysql_supported() -> Seq<Seq<char>> {
    seq!["8.0"@, "8.4"@]
}

fn php_table() -> (r: Vec<&'static str>)
    ensures
        r@.len() == 6,
        r@.map_values(|s: &str| s@) == php_supported(),
{
    let r = vec!["7.4", "8.0", "8.1", "8.2", "8.3", "8.4"];
    assert(r@.map_values(|s: &str| s@) =~= php_supported());
    r
}

fn mysql_table() -> (r: Vec<&'static str>)
    ensures
        r@.len() == 2,
        r@.map_values(|s: &str| s@) == mysql_supported(),
{
    let r = vec!["8.0", "8.4"];
    assert(r@.map_values(|s: &str| s@) =~= mysql_supported());
    r
}

/// `v` itself when supported; else the newest supported version, with `true`.
pub open spec fn pick_supported_seq(v: Seq<char>, supported: Seq<Seq<char>>) -> (Seq<char>, bool) {
    if supported.contains(v) {
        (v, false)
    } else {
        (supported.last(), true)
    }
}

pub fn pick_supported(v: &str, supported: &Vec<&str>) -> (r: (String, bool))
    requires
        supported@.len() > 0,
    ensures
        (r.0@, r.1) == pick_supported_seq(v@, supported@.map_values(|s: &str| s@)),
{
    let ghost sv = supported@.map_values(|s: &str| s@);
    let vv = chars_of(v);
    let mut i: usize = 0;
    while i < supported.len()
        invariant
            i <= supported.len(),
            sv == supported@.map_values(|s: &str| s@),
            vv@ == v@,
            forall|j: int| 0 <= j < i ==> sv[j] != v@,
        decreases supported.len() - i,
    {
        if vec_eq_str(&vv, supported[i]) {
            assert(sv[i as int] == v@);
            return (String::from_str(v), false);
        }
        i += 1;
    }
    proof {
        if sv.contains(v@) {
            let k = choose|k: int| 0 <= k < sv.len() && sv[k] == v@;
            assert(false);
        }
    }
    (String::from_str(supported[supported.len() - 1]), true)
}

// ---------------------------------------------------------------------------
// Listing
// ---------------------------------------------------------------------------

/// Whether a panel project already stands for the site: same domain or same
/// name.
pub open spec fn already_imported_seq(existing: Seq<SiteConfig>, domain: Seq<char>, name: Seq<char>) -> bool {
    exists|i: int| 0 <= i < existing.len() && ((#[trigger] existing[i]).domain@ == domain || existing[i].name@ == name)
}

/// How a listed site follows from its record: domain `{slug}.test`, versions
/// cut to `major.minor`, multisite when marked, already imported when a
/// project matches.
pub open spec fn listed_as(r: RawLocalSite, existing: Seq<SiteConfig>, home: Option<Seq<char>>, l: LocalSite) -> bool {
    &&& l.id@ == r.id@
    &&& l.name@ == r.name@
    &&& l.domain@ == slugify_seq(r.name@) + ".test"@
    &&& l.path@ == expand_tilde_seq(r.path@, home)
    &&& l.php_version@ == major_minor_seq(r.php_version@)
    &&& l.db_version@ == major_minor_seq(r.mysql_version@)
    &&& l.multisite == (r.multi_site@.len() > 0)
    &&& l.xdebug == r.xdebug_enabled
    &&& l.already_imported == already_imported_seq(existing, slugify_seq(r.name@) + ".test"@, r.name@)
}

fn listed(r: &RawLocalSite, existing: &[SiteConfig], home: Option<&str>) -> (l: LocalSite)
    ensures
        listed_as(
            *r,
            existing@,
            match home {
                Some(h) => Some(h@),
                None => None,
            },
            l,
        ),
{
    let domain = slugify(r.name.as_str()).concat(".test");
    let dv = chars_of(domain.as_str());
    let nv = chars_of(r.name.as_str());
    let mut already = false;
    let mut i: usize = 0;
    while i < existing.len()
        invariant
            i <= existing.len(),
            dv@ == slugify_seq(r.name@) + ".test"@,
            nv@ == r.name@,
            already == exists|j: int| 0 <= j < i && ((#[trigger] existing@[j]).domain@ == dv@
                || existing@[j].name@ == nv@),
        decreases existing.len() - i,
    {
        if vec_eq_str(&dv, existing[i].domain.as_str()) || vec_eq_str(&nv, existing[i].name.as_str()) {
            already = true;
        }
        i += 1;
    }
    LocalSite {
        id: String::from_str(r.id.as_str()),
        name: String::from_str(r.name.as_str()),
        domain,
        path: expand_tilde(r.path.as_str(), home),
        php_version: major_minor(r.php_version.as_str()),
        db_version: major_minor(r.mysql_version.as_str()),
        multisite: r.multi_site.unicode_len() > 0,
        xdebug: r.xdebug_enabled,
        already_imported: already,
    }
}

impl Ranked for LocalSite {
    /// By name.
    open spec fn ranks_before(&self, other: &Self) -> bool {
        seq_lt(self.name@, other.name@)
    }

    fn goes_before(&self, other: &Self) -> (r: bool) {
        vec_lt(&chars_of(self.name.as_str()), &chars_of(other.name.as_str()))
    }
}

/// `r` lists the sites of `raw`, each as `listed_as` says, sorted by name.
pub open spec fn sites_listed(raw: Seq<RawLocalSite>, existing: Seq<SiteConfig>, home: Option<Seq<char>>, r: Seq<LocalSite>) -> bool {
    exists|unsorted: Seq<LocalSite>|
        #![trigger unsorted.len()]
        unsorted.len() == raw.len() && (forall|i: int|
            0 <= i < raw.len() ==> listed_as(raw[i], existing, home, #[trigger] unsorted[i]))
            && r == sort_ranked(unsorted)
}

/// The LocalWP sites (`raw`, as read from `sites.json`), sorted by name, each
/// marked when a project of `existing` already stands for it.
pub fn list_sites(raw: &Vec<RawLocalSite>, existing: &[SiteConfig], home: Option<&str>) -> (r: Vec<LocalSite>)
    ensures
        sites_listed(raw@, existing@, crate::dumplog::opt_view(home), r@),
{
    let ghost hv = match home {
        Some(h) => Some(h@),
        None => None::<Seq<char>>,
    };
    let mut out: Vec<LocalSite> = Vec::new();
    let mut i: usize = 0;
    while i < raw.len()
        invariant
            i <= raw.len(),
            out@.len() == i,
            hv == match home {
                Some(h) => Some(h@),
                None => None::<Seq<char>>,
            },
            forall|j: int| 0 <= j < i ==> listed_as(raw@[j], existing@, hv, #[trigger] out@[j]),
        decreases raw.len() - i,
    {
        out.push(listed(&raw[i], existing, home));
        i += 1;
    }
    let ghost unsorted = out@;
    let r = sort_stable(out);
    assert(unsorted.len() == raw@.len());
    assert(hv == crate::dumplog::opt_view(home));
    r
}

// ---------------------------------------------------------------------------
// Importing
// ---------------------------------------------------------------------------

/// The LocalWP folder of a site: `{path}/app/public`.
pub fn source_public(r: &RawLocalSite, home: Option<&str>) -> (p: String)
    ensures
        p@ == join_seq(
            join_seq(
                expand_tilde_seq(
                    r.path@,
                    match home {
                        Some(h) => Some(h@),
                        None => None,
                    },
                ),
                "app"@,
            ),
            "public"@,
        ),
{
    let base = expand_tilde(r.path.as_str(), home);
    let app = join(base.as_str(), "app");
    join(app.as_str(), "public")
}

/// The dump LocalWP keeps: `{path}/app/sql/local.sql`.
pub fn source_dump(r: &RawLocalSite, home: Option<&str>) -> (p: String)
    ensures
        p@ == join_seq(
            join_seq(
                join_seq(
                    expand_tilde_seq(
                        r.path@,
                        match home {
                            Some(h) => Some(h@),
                            None => None,
                        },
                    ),
                    "app"@,
                ),
                "sql"@,
            ),
            "local.sql"@,
        ),
{
    let base = expand_tilde(r.path.as_str(), home);
    let app = join(base.as_str(), "app");
    let sql = join(app.as_str(), "sql");
    join(sql.as_str(), "local.sql")
}

/// The argument `cp -a` copies from: the folder's contents (`{src}/.`).
pub fn copy_source(src: &str) -> (r: String)
    ensures
        r@ == src@ + "/."@,
{
    String::from_str(src).concat("/.")
}

/// The project a LocalWP site becomes, kept in `dest` with id `id`: its
/// name, the domain `{slug}.test`, the group `LocalWP`, TLS on, MySQL with
/// the database `{slug}_db`, its PHP and MySQL versions (the newest supported
/// one when LocalWP's is not), auto-login on, and pending migration. Also
/// says whether each version was changed.
pub fn import_config(r: &RawLocalSite, id: &str, dest: &str, created_at: &str) -> (out: (SiteConfig, bool, bool))
    ensures
        out.0.id@ == id@,
        out.0.name@ == r.name@,
        out.0.path@ == dest@,
        out.0.domain@ == slugify_seq(r.name@) + ".test"@,
        out.0.group matches Some(g) && g@ == "LocalWP"@,
        out.0.created_at@ == created_at@,
        (out.0.services.php.version@, out.1) == pick_supported_seq(major_minor_seq(r.php_version@), php_supported()),
        out.0.services.nginx.ssl,
        out.0.services.db.db_type == DbType::Mysql,
        (out.0.services.db.version@, out.2) == pick_supported_seq(major_minor_seq(r.mysql_version@), mysql_supported()),
        out.0.services.db.db_name@ == db_name_seq(slugify_seq(r.name@)),
        out.0.github.repos@.len() == 0 && out.0.github.theme is None && out.0.github.plugins@.len() == 0,
        out.0.one_click_admin,
        out.0.xdebug_enabled == r.xdebug_enabled,
        !out.0.headless,
        out.0.frontend_framework is None,
        !out.0.minio,
        out.0.migration_pending,
        out.0.last_migrated_at is None,
        out.0.clone_of is None,
        out.0.worktree_of is None,
        out.0.snapshot_excludes@.len() == 0,
{
    let slug = slugify(r.name.as_str());
    let (php, php_adjusted) = pick_supported(major_minor(r.php_version.as_str()).as_str(), &php_table());
    let (db, db_adjusted) = pick_supported(major_minor(r.mysql_version.as_str()).as_str(), &mysql_table());
    let site = SiteConfig {
        id: String::from_str(id),
        name: String::from_str(r.name.as_str()),
        path: String::from_str(dest),
        domain: slugify(r.name.as_str()).concat(".test"),
        group: Some(String::from_str("LocalWP")),
        created_at: String::from_str(created_at),
        services: Services {
            php: PhpService { version: php },
            nginx: NginxService { ssl: true },
            db: DbService { db_type: DbType::Mysql, version: db, db_name: db_name_for_slug(slug.as_str()) },
        },
        github: GithubConfig::default(),
        one_click_admin: true,
        xdebug_enabled: r.xdebug_enabled,
        headless: false,
        frontend_framework: None,
        minio: false,
        migration_pending: true,
        last_migrated_at: None,
        clone_of: None,
        worktree_of: None,
        snapshot_excludes: Vec::new(),
    };
    (site, php_adjusted, db_adjusted)
}

/// The notice of an import, built from its parts (each ends in a space), or
/// none when there is nothing to say.
pub open spec fn import_note_seq(
    has_dump: bool,
    php_from: Seq<char>,
    php_to: Seq<char>,
    php_adjusted: bool,
    db_from: Seq<char>,
    db_to: Seq<char>,
    db_adjusted: bool,
    multisite: bool,
) -> Option<Seq<char>> {
    let a = if has_dump {
        Seq::<char>::empty()
    } else {
        "No se encontró app/sql/local.sql en LocalWP: exporta la DB desde LocalWP antes de migrar. "@
    };
    let b = if php_adjusted {
        "PHP "@ + php_from + " no soportada → usando "@ + php_to + ". "@
    } else {
        Seq::<char>::empty()
    };
    let c = if db_adjusted {
        "MySQL "@ + db_from + " no soportada → usando "@ + db_to + ". "@
    } else {
        Seq::<char>::empty()
    };
    let d = if multisite {
        "Es multisite: revisa la configuración tras migrar. "@
    } else {
        Seq::<char>::empty()
    };
    let note = a + b + c + d;
    if note.len() == 0 {
        None
    } else {
        Some(trim(note, CharClass::Whitespace))
    }
}

/// The notice shown after importing `r` as `site`.
pub fn import_note(has_dump: bool, r: &RawLocalSite, site: &SiteConfig, php_adjusted: bool, db_adjusted: bool) -> (n: Option<String>)
    ensures
        match import_note_seq(
            has_dump,
            major_minor_seq(r.php_version@),
            site.services.php.version@,
            php_adjusted,
            major_minor_seq(r.mysql_version@),
            site.services.db.version@,
            db_adjusted,
            r.multi_site@.len() > 0,
        ) {
            Some(t) => n matches Some(s) && s@ == t,
            None => n is None,
        },
{
    let ghost e = Seq::<char>::empty();
    let ghost pa = if has_dump {
        e
    } else {
        "No se encontró app/sql/local.sql en LocalWP: exporta la DB desde LocalWP antes de migrar. "@
    };
    let ghost pb = if php_adjusted {
        "PHP "@ + major_minor_seq(r.php_version@) + " no soportada → usando "@ + site.services.php.version@ + ". "@
    } else {
        e
    };
    let ghost pc = if db_adjusted {
        "MySQL "@ + major_minor_seq(r.mysql_version@) + " no soportada → usando "@ + site.services.db.version@ + ". "@
    } else {
        e
    };
    let ghost pd = if r.multi_site@.len() > 0 {
        "Es multisite: revisa la configuración tras migrar. "@
    } else {
        e
    };
    let mut note = String::new();
    if !has_dump {
        note = note.concat(
            "No se encontró app/sql/local.sql en LocalWP: exporta la DB desde LocalWP antes de migrar. ",
        );
    }
    assert(note@ =~= pa);
    if php_adjusted {
        note = note.concat("PHP ").concat(major_minor(r.php_version.as_str()).as_str()).concat(
            " no soportada → usando ",
        ).concat(site.services.php.version.as_str()).concat(". ");
    }
    assert(note@ =~= pa + pb);
    if db_adjusted {
        note = note.concat("MySQL ").concat(major_minor(r.mysql_version.as_str()).as_str()).concat(
            " no soportada → usando ",
        ).concat(site.services.db.version.as_str()).concat(". ");
    }
    assert(note@ =~= pa + pb + pc);
    if r.multi_site.unicode_len() > 0 {
        note = note.concat("Es multisite: revisa la configuración tras migrar. ");
    }
    assert(note@ =~= pa + pb + pc + pd);
    if note.unicode_len() == 0 {
        None
    } else {
        Some(string_of(&trim_vec(&chars_of(note.as_str()), CharClass::Whitespace)))
    }
}

/// `import_config` with a fresh random id and the current time; `None` when
/// the system gives no random id or no current time.
pub fn new_import_config(r: &RawLocalSite, dest: &str) -> (res: Option<(SiteConfig, bool, bool)>)
    ensures
        res matches Some(out) ==> {
            &&& crate::ids::is_uuid_v4_text(out.0.id@)
            &&& crate::clock::is_rfc3339_utc(out.0.created_at@)
            &&& out.0.path@ == dest@
            &&& out.0.name@ == r.name@
            &&& out.0.domain@ == slugify_seq(r.name@) + ".test"@
            &&& (out.0.services.php.version@, out.1) == pick_supported_seq(major_minor_seq(r.php_version@), php_supported())
            &&& (out.0.services.db.version@, out.2) == pick_supported_seq(major_minor_seq(r.mysql_version@), mysql_supported())
            &&& out.0.services.db.db_name@ == db_name_seq(slugify_seq(r.name@))
            &&& out.0.migration_pending
        },
{
    let id = match crate::ids::new_uuid() {
        Some(id) => id,
        None => {
            return None;
        },
    };
    let now = match crate::clock::now_rfc3339() {
        Some(now) => now,
        None => {
            return None;
        },
    };
    Some(import_config(r, id.as_str(), dest, now.as_str()))
}

/// `list_sites` with `~/` expanded from the user's home folder.
pub fn list_local_sites(raw: &Vec<RawLocalSite>, existing: &[SiteConfig]) -> (r: Vec<LocalSite>)
    ensures
        exists|home: Option<Seq<char>>| #[trigger] sites_listed(raw@, existing@, home, r@),
{
    let home = crate::places::home_dir();
    match home {
        Some(h) => list_sites(raw, existing, Some(h.as_str())),
        None => list_sites(raw, existing, None),
    }
}

/// The LocalWP sites are listed sorted by name, none lost or added.
pub proof fn law_local_sites_sorted_by_name(s: Seq<LocalSite>)
    ensures
        crate::order::is_ranked(sort_ranked(s)),
        sort_ranked(s).to_multiset() == s.to_multiset(),
{
    assert forall|a: LocalSite, b: LocalSite| #[trigger] a.ranks_before(&b) implies !b.ranks_before(&a) by {
        crate::text::lemma_seq_lt_asym(a.name@, b.name@);
    }
    assert forall|a: LocalSite, b: LocalSite, c: LocalSite|
        #![trigger a.ranks_before(&b), b.ranks_before(&c)]
        !a.ranks_before(&b) && !b.ranks_before(&c) implies !a.ranks_before(&c) by {
        crate::text::lemma_seq_not_lt_trans(a.name@, b.name@, c.name@);
    }
    crate::order::law_sort_ranked(s);
}

} // verus!
