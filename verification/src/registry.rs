//! The panel's registry of projects, rebuilt from the folders of
//! `~/panel-wp/`: the registered ones (with a `config.json`) sorted by name,
//! and the disconnected ones (kept on disk without it) offered for re-import.

use vstd::prelude::*;

use crate::config::{
    db_name_of, db_type_name, parse_db_name, DbService, DbType, DisconnectedSite, GithubConfig,
    NginxService, PhpService, Services, SiteConfig,
};
use crate::order::{sort_ranked, sort_stable, Ranked};
use crate::paths::{join, join_seq};
use crate::text::{chars_of, seq_lt, vec_eq_str, vec_lt};
use crate::wordpress::{db_name_for_slug, db_name_seq, slugify, slugify_seq};

verus! {

broadcast use vstd::string::group_string_axioms;

impl Ranked for SiteConfig {
    /// By name.
    open spec fn ranks_before(&self, other: &Self) -> bool {
        seq_lt(self.name@, other.name@)
    }

    fn goes_before(&self, other: &Self) -> (r: bool) {
        vec_lt(&chars_of(self.name.as_str()), &chars_of(other.name.as_str()))
    }
}

/// The registered projects as the panel lists them: each one's GitHub
/// settings folded into the current form, then sorted by name (ties keep the
/// order in which the folders were read).
pub fn load_sites(read: Vec<SiteConfig>) -> (r: Vec<SiteConfig>)
    ensures
        r@.len() == read@.len(),
        exists|normalized: Seq<SiteConfig>|
            #![trigger normalized.len()]
            normalized.len() == read@.len() && (forall|i: int|
                0 <= i < read@.len() ==> crate::config::normalized_from(
                    read@[i].github,
                    (#[trigger] normalized[i]).github,
                ) && same_but_github(read@[i], normalized[i])) && r@ == sort_ranked(normalized),
{
    let ghost all = read@;
    let mut rest = read;
    let mut rev: Vec<SiteConfig> = Vec::new();
    while rest.len() > 0
        invariant
            all == rest@ + rev@.reverse(),
        decreases rest.len(),
    {
        let ghost before_rev = rev@;
        let s = rest.pop().unwrap();
        rev.push(s);
        assert(rev@.reverse() =~= seq![s] + before_rev.reverse());
        assert(all =~= rest@ + rev@.reverse());
    }
    assert(rev@.reverse() =~= all);
    let mut out: Vec<SiteConfig> = Vec::new();
    while rev.len() > 0
        invariant
            rev@.reverse() == all.skip(out@.len() as int),
            out@.len() + rev@.len() == all.len(),
            forall|i: int|
                0 <= i < out@.len() ==> crate::config::normalized_from(
                    all[i].github,
                    (#[trigger] out@[i]).github,
                ) && same_but_github(all[i], out@[i]),
        decreases rev.len(),
    {
        let ghost k = out@.len() as int;
        let ghost before_rev = rev@;
        let mut s = rev.pop().unwrap();
        proof {
            assert(before_rev.reverse()[0] == all.skip(k)[0]);
            assert(rev@.reverse() =~= before_rev.reverse().skip(1));
            assert(all.skip(k).skip(1) =~= all.skip(k + 1));
        }
        s.github.normalize();
        out.push(s);
    }
    let ghost normalized = out@;
    let r = sort_stable(out);
    proof {
        crate::order::lemma_sort_ranked_len(normalized);
    }
    r
}

/// Two records of a project agree on everything but their GitHub settings.
pub open spec fn same_but_github(a: SiteConfig, b: SiteConfig) -> bool {
    &&& a.id == b.id
    &&& a.name == b.name
    &&& a.path == b.path
    &&& a.domain == b.domain
    &&& a.group == b.group
    &&& a.created_at == b.created_at
    &&& a.services == b.services
    &&& a.one_click_admin == b.one_click_admin
    &&& a.xdebug_enabled == b.xdebug_enabled
    &&& a.headless == b.headless
    &&& a.frontend_framework == b.frontend_framework
    &&& a.minio == b.minio
    &&& a.migration_pending == b.migration_pending
    &&& a.last_migrated_at == b.last_migrated_at
    &&& a.clone_of == b.clone_of
    &&& a.worktree_of == b.worktree_of
    &&& a.snapshot_excludes == b.snapshot_excludes
}

// ---------------------------------------------------------------------------
// Disconnected folders
// ---------------------------------------------------------------------------

/// What was found in one folder of `~/panel-wp/`.
#[derive(Debug)]
pub struct FolderScan {
    pub folder_name: String,
    pub path: String,
    /// It has a `config.json` (still registered).
    pub has_config: bool,
    /// The configuration kept in its `config.disconnected.json`, when that
    /// file exists and reads as one.
    pub preserved: Option<SiteConfig>,
    /// It has `app/public/wp-config.php`.
    pub has_wp_config: bool,
    /// It has some `*.sql` in `app/sql/`.
    pub has_dump: bool,
}

/// The default versions given to an old folder with no configuration at all.
pub open spec fn default_php() -> Seq<char> {
    "8.3"@
}

pub open spec fn default_db() -> Seq<char> {
    "8.0"@
}

/// How a disconnected folder is offered: with its kept configuration
/// (`preserved`), or, for a WordPress folder without one, named after the
/// folder with the default versions (`reconstructed`). A registered folder,
/// or one with neither, is not offered.
pub open spec fn offered_as(scan: FolderScan, d: Option<DisconnectedSite>) -> bool {
    if scan.has_config {
        d is None
    } else {
        match scan.preserved {
            Some(cfg) => d matches Some(x) && x.folder_name@ == scan.folder_name@ && x.path@
                == scan.path@ && x.name@ == cfg.name@ && x.domain@ == cfg.domain@ && x.php_version@
                == cfg.services.php.version@ && x.db_version@ == cfg.services.db.version@
                && x.db_type@ == db_type_name(cfg.services.db.db_type) && x.has_dump == scan.has_dump
                && x.kind@ == "preserved"@,
            None => if scan.has_wp_config {
                d matches Some(x) && x.folder_name@ == scan.folder_name@ && x.path@ == scan.path@
                    && x.name@ == scan.folder_name@ && x.domain@ == scan.folder_name@ + ".test"@
                    && x.php_version@ == default_php() && x.db_version@ == default_db()
                    && x.db_type@ == "mysql"@ && x.has_dump == scan.has_dump && x.kind@
                    == "reconstructed"@
            } else {
                d is None
            },
        }
    }
}

pub fn disconnected_entry(scan: &FolderScan) -> (d: Option<DisconnectedSite>)
    ensures
        offered_as(*scan, d),
{
    if scan.has_config {
        return None;
    }
    match &scan.preserved {
        Some(cfg) => Some(
            DisconnectedSite {
                folder_name: String::from_str(scan.folder_name.as_str()),
                path: String::from_str(scan.path.as_str()),
                name: String::from_str(cfg.name.as_str()),
                domain: String::from_str(cfg.domain.as_str()),
                php_version: String::from_str(cfg.services.php.version.as_str()),
                db_version: String::from_str(cfg.services.db.version.as_str()),
                db_type: crate::config::db_type_str(cfg.services.db.db_type),
                has_dump: scan.has_dump,
                kind: String::from_str("preserved"),
            },
        ),
        None => {
            if scan.has_wp_config {
                Some(
                    DisconnectedSite {
                        folder_name: String::from_str(scan.folder_name.as_str()),
                        path: String::from_str(scan.path.as_str()),
                        name: String::from_str(scan.folder_name.as_str()),
                        domain: String::from_str(scan.folder_name.as_str()).concat(".test"),
                        php_version: String::from_str("8.3"),
                        db_version: String::from_str("8.0"),
                        db_type: String::from_str("mysql"),
                        has_dump: scan.has_dump,
                        kind: String::from_str("reconstructed"),
                    },
                )
            } else {
                None
            }
        },
    }
}

impl Ranked for DisconnectedSite {
    /// By name.
    open spec fn ranks_before(&self, other: &Self) -> bool {
        seq_lt(self.name@, other.name@)
    }

    fn goes_before(&self, other: &Self) -> (r: bool) {
        vec_lt(&chars_of(self.name.as_str()), &chars_of(other.name.as_str()))
    }
}

/// The disconnected folders among `scans`, sorted by name.
pub fn list_disconnected(scans: &Vec<FolderScan>) -> (r: Vec<DisconnectedSite>)
    ensures
        exists|offered: Seq<Option<DisconnectedSite>>|
            #![trigger offered.len()]
            offered.len() == scans@.len() && (forall|i: int|
                0 <= i < scans@.len() ==> offered_as(scans@[i], #[trigger] offered[i])) && r@
                == sort_ranked(somes(offered)),
{
    let mut found: Vec<DisconnectedSite> = Vec::new();
    let ghost mut offered: Seq<Option<DisconnectedSite>> = Seq::empty();
    let mut i: usize = 0;
    while i < scans.len()
        invariant
            i <= scans.len(),
            offered.len() == i,
            forall|j: int| 0 <= j < i ==> offered_as(scans@[j], #[trigger] offered[j]),
            found@ == somes(offered),
        decreases scans.len() - i,
    {
        let d = disconnected_entry(&scans[i]);
        let ghost old_off = offered;
        proof {
            offered = old_off.push(d);
            assert(offered.drop_last() =~= old_off);
            assert(offered.last() == d);
        }
        match d {
            Some(x) => {
                found.push(x);
            },
            None => {},
        }
        i += 1;
    }
    sort_stable(found)
}

/// The entries present in a list of options, in order.
pub open spec fn somes<T>(s: Seq<Option<T>>) -> Seq<T>
    decreases s.len(),
{
    if s.len() == 0 {
        Seq::empty()
    } else {
        let rest = somes(s.drop_last());
        match s.last() {
            Some(x) => rest.push(x),
            None => rest,
        }
    }
}

// ---------------------------------------------------------------------------
// Re-importing a folder
// ---------------------------------------------------------------------------

/// Why a folder cannot be re-imported.
#[derive(Debug, PartialEq, Eq, Structural)]
pub enum ReimportRefusal {
    /// No such folder under `~/panel-wp/`.
    NoFolder,
    /// It still has its `config.json`.
    AlreadyRegistered,
    /// It has no `app/public` (not a panel project).
    NoPublic,
}

/// Checks a folder before re-importing it, in this order: it exists, is not
/// registered, and has `app/public`.
pub fn check_reimport(is_dir: bool, has_config: bool, has_public: bool) -> (r: Result<(), ReimportRefusal>)
    ensures
        r == (if !is_dir {
            Err::<(), ReimportRefusal>(ReimportRefusal::NoFolder)
        } else if has_config {
            Err(ReimportRefusal::AlreadyRegistered)
        } else if !has_public {
            Err(ReimportRefusal::NoPublic)
        } else {
            Ok(())
        }),
{
    if !is_dir {
        Err(ReimportRefusal::NoFolder)
    } else if has_config {
        Err(ReimportRefusal::AlreadyRegistered)
    } else if !has_public {
        Err(ReimportRefusal::NoPublic)
    } else {
        Ok(())
    }
}

impl ReimportRefusal {
    /// The message shown for folder `folder_name`.
    pub fn message(&self, folder_name: &str) -> (r: String)
        ensures
            r@ == match *self {
                ReimportRefusal::NoFolder => "no existe la carpeta "@ + folder_name@ + " en panel-wp"@,
                ReimportRefusal::AlreadyRegistered => "«"@ + folder_name@ + "» ya está en el panel"@,
                ReimportRefusal::NoPublic => "la carpeta "@ + folder_name@
                    + " no contiene app/public (no es un proyecto del panel)"@,
            },
    {
        match self {
            ReimportRefusal::NoFolder => String::from_str("no existe la carpeta ").concat(folder_name).concat(
                " en panel-wp",
            ),
            ReimportRefusal::AlreadyRegistered => String::from_str("«").concat(folder_name).concat(
                "» ya está en el panel",
            ),
            ReimportRefusal::NoPublic => String::from_str("la carpeta ").concat(folder_name).concat(
                " no contiene app/public (no es un proyecto del panel)",
            ),
        }
    }
}

/// The configuration rebuilt, best effort, for a folder without a kept one:
/// named after the folder, domain `{slug}.test`, the database named in its
/// `wp-config.php` (or `{slug}_db`), default versions, pending migration.
pub open spec fn rebuilt_ok(folder_name: Seq<char>, dir: Seq<char>, wp_config: Option<Seq<char>>, id: Seq<char>, created_at: Seq<char>, s: SiteConfig) -> bool {
    &&& s.id@ == id
    &&& s.name@ == folder_name
    &&& s.path@ == dir
    &&& s.domain@ == slugify_seq(folder_name) + ".test"@
    &&& s.group is None
    &&& s.created_at@ == created_at
    &&& s.services.php.version@ == default_php()
    &&& s.services.nginx.ssl
    &&& s.services.db.db_type == DbType::Mysql
    &&& s.services.db.version@ == default_db()
    &&& s.services.db.db_name@ == match wp_config {
        Some(w) => match db_name_of(w) {
            Some(n) => n,
            None => db_name_seq(slugify_seq(folder_name)),
        },
        None => db_name_seq(slugify_seq(folder_name)),
    }
    &&& s.github.repos@.len() == 0 && s.github.theme is None && s.github.plugins@.len() == 0
    &&& s.one_click_admin
    &&& !s.xdebug_enabled
    &&& !s.headless
    &&& s.frontend_framework is None
    &&& !s.minio
    &&& s.migration_pending
    &&& s.last_migrated_at is None
    &&& s.clone_of is None
    &&& s.worktree_of is None
    &&& s.snapshot_excludes@.len() == 0
}

pub fn rebuilt_config(folder_name: &str, dir: &str, wp_config: Option<&str>, id: &str, created_at: &str) -> (s: SiteConfig)
    ensures
        rebuilt_ok(
            folder_name@,
            dir@,
            match wp_config {
                Some(w) => Some(w@),
                None => None,
            },
            id@,
            created_at@,
            s,
        ),
{
    let slug = slugify(folder_name);
    let db_name = match wp_config {
        Some(raw) => match parse_db_name(raw) {
            Some(n) => n,
            None => db_name_for_slug(slug.as_str()),
        },
        None => db_name_for_slug(slug.as_str()),
    };
    SiteConfig {
        id: String::from_str(id),
        name: String::from_str(folder_name),
        path: String::from_str(dir),
        domain: slug.concat(".test"),
        group: None,
        created_at: String::from_str(created_at),
        services: Services {
            php: PhpService { version: String::from_str("8.3") },
            nginx: NginxService { ssl: true },
            db: DbService { db_type: DbType::Mysql, version: String::from_str("8.0"), db_name },
        },
        github: GithubConfig::default(),
        one_click_admin: true,
        xdebug_enabled: false,
        headless: false,
        frontend_framework: None,
        minio: false,
        migration_pending: true,
        last_migrated_at: None,
        clone_of: None,
        worktree_of: None,
        snapshot_excludes: Vec::new(),
    }
}

/// `rebuilt_config` with a fresh random id and the current time; `None` when
/// the system gives no random id or no current time.
pub fn reconstruct_config(folder_name: &str, dir: &str, wp_config: Option<&str>) -> (r: Option<SiteConfig>)
    ensures
        r matches Some(s) ==> crate::ids::is_uuid_v4_text(s.id@) && exists|created_at: Seq<char>|
            crate::clock::is_rfc3339_utc(created_at) && #[trigger] rebuilt_ok(
                folder_name@,
                dir@,
                crate::dumplog::opt_view(wp_config),
                s.id@,
                created_at,
                s,
            ),
{
    let id = match crate::ids::new_uuid() {
        Some(id) => id,
        None => {
            return None;
        },
    };
    let now = match crate::clock::now_rfc3339() {
        Some(now) => now,
        None => {
            return None;
        },
    };
    let s = rebuilt_config(folder_name, dir, wp_config, id.as_str(), now.as_str());
    assert(s.id@ == id@);
    assert(rebuilt_ok(
        folder_name@,
        dir@,
        crate::dumplog::opt_view(wp_config),
        s.id@,
        now@,
        s,
    ));
    Some(s)
}

/// Whether some project of `existing` has the id `id`.
pub open spec fn id_taken(existing: Seq<SiteConfig>, id: Seq<char>) -> bool {
    exists|i: int| 0 <= i < existing.len() && (#[trigger] existing[i]).id@ == id
}

/// Readies a recovered configuration for the panel: it takes the folder's
/// current `path` when given (the folder may have moved), a fresh id when
/// its id is taken by a registered project (a copied folder), and is marked
/// pending migration. Returns `false`, leaving `site` as it was, when a fresh
/// id is needed and the system gives none.
pub fn readopt(site: &mut SiteConfig, path: Option<&str>, existing: &[SiteConfig]) -> (done: bool)
    ensures
        !id_taken(existing@, old(site).id@) ==> done,
        !done ==> *final(site) == *old(site),
        done ==> match path {
            Some(p) => final(site).path@ == p@,
            None => final(site).path == old(site).path,
        },
        done && id_taken(existing@, old(site).id@) ==> crate::ids::is_uuid_v4_text(final(site).id@),
        done && !id_taken(existing@, old(site).id@) ==> final(site).id == old(site).id,
        done ==> final(site).migration_pending,
        done ==> final(site).last_migrated_at is None,
        final(site).name == old(site).name,
        final(site).domain == old(site).domain,
        final(site).services == old(site).services,
{
    let idv = chars_of(site.id.as_str());
    let mut taken = false;
    let mut i: usize = 0;
    while i < existing.len()
        invariant
            i <= existing.len(),
            idv@ == old(site).id@,
            taken == exists|j: int| 0 <= j < i && (#[trigger] existing@[j]).id@ == idv@,
        decreases existing.len() - i,
    {
        if vec_eq_str(&idv, existing[i].id.as_str()) {
            taken = true;
        }
        i += 1;
    }
    if taken {
        match crate::ids::new_uuid() {
            Some(id) => {
                site.id = id;
            },
            None => {
                return false;
            },
        }
    }
    match path {
        Some(p) => {
            site.path = String::from_str(p);
        },
        None => {},
    }
    site.migration_pending = true;
    site.last_migrated_at = None;
    true
}

/// The projects are listed sorted by name, none lost or added.
pub proof fn law_sites_sorted_by_name(s: Seq<SiteConfig>)
    ensures
        crate::order::is_ranked(sort_ranked(s)),
        sort_ranked(s).to_multiset() == s.to_multiset(),
{
    assert forall|a: SiteConfig, b: SiteConfig| #[trigger] a.ranks_before(&b) implies !b.ranks_before(&a) by {
        crate::text::lemma_seq_lt_asym(a.name@, b.name@);
    }
    assert forall|a: SiteConfig, b: SiteConfig, c: SiteConfig|
        #![trigger a.ranks_before(&b), b.ranks_before(&c)]
        !a.ranks_before(&b) && !b.ranks_before(&c) implies !a.ranks_before(&c) by {
        crate::text::lemma_seq_not_lt_trans(a.name@, b.name@, c.name@);
    }
    crate::order::law_sort_ranked(s);
}

/// The disconnected folders are listed sorted by name, none lost or added.
pub proof fn law_disconnected_sorted_by_name(s: Seq<DisconnectedSite>)
    ensures
        crate::order::is_ranked(sort_ranked(s)),
        sort_ranked(s).to_multiset() == s.to_multiset(),
{
    assert forall|a: DisconnectedSite, b: DisconnectedSite| #[trigger] a.ranks_before(&b) implies !b.ranks_before(&a) by {
        crate::text::lemma_seq_lt_asym(a.name@, b.name@);
    }
    assert forall|a: DisconnectedSite, b: DisconnectedSite, c: DisconnectedSite|
        #![trigger a.ranks_before(&b), b.ranks_before(&c)]
        !a.ranks_before(&b) && !b.ranks_before(&c) implies !a.ranks_before(&c) by {
        crate::text::lemma_seq_not_lt_trans(a.name@, b.name@, c.name@);
    }
    crate::order::law_sort_ranked(s);
}

} // verus!
