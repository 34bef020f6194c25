//! The project model and the panel's global settings.
//!
//! Each project lives in its own folder (`~/panel-wp/{name}/`) with a
//! `config.json`; the panel rebuilds its registry by scanning those folders.
//! This module holds the data those files describe, the paths derived from a
//! project, the publication endpoint, and the pure steps of loading them:
//! folding legacy GitHub fields, picking a project by id, sorting by name and
//! reading `DB_NAME` out of a `wp-config.php`.

use vstd::prelude::*;

use crate::paths::{join, join_seq};
use crate::text::{
    chars_of, dec_seq, find_class, find_class_from, lemma_find_class_from_bounds, lines_seq,
    lines_vec, push_dec, split_seq, split_vec, subvec, trim, trim_end, trim_end_vec, trim_vec,
    vec_contains, vec_eq_str, vv, contains_seq, string_of, CharClass,
};

verus! {

broadcast use vstd::string::group_string_axioms;

/// Database engine of a project.
#[derive(Debug, Clone, Copy, PartialEq, Eq, Structural)]
pub enum DbType {
    Mysql,
    Mariadb,
    Postgres,
}

impl DbType {
    /// Prefix of the shared container's name (`panel-mysql-80`, ...).
    pub fn service_prefix(&self) -> (r: &'static str)
        ensures
            r@ == match *self {
                DbType::Mysql => "panel-mysql"@,
                DbType::Mariadb => "panel-mariadb"@,
                DbType::Postgres => "panel-postgres"@,
            },
    {
        match self {
            DbType::Mysql => "panel-mysql",
            DbType::Mariadb => "panel-mariadb",
            DbType::Postgres => "panel-postgres",
        }
    }

    /// Official image for `version` (there are no alpine variants of mysql or
    /// mariadb).
    pub fn image(&self, version: &str) -> (r: String)
        ensures
            r@ == match *self {
                DbType::Mysql => "mysql:"@ + version@,
                DbType::Mariadb => "mariadb:"@ + version@,
                DbType::Postgres => "postgres:"@ + version@ + "-alpine"@,
            },
    {
        match self {
            DbType::Mysql => String::from_str("mysql:").concat(version),
            DbType::Mariadb => String::from_str("mariadb:").concat(version),
            DbType::Postgres => String::from_str("postgres:").concat(version).concat("-alpine"),
        }
    }

    /// Port the engine listens on inside the network.
    pub fn port(&self) -> (r: u16)
        ensures
            r == match *self {
                DbType::Mysql | DbType::Mariadb => 3306u16,
                DbType::Postgres => 5432u16,
            },
    {
        match self {
            DbType::Mysql | DbType::Mariadb => 3306,
            DbType::Postgres => 5432,
        }
    }

    /// Data directory INSIDE the container (bound to a host folder so the data
    /// outlives the container).
    pub fn datadir(&self) -> (r: &'static str)
        ensures
            r@ == match *self {
                DbType::Mysql | DbType::Mariadb => "/var/lib/mysql"@,
                DbType::Postgres => "/var/lib/postgresql/data"@,
            },
    {
        match self {
            DbType::Mysql | DbType::Mariadb => "/var/lib/mysql",
            DbType::Postgres => "/var/lib/postgresql/data",
        }
    }
}

/// The lowercase name an engine is stored under (`mysql`, `mariadb`, `postgres`).
pub open spec fn db_type_name(t: DbType) -> Seq<char> {
    match t {
        DbType::Mysql => "mysql"@,
        DbType::Mariadb => "mariadb"@,
        DbType::Postgres => "postgres"@,
    }
}

/// The lowercase name of an engine.
pub fn db_type_str(t: DbType) -> (r: String)
    ensures
        r@ == db_type_name(t),
{
    match t {
        DbType::Mysql => String::from_str("mysql"),
        DbType::Mariadb => String::from_str("mariadb"),
        DbType::Postgres => String::from_str("postgres"),
    }
}

#[derive(Debug)]
pub struct PhpService {
    pub version: String,
}

#[derive(Debug)]
pub struct NginxService {
    pub ssl: bool,
}

#[derive(Debug)]
pub struct DbService {
    pub db_type: DbType,
    pub version: String,
    pub db_name: String,
}

#[derive(Debug)]
pub struct Services {
    pub php: PhpService,
    pub nginx: NginxService,
    pub db: DbService,
}

/// Set when a project is a temporary clone of another one.
#[derive(Debug)]
pub struct CloneInfo {
    pub parent_id: String,
    /// Basename of the parent's `path` (nginx serves its uploads from there).
    pub parent_dirname: String,
    pub snapshot_id: String,
    pub created_at: String,
}

/// Set when a project is a worktree project: a light project bound to a repo
/// (theme/plugin) of its parent, mounted to try a branch in isolation.
#[derive(Debug)]
pub struct WorktreeInfo {
    pub parent_id: String,
    /// Basename of the parent's `path`.
    pub parent_dirname: String,
    /// Path of the target repo relative to `public/`.
    pub target_path: String,
    /// Branch of the worktree.
    pub branch: String,
    /// Shares the parent's database schema (`true`) or has its own copy.
    pub shared_db: bool,
    pub created_at: String,
}

/// A git repository of a project, somewhere under `public/`.
#[derive(Debug)]
pub struct GithubRepo {
    pub repo: String,
    pub branch: String,
    pub path: String,
    /// Build command run on the host after a pull or deploy.
    pub build_cmd: Option<String>,
    /// Folders (relative to the repo) where `build_cmd` runs; empty = the root.
    pub build_dirs: Vec<String>,
}

/// Repositories of a project; `theme` and `plugins` are the legacy layout.
#[derive(Debug)]
pub struct GithubConfig {
    pub repos: Vec<GithubRepo>,
    pub theme: Option<GithubRepo>,
    pub plugins: Vec<GithubRepo>,
}

impl Default for GithubConfig {
    fn default() -> (r: Self)
        ensures
            r.repos@.len() == 0,
            r.theme is None,
            r.plugins@.len() == 0,
    {
        GithubConfig { repos: Vec::new(), theme: None, plugins: Vec::new() }
    }
}

/// An optional text by its view.
pub open spec fn opt_text(o: Option<String>) -> Option<Seq<char>> {
    match o {
        Some(s) => Some(s@),
        None => None,
    }
}

/// `b` is what `normalize` makes of `a`: the legacy repos folded into
/// `repos`, the legacy fields emptied.
pub open spec fn normalized_from(a: GithubConfig, b: GithubConfig) -> bool {
    &&& b.repos@ == merge_repos(a.repos@, legacy_repos(a))
    &&& b.theme is None
    &&& b.plugins@.len() == 0
}

/// Some repo in `repos` has the path `p`.
pub open spec fn has_repo_path(repos: Seq<GithubRepo>, p: Seq<char>) -> bool {
    exists|i: int| 0 <= i < repos.len() && (#[trigger] repos[i]).path@ == p
}

/// `repos` with each repo of `legacy` appended, in order, unless a repo with
/// the same path is already there.
pub open spec fn merge_repos(repos: Seq<GithubRepo>, legacy: Seq<GithubRepo>) -> Seq<GithubRepo>
    decreases legacy.len(),
{
    if legacy.len() == 0 {
        repos
    } else {
        let next = if has_repo_path(repos, legacy[0].path@) {
            repos
        } else {
            repos.push(legacy[0])
        };
        merge_repos(next, legacy.drop_first())
    }
}

/// The legacy repos of a configuration: the theme, then the plugins.
pub open spec fn legacy_repos(g: GithubConfig) -> Seq<GithubRepo> {
    match g.theme {
        Some(t) => seq![t] + g.plugins@,
        None => g.plugins@,
    }
}

/// No two repos share a path.
pub open spec fn paths_unique(repos: Seq<GithubRepo>) -> bool {
    forall|i: int, j: int|
        0 <= i < j < repos.len() ==> (#[trigger] repos[i]).path@ != (#[trigger] repos[j]).path@
}

/// Normalizing twice is normalizing once: a normalized configuration has no
/// legacy repos left to fold, so its repos stay as they are.
pub proof fn law_normalize_idempotent(g: GithubConfig, once: GithubConfig, twice: GithubConfig)
    requires
        normalized_from(g, once),
        normalized_from(once, twice),
    ensures
        twice.repos@ == once.repos@,
        twice.theme is None,
        twice.plugins@.len() == 0,
{
    assert(legacy_repos(once) =~= Seq::<GithubRepo>::empty());
}

/// Normalizing keeps the registered repos first and in order, registers every
/// legacy repo's path, and keeps paths unique when they were.
pub proof fn law_normalize_folds_legacy(g: GithubConfig, n: GithubConfig, p: Seq<char>)
    requires
        normalized_from(g, n),
    ensures
        n.repos@.len() >= g.repos@.len(),
        n.repos@.subrange(0, g.repos@.len() as int) == g.repos@,
        has_repo_path(legacy_repos(g), p) ==> has_repo_path(n.repos@, p),
        paths_unique(g.repos@) ==> paths_unique(n.repos@),
{
    lemma_merge_repos_keeps_prefix(g.repos@, legacy_repos(g));
    assert(n.repos@.subrange(0, g.repos@.len() as int) =~= g.repos@);
    lemma_merge_repos_covers(g.repos@, legacy_repos(g), p);
    if paths_unique(g.repos@) {
        lemma_merge_repos_unique(g.repos@, legacy_repos(g));
    }
}

/// Whether a repo of `repos` has the path `p`.
fn repos_have_path(repos: &Vec<GithubRepo>, p: &String) -> (r: bool)
    ensures
        r == has_repo_path(repos@, p@),
{
    let pv = chars_of(p.as_str());
    let mut i: usize = 0;
    while i < repos.len()
        invariant
            i <= repos.len(),
            pv@ == p@,
            forall|j: int| 0 <= j < i ==> (#[trigger] repos@[j]).path@ != p@,
        decreases repos.len() - i,
    {
        if vec_eq_str(&pv, repos[i].path.as_str()) {
            return true;
        }
        i += 1;
    }
    false
}

pub proof fn lemma_merge_repos_keeps_prefix(repos: Seq<GithubRepo>, legacy: Seq<GithubRepo>)
    ensures
        merge_repos(repos, legacy).len() >= repos.len(),
        forall|i: int| 0 <= i < repos.len() ==> merge_repos(repos, legacy)[i] == repos[i],
    decreases legacy.len(),
{
    if legacy.len() > 0 {
        let next = if has_repo_path(repos, legacy[0].path@) {
            repos
        } else {
            repos.push(legacy[0])
        };
        lemma_merge_repos_keeps_prefix(next, legacy.drop_first());
        assert(merge_repos(repos, legacy) == merge_repos(next, legacy.drop_first()));
        assert forall|i: int| 0 <= i < repos.len() implies merge_repos(repos, legacy)[i] == repos[i] by {
            assert(next[i] == repos[i]);
        }
    }
}

pub proof fn lemma_merge_repos_unique(repos: Seq<GithubRepo>, legacy: Seq<GithubRepo>)
    requires
        paths_unique(repos),
    ensures
        paths_unique(merge_repos(repos, legacy)),
    decreases legacy.len(),
{
    if legacy.len() > 0 {
        let next = if has_repo_path(repos, legacy[0].path@) {
            repos
        } else {
            repos.push(legacy[0])
        };
        assert(paths_unique(next)) by {
            if !has_repo_path(repos, legacy[0].path@) {
                assert forall|i: int, j: int|
                    0 <= i < j < next.len() implies (#[trigger] next[i]).path@ != (
                    #[trigger] next[j]).path@ by {
                    if j == repos.len() {
                        assert(next[i] == repos[i]);
                    } else {
                        assert(next[i] == repos[i]);
                        assert(next[j] == repos[j]);
                    }
                }
            }
        }
        lemma_merge_repos_unique(next, legacy.drop_first());
    }
}

pub proof fn lemma_merge_repos_covers(repos: Seq<GithubRepo>, legacy: Seq<GithubRepo>, p: Seq<char>)
    ensures
        has_repo_path(merge_repos(repos, legacy), p) <==> (has_repo_path(repos, p) || has_repo_path(
            legacy,
            p,
        )),
    decreases legacy.len(),
{
    if legacy.len() > 0 {
        let next = if has_repo_path(repos, legacy[0].path@) {
            repos
        } else {
            repos.push(legacy[0])
        };
        lemma_merge_repos_covers(next, legacy.drop_first(), p);
        assert(has_repo_path(next, p) <==> (has_repo_path(repos, p) || legacy[0].path@ == p)) by {
            if has_repo_path(next, p) && !has_repo_path(repos, legacy[0].path@) {
                let i = choose|i: int| 0 <= i < next.len() && (#[trigger] next[i]).path@ == p;
                if i < repos.len() {
                    assert(next[i] == repos[i]);
                }
            }
            if has_repo_path(repos, p) && !has_repo_path(repos, legacy[0].path@) {
                let i = choose|i: int| 0 <= i < repos.len() && (#[trigger] repos[i]).path@ == p;
                assert(next[i] == repos[i]);
            }
            if legacy[0].path@ == p && !has_repo_path(repos, legacy[0].path@) {
                assert(next[repos.len() as int] == legacy[0]);
            }
        }
        assert(has_repo_path(legacy, p) <==> (legacy[0].path@ == p || has_repo_path(
            legacy.drop_first(),
            p,
        ))) by {
            if has_repo_path(legacy, p) && legacy[0].path@ != p {
                let i = choose|i: int| 0 <= i < legacy.len() && (#[trigger] legacy[i]).path@ == p;
                assert(legacy.drop_first()[i - 1] == legacy[i]);
            }
            if has_repo_path(legacy.drop_first(), p) {
                let i = choose|i: int|
                    0 <= i < legacy.drop_first().len() && (#[trigger] legacy.drop_first()[i]).path@
                        == p;
                assert(legacy[i + 1] == legacy.drop_first()[i]);
            }
            if legacy[0].path@ == p {
                assert(legacy[0] == legacy[0]);
            }
        }
    }
}

impl GithubConfig {
    /// Folds the legacy fields (`theme`, `plugins`) into `repos` and empties
    /// them; a legacy repo whose path is already in `repos` is dropped.
    pub fn normalize(&mut self)
        ensures
            final(self).repos@ == merge_repos(old(self).repos@, legacy_repos(*old(self))),
            final(self).theme is None,
            final(self).plugins@.len() == 0,
    {
        let ghost legacy_all = legacy_repos(*self);
        let mut legacy: Vec<GithubRepo> = Vec::new();
        let theme = self.theme.take();
        match theme {
            Some(t) => legacy.push(t),
            None => {},
        }
        let mut plugins: Vec<GithubRepo> = Vec::new();
        std::mem::swap(&mut plugins, &mut self.plugins);
        legacy.append(&mut plugins);
        assert(legacy@ =~= legacy_all);
        let ghost start = self.repos@;
        let mut i: usize = 0;
        let mut rest = legacy;
        // `rest` holds the legacy repos not yet folded in, in order.
        while rest.len() > 0
            invariant
                merge_repos(self.repos@, rest@) == merge_repos(start, legacy_all),
                self.theme is None,
                self.plugins@.len() == 0,
            decreases rest.len(),
        {
            let r = rest.remove(0);
            let ghost tail = rest@;
            let present = repos_have_path(&self.repos, &r.path);
            if !present {
                self.repos.push(r);
            }
        }
        assert(merge_repos(self.repos@, rest@) == self.repos@);
    }
}

/// A project's configuration (its `config.json`).
#[derive(Debug)]
pub struct SiteConfig {
    pub id: String,
    pub name: String,
    pub path: String,
    pub domain: String,
    pub group: Option<String>,
    pub created_at: String,
    pub services: Services,
    pub github: GithubConfig,
    pub one_click_admin: bool,
    pub xdebug_enabled: bool,
    pub headless: bool,
    pub frontend_framework: Option<String>,
    /// Shared local S3 (MinIO), started on demand for this project.
    pub minio: bool,
    pub migration_pending: bool,
    pub last_migrated_at: Option<String>,
    /// Set if this project is a temporary clone of another.
    pub clone_of: Option<CloneInfo>,
    /// Set if this project is a worktree project.
    pub worktree_of: Option<WorktreeInfo>,
    /// Paths (relative to `public_dir`) left out of the snapshot archive, on
    /// top of the fixed exclusions (uploads, cache, wp-config, *.log).
    pub snapshot_excludes: Vec<String>,
}

impl SiteConfig {
    /// Name of the project's php-fpm container: `wp-{id}`.
    pub fn container_name(&self) -> (r: String)
        ensures
            r@ == "wp-"@ + self.id@,
    {
        String::from_str("wp-").concat(self.id.as_str())
    }

    /// `{path}/app/public`.
    pub fn public_dir(&self) -> (r: String)
        ensures
            r@ == join_seq(join_seq(self.path@, "app"@), "public"@),
    {
        let a = join(self.path.as_str(), "app");
        join(a.as_str(), "public")
    }

    /// `{path}/conf/php/php.ini`.
    pub fn php_ini(&self) -> (r: String)
        ensures
            r@ == join_seq(join_seq(join_seq(self.path@, "conf"@), "php"@), "php.ini"@),
    {
        let a = join(self.path.as_str(), "conf");
        let b = join(a.as_str(), "php");
        join(b.as_str(), "php.ini")
    }

    /// `{path}/app/sql`.
    pub fn sql_dir(&self) -> (r: String)
        ensures
            r@ == join_seq(join_seq(self.path@, "app"@), "sql"@),
    {
        let a = join(self.path.as_str(), "app");
        join(a.as_str(), "sql")
    }

    /// `{path}/wt`: host folder holding the git worktree(s) of a worktree
    /// project.
    pub fn worktree_root(&self) -> (r: String)
        ensures
            r@ == join_seq(self.path@, "wt"@),
    {
        join(self.path.as_str(), "wt")
    }

    /// `{path}/wp-config.php`: the worktree project's own wp-config.
    pub fn worktree_wp_config(&self) -> (r: String)
        ensures
            r@ == join_seq(self.path@, "wp-config.php"@),
    {
        join(self.path.as_str(), "wp-config.php")
    }
}


/// Last segment of a relative path such as `wp-content/themes/my-theme`
/// (trailing slashes ignored).
pub open spec fn basename_seq(rel: Seq<char>) -> Seq<char> {
    split_seq(trim_end(rel, CharClass::Is('/')), CharClass::Is('/')).last()
}

/// Last segment of a relative path: `wp-content/themes/my-theme` gives
/// `my-theme`, `wp-content/plugins/x/` gives `x`.
pub fn path_basename(rel: &str) -> (r: &str)
    ensures
        r@ == basename_seq(rel@),
{
    let v = chars_of(rel);
    let t = trim_end_vec(&v, CharClass::Is('/'));
    // The last `/` of the trimmed text starts the last segment.
    let mut k: usize = t.len();
    while k > 0 && t[k - 1] != '/'
        invariant
            k <= t.len(),
            forall|j: int| k <= j < t.len() ==> t@[j] != '/',
        decreases k,
    {
        k -= 1;
    }
    proof {
        lemma_last_field(t@, k as int);
        crate::text::lemma_back_from_bounds(v@, CharClass::Is('/'), 0, v@.len() as int);
        assert(t@ =~= v@.subrange(0, t@.len() as int));
    }
    rel.substring_char(k, t.len())
}

/// The last field of `split_seq(s, Is('/'))` starts after the last `/`.
proof fn lemma_last_field(s: Seq<char>, k: int)
    requires
        0 <= k <= s.len(),
        k == 0 || s[k - 1] == '/',
        forall|j: int| k <= j < s.len() ==> s[j] != '/',
    ensures
        split_seq(s, CharClass::Is('/')).last() == s.subrange(k, s.len() as int),
    decreases s.len(),
{
    crate::text::lemma_split_seq_nonempty(s, CharClass::Is('/'));
    if s.len() == 0 {
    } else if k == s.len() {
        crate::text::lemma_split_seq_nonempty(s.drop_last(), CharClass::Is('/'));
        assert(s.subrange(k, s.len() as int) =~= Seq::<char>::empty());
    } else {
        lemma_last_field(s.drop_last(), k);
        crate::text::lemma_split_seq_nonempty(s.drop_last(), CharClass::Is('/'));
        assert(s.drop_last().subrange(k, s.len() - 1).push(s.last()) =~= s.subrange(
            k,
            s.len() as int,
        ));
    }
}

// ---------------------------------------------------------------------------
// Publication endpoint of the panel (global, not per project)
// ---------------------------------------------------------------------------

/// Where the shared `panel-nginx` publishes on the host. Chosen once and kept,
/// because WordPress stores its `siteurl` with the port.
#[derive(Debug)]
pub struct Endpoint {
    pub loopback_ip: String,
    pub http_port: u16,
    pub https_port: u16,
}

impl Default for Endpoint {
    fn default() -> (r: Self)
        ensures
            r.loopback_ip@ == "127.0.0.1"@,
            r.http_port == 80,
            r.https_port == 443,
    {
        Endpoint { loopback_ip: String::from_str("127.0.0.1"), http_port: 80, https_port: 443 }
    }
}

/// Public URL of a site: the port appears only when it is not the scheme's
/// standard one.
pub open spec fn site_url_seq(http_port: u16, https_port: u16, domain: Seq<char>, ssl: bool) -> Seq<
    char,
> {
    if ssl {
        if https_port == 443 {
            "https://"@ + domain
        } else {
            "https://"@ + domain + ":"@ + dec_seq(https_port as nat)
        }
    } else if http_port == 80 {
        "http://"@ + domain
    } else {
        "http://"@ + domain + ":"@ + dec_seq(http_port as nat)
    }
}

impl Endpoint {
    /// Public URL of the site (with a port only if it is not the standard one).
    pub fn site_url(&self, domain: &str, ssl: bool) -> (r: String)
        ensures
            r@ == site_url_seq(self.http_port, self.https_port, domain@, ssl),
    {
        if ssl {
            let s = String::from_str("https://").concat(domain);
            if self.https_port == 443 {
                s
            } else {
                let mut s = s.concat(":");
                push_dec(&mut s, self.https_port as u64);
                s
            }
        } else {
            let s = String::from_str("http://").concat(domain);
            if self.http_port == 80 {
                s
            } else {
                let mut s = s.concat(":");
                push_dec(&mut s, self.http_port as u64);
                s
            }
        }
    }

    /// Whether this is the default setting (127.0.0.1:80/443, clean URLs).
    pub fn is_default(&self) -> (r: bool)
        ensures
            r == (self.loopback_ip@ == "127.0.0.1"@ && self.http_port == 80 && self.https_port
                == 443),
    {
        let ip = chars_of(self.loopback_ip.as_str());
        vec_eq_str(&ip, "127.0.0.1") && self.http_port == 80 && self.https_port == 443
    }
}

/// Global state of the panel (`panel.json`).
#[derive(Debug)]
pub struct PanelConfig {
    pub endpoint: Option<Endpoint>,
}

impl Default for PanelConfig {
    fn default() -> (r: Self)
        ensures
            r.endpoint is None,
    {
        PanelConfig { endpoint: None }
    }
}

/// `{config_dir}/panel.json`.
pub fn panel_config_path(config_dir: &str) -> (r: String)
    ensures
        r@ == join_seq(config_dir@, "panel.json"@),
{
    join(config_dir, "panel.json")
}

/// The endpoint kept in the settings `cfg`, if one was chosen.
pub open spec fn loaded_endpoint(cfg: PanelConfig) -> Option<Endpoint> {
    cfg.endpoint
}

/// The settings after keeping `ep` as the chosen endpoint.
pub open spec fn saved_config(cfg: PanelConfig, ep: Endpoint) -> PanelConfig {
    PanelConfig { endpoint: Some(ep), ..cfg }
}

/// The settings after forgetting the chosen endpoint.
pub open spec fn cleared_config(cfg: PanelConfig) -> PanelConfig {
    PanelConfig { endpoint: None, ..cfg }
}

/// The default endpoint: `127.0.0.1`, ports 80 and 443.
pub open spec fn is_default_endpoint(e: Endpoint) -> bool {
    e.loopback_ip@ == "127.0.0.1"@ && e.http_port == 80 && e.https_port == 443
}

/// `e` is the endpoint URLs are built with when `loaded` was read: the loaded
/// one, else the default.
pub open spec fn effective_endpoint(loaded: Option<Endpoint>, e: Endpoint) -> bool {
    match loaded {
        Some(x) => e == x,
        None => is_default_endpoint(e),
    }
}

/// The endpoint already chosen and kept in the panel settings, if any.
pub fn load_endpoint(cfg: PanelConfig) -> (r: Option<Endpoint>)
    ensures
        r == loaded_endpoint(cfg),
{
    cfg.endpoint
}

/// The endpoint to build URLs with: the loaded one, or the default if none was
/// chosen yet (or the settings could not be read).
pub fn endpoint_or_default(loaded: Option<Endpoint>) -> (r: Endpoint)
    ensures
        effective_endpoint(loaded, r),
{
    match loaded {
        Some(ep) => ep,
        None => Endpoint::default(),
    }
}

/// Keeps `ep` as the chosen endpoint in the settings `cfg` (to be written back).
pub fn save_endpoint(cfg: &mut PanelConfig, ep: Endpoint)
    ensures
        *final(cfg) == saved_config(*old(cfg), ep),
{
    cfg.endpoint = Some(ep);
}

/// Forgets the chosen endpoint: the next start of `panel-nginx` detects a free
/// port again.
pub fn clear_endpoint(cfg: &mut PanelConfig)
    ensures
        *final(cfg) == cleared_config(*old(cfg)),
{
    cfg.endpoint = None;
}

/// Settings that kept an endpoint give it back when read, and URLs are then
/// built with it; once it is forgotten (even right after keeping one),
/// nothing is read back and URLs use the default endpoint.
pub proof fn law_endpoint_kept_and_forgotten(cfg: PanelConfig, ep: Endpoint, e: Endpoint)
    ensures
        loaded_endpoint(saved_config(cfg, ep)) == Some(ep),
        effective_endpoint(loaded_endpoint(saved_config(cfg, ep)), e) ==> e == ep,
        loaded_endpoint(cleared_config(saved_config(cfg, ep))) is None,
        loaded_endpoint(cleared_config(cfg)) is None,
        effective_endpoint(loaded_endpoint(cleared_config(cfg)), e) ==> is_default_endpoint(e),
{
}

#[derive(Debug, Clone, Copy, PartialEq, Eq, Structural)]
pub enum SiteStatus {
    Running,
    Stopped,
    MigrationPending,
}

/// A project with its actual state.
#[derive(Debug)]
pub struct SiteState {
    pub config: SiteConfig,
    pub status: SiteStatus,
}

/// The status shown for a project: pending while a migration is due, otherwise
/// running or stopped as its php container is.
pub fn site_status(site: &SiteConfig, container_running: bool) -> (r: SiteStatus)
    ensures
        r == (if site.migration_pending {
            SiteStatus::MigrationPending
        } else if container_running {
            SiteStatus::Running
        } else {
            SiteStatus::Stopped
        }),
{
    if site.migration_pending {
        SiteStatus::MigrationPending
    } else if container_running {
        SiteStatus::Running
    } else {
        SiteStatus::Stopped
    }
}

/// Index of the first project of `sites` whose id is `id`.
pub open spec fn first_with_id(sites: Seq<SiteConfig>, id: Seq<char>, i: int) -> bool {
    &&& 0 <= i < sites.len()
    &&& sites[i].id@ == id
    &&& forall|j: int| 0 <= j < i ==> (#[trigger] sites[j]).id@ != id
}

/// The project with id `id` among `sites` (the first one, if several).
pub fn find_site(sites: Vec<SiteConfig>, id: &str) -> (r: Option<SiteConfig>)
    ensures
        match r {
            Some(s) => exists|i: int| first_with_id(sites@, id@, i) && s == sites@[i],
            None => forall|j: int| 0 <= j < sites@.len() ==> (#[trigger] sites@[j]).id@ != id@,
        },
{
    let idv = chars_of(id);
    let mut i: usize = 0;
    while i < sites.len()
        invariant
            i <= sites.len(),
            idv@ == id@,
            forall|j: int| 0 <= j < i ==> (#[trigger] sites@[j]).id@ != id@,
        decreases sites.len() - i,
    {
        if vec_eq_str(&idv, sites[i].id.as_str()) {
            let ghost all = sites@;
            let mut sites = sites;
            let s = sites.swap_remove(i);
            assert(first_with_id(all, id@, i as int));
            return Some(s);
        }
        i += 1;
    }
    None
}

/// Sidecar file where a disconnected project keeps its configuration.
pub const DISCONNECTED_CONFIG: &'static str = "config.disconnected.json";

/// `{path}/config.disconnected.json`.
pub fn disconnected_config_path(path: &str) -> (r: String)
    ensures
        r@ == join_seq(path@, "config.disconnected.json"@),
{
    join(path, "config.disconnected.json")
}

/// A folder of `~/panel-wp/` no longer registered in the panel but still on
/// disk, a candidate for re-import.
#[derive(Debug)]
pub struct DisconnectedSite {
    pub folder_name: String,
    pub path: String,
    pub name: String,
    pub domain: String,
    pub php_version: String,
    pub db_version: String,
    pub db_type: String,
    /// There is at least one `*.sql` in `app/sql/`.
    pub has_dump: bool,
    /// `preserved` (had a sidecar config) or `reconstructed`.
    pub kind: String,
}


// ---------------------------------------------------------------------------
// `DB_NAME` of a wp-config.php
// ---------------------------------------------------------------------------

/// The value a `define( 'DB_NAME', 'value' );` line carries: the text after
/// the third quote (single or double) up to the fourth quote or the end of the
/// line. `None` when the line has fewer than three quotes.
pub open spec fn quoted_value(line: Seq<char>) -> Option<Seq<char>> {
    let q = CharClass::Quote;
    let n = line.len() as int;
    let q1 = find_class_from(line, q, 0);
    let q2 = find_class_from(line, q, q1 + 1);
    let q3 = find_class_from(line, q, q2 + 1);
    let q4 = find_class_from(line, q, q3 + 1);
    if q1 >= n || q2 >= n || q3 >= n {
        None
    } else {
        Some(line.subrange(q3 + 1, q4))
    }
}

/// Scanning `lines` in order: a (trimmed) line that mentions both `DB_NAME` and
/// `define` gives its quoted value if that is not empty; such a line with too
/// few quotes ends the scan with nothing; other lines are skipped.
pub open spec fn db_name_in_lines(lines: Seq<Seq<char>>) -> Option<Seq<char>>
    decreases lines.len(),
{
    if lines.len() == 0 {
        None
    } else {
        let line = trim(lines[0], CharClass::Whitespace);
        if !(contains_seq(line, "DB_NAME"@) && contains_seq(line, "define"@)) {
            db_name_in_lines(lines.drop_first())
        } else {
            match quoted_value(line) {
                None => None,
                Some(v) => if v.len() > 0 {
                    Some(v)
                } else {
                    db_name_in_lines(lines.drop_first())
                },
            }
        }
    }
}

/// `DB_NAME` of a wp-config.php text.
pub open spec fn db_name_of(wp_config: Seq<char>) -> Option<Seq<char>> {
    db_name_in_lines(lines_seq(wp_config))
}

fn quoted_value_exec(line: &Vec<char>) -> (r: Option<Vec<char>>)
    ensures
        match r {
            Some(v) => quoted_value(line@) == Some(v@),
            None => quoted_value(line@) is None,
        },
{
    let q = CharClass::Quote;
    let n = line.len();
    let q1 = find_class(line, q, 0);
    if q1 >= n {
        return None;
    }
    let q2 = find_class(line, q, q1 + 1);
    if q2 >= n {
        return None;
    }
    let q3 = find_class(line, q, q2 + 1);
    if q3 >= n {
        return None;
    }
    let q4 = find_class(line, q, q3 + 1);
    Some(subvec(line, q3 + 1, q4))
}

/// Reads `DB_NAME` from a `wp-config.php` (`define('DB_NAME', '...')`).
pub fn parse_db_name(wp_config: &str) -> (r: Option<String>)
    ensures
        match r {
            Some(s) => db_name_of(wp_config@) == Some(s@),
            None => db_name_of(wp_config@) is None,
        },
{
    let text = chars_of(wp_config);
    let lines = lines_vec(&text);
    let db_name = chars_of("DB_NAME");
    let define = chars_of("define");
    let ghost all = lines_seq(wp_config@);
    assert(all.skip(0) =~= all);
    let mut i: usize = 0;
    while i < lines.len()
        invariant
            i <= lines.len(),
            vv(lines@) == all,
            db_name@ == "DB_NAME"@,
            define@ == "define"@,
            db_name_of(wp_config@) == db_name_in_lines(all.skip(i as int)),
        decreases lines.len() - i,
    {
        let ghost here = all.skip(i as int);
        assert(here[0] == lines@[i as int]@);
        assert(here.drop_first() =~= all.skip(i as int + 1));
        let line = trim_vec(&lines[i], CharClass::Whitespace);
        if vec_contains(&line, &db_name) && vec_contains(&line, &define) {
            match quoted_value_exec(&line) {
                None => {
                    return None;
                },
                Some(v) => {
                    if v.len() > 0 {
                        return Some(string_of(&v));
                    }
                },
            }
        }
        i += 1;
    }
    assert(all.skip(lines.len() as int) =~= Seq::<Seq<char>>::empty());
    None
}

} // verus!
