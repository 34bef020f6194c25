//! Creating WordPress projects: requests, versions, slugs and derived names.

use vstd::prelude::*;

use crate::config::{DbService, DbType, GithubConfig, NginxService, PhpService, Services, SiteConfig};
use crate::order::{sort_ranked, sort_stable, Ranked};
use crate::paths::{join, join_seq};
use crate::text::{
    chars_of, parse_uint_spec, push_chars, replace_char, replace_char_vec, split_seq, split_vec,
    string_of, trim, trim_vec, vv, CharClass,
};

verus! {

broadcast use vstd::string::group_string_axioms;

/// What the user asks for when creating a project.
#[derive(Debug)]
pub struct NewSiteRequest {
    pub name: String,
    pub domain: Option<String>,
    pub wp_version: String,
    pub locale: String,
    pub php_version: String,
    pub db_type: DbType,
    pub db_version: String,
    pub admin_user: String,
    pub admin_password: String,
    pub admin_email: String,
    pub title: String,
    pub ssl: bool,
    pub one_click_admin: bool,
    pub xdebug: bool,
    pub headless: bool,
    pub frontend_framework: Option<String>,
    pub minio: bool,
    pub group: Option<String>,
}

/// Locale used when a request gives none.
pub fn default_locale() -> (r: String)
    ensures
        r@ == "en_US"@,
{
    String::from_str("en_US")
}

/// A WordPress release and its status (`latest`, `outdated`, `insecure`).
#[derive(Debug)]
pub struct WpVersion {
    pub version: String,
    pub status: String,
}

/// Database name derived from a project slug: `-` become `_`, then `_db`.
pub open spec fn db_name_seq(slug: Seq<char>) -> Seq<char> {
    replace_char(slug, '-', '_') + "_db"@
}

/// `{slug with - as _}_db`.
pub fn db_name_for_slug(slug: &str) -> (r: String)
    ensures
        r@ == db_name_seq(slug@),
{
    let v = chars_of(slug);
    let w = replace_char_vec(&v, '-', '_');
    let mut r = String::new();
    push_chars(&mut r, &w);
    assert(Seq::<char>::empty() + w@ =~= w@);
    r.concat("_db")
}

/// Unicode lowercase of a text (what `str::to_lowercase` returns).
pub uninterp spec fn unicode_lowercase(s: Seq<char>) -> Seq<char>;

/// Whether a character is alphabetic or numeric in Unicode (what
/// `char::is_alphanumeric` returns).
pub uninterp spec fn unicode_alphanumeric(c: char) -> bool;

/// `str::to_lowercase`: the Unicode lowercase mapping, which takes pages of
/// tables to state; its result is named, not described.
#[verifier::external_body]
fn to_lowercase(s: &str) -> (r: String)
    ensures
        r@ == unicode_lowercase(s@),
{
    s.to_lowercase()
}

/// `char::is_alphanumeric` (Unicode `Alphabetic` or `Numeric`), named, not
/// described.
#[verifier::external_body]
pub(crate) fn is_alphanumeric(c: char) -> (r: bool)
    ensures
        r == unicode_alphanumeric(c),
{
    c.is_alphanumeric()
}

/// Every character that is not alphanumeric becomes `-`.
pub open spec fn dash_non_alnum(s: Seq<char>) -> Seq<char> {
    s.map_values(|c: char| if unicode_alphanumeric(c) { c } else { '-' })
}

/// The non-empty parts of `parts`, joined with `-`.
pub open spec fn join_nonempty(parts: Seq<Seq<char>>) -> Seq<char>
    decreases parts.len(),
{
    if parts.len() == 0 {
        Seq::<char>::empty()
    } else {
        let rest = join_nonempty(parts.drop_last());
        let p = parts.last();
        if p.len() == 0 {
            rest
        } else if rest.len() == 0 {
            p
        } else {
            rest + "-"@ + p
        }
    }
}

/// Slug of a project name: trimmed, lowercased, every non-alphanumeric
/// character a separator, and the non-empty pieces joined with `-`.
pub open spec fn slugify_seq(name: Seq<char>) -> Seq<char> {
    join_nonempty(
        split_seq(
            dash_non_alnum(unicode_lowercase(trim(name, CharClass::Whitespace))),
            CharClass::Is('-'),
        ),
    )
}

/// Slug of a project name (folder and `.test` domain).
pub fn slugify(name: &str) -> (r: String)
    ensures
        r@ == slugify_seq(name@),
{
    let v = chars_of(name);
    let t = string_of(&trim_vec(&v, CharClass::Whitespace));
    let lower = to_lowercase(t.as_str());
    let lv = chars_of(lower.as_str());
    let mut mapped: Vec<char> = Vec::new();
    let mut i: usize = 0;
    while i < lv.len()
        invariant
            i <= lv.len(),
            mapped@ == dash_non_alnum(lv@.take(i as int)),
        decreases lv.len() - i,
    {
        let c = lv[i];
        let m = if is_alphanumeric(c) {
            c
        } else {
            '-'
        };
        mapped.push(m);
        assert(dash_non_alnum(lv@.take(i as int + 1)) =~= dash_non_alnum(lv@.take(i as int)).push(
            m,
        ));
        i += 1;
    }
    assert(lv@.take(lv.len() as int) =~= lv@);
    let parts = split_vec(&mapped, CharClass::Is('-'));
    let ghost all = vv(parts@);
    let mut out = String::new();
    let mut any = false;
    let mut k: usize = 0;
    assert(all.take(0) =~= Seq::<Seq<char>>::empty());
    while k < parts.len()
        invariant
            k <= parts.len(),
            all == vv(parts@),
            out@ == join_nonempty(all.take(k as int)),
            any == (out@.len() > 0),
        decreases parts.len() - k,
    {
        assert(all.take(k as int + 1).drop_last() =~= all.take(k as int));
        assert(all.take(k as int + 1).last() == parts@[k as int]@);
        let p = &parts[k];
        if p.len() > 0 {
            if any {
                crate::text::push_char(&mut out, '-');
                assert(out@ =~= join_nonempty(all.take(k as int)) + "-"@) by {
                    reveal_strlit("-");
                }
            }
            let ghost before = out@;
            push_chars(&mut out, p);
            any = true;
        }
        k += 1;
    }
    assert(all.take(parts.len() as int) =~= all);
    out
}

/// Numeric key for ordering versions such as `6.7.2`: the first three
/// dot-separated parts, each `0` when it is missing or not a number.
pub open spec fn version_part(parts: Seq<Seq<char>>, i: int) -> nat {
    if i < parts.len() {
        match parse_uint_spec(parts[i], 10, 0xffff_ffff) {
            Some(n) => n,
            None => 0,
        }
    } else {
        0
    }
}

pub open spec fn version_key_seq(v: Seq<char>) -> (nat, nat, nat) {
    let parts = split_seq(v, CharClass::Is('.'));
    (version_part(parts, 0), version_part(parts, 1), version_part(parts, 2))
}

fn part_at(parts: &Vec<Vec<char>>, i: usize) -> (r: u32)
    ensures
        r as nat == version_part(vv(parts@), i as int),
{
    if i < parts.len() {
        match crate::text::parse_dec(&parts[i], 0xffff_ffff) {
            Some(n) => n as u32,
            None => 0,
        }
    } else {
        0
    }
}

/// Sort key of a version string.
pub fn version_key(v: &str) -> (r: (u32, u32, u32))
    ensures
        (r.0 as nat, r.1 as nat, r.2 as nat) == version_key_seq(v@),
{
    let c = chars_of(v);
    let parts = split_vec(&c, CharClass::Is('.'));
    (part_at(&parts, 0), part_at(&parts, 1), part_at(&parts, 2))
}

/// `(a, b, c)` comes after `(x, y, z)` in the order of tuples.
pub open spec fn key_gt(a: (nat, nat, nat), b: (nat, nat, nat)) -> bool {
    ||| a.0 > b.0
    ||| (a.0 == b.0 && a.1 > b.1)
    ||| (a.0 == b.0 && a.1 == b.1 && a.2 > b.2)
}

impl Ranked for WpVersion {
    /// Newest first, by `version_key`.
    open spec fn ranks_before(&self, other: &Self) -> bool {
        key_gt(version_key_seq(self.version@), version_key_seq(other.version@))
    }

    fn goes_before(&self, other: &Self) -> (r: bool) {
        let a = version_key(self.version.as_str());
        let b = version_key(other.version.as_str());
        a.0 > b.0 || (a.0 == b.0 && a.1 > b.1) || (a.0 == b.0 && a.1 == b.1 && a.2 > b.2)
    }
}

/// The releases as offered: newest first by their numeric key (ties keep
/// their order).
pub fn sort_versions(versions: Vec<WpVersion>) -> (r: Vec<WpVersion>)
    ensures
        r@ == sort_ranked(versions@),
{
    sort_stable(versions)
}

/// What `create_site` records for a new project with id `id`, kept in `path`
/// and created at `created_at`: the domain asked for or `{slug}.test`, the
/// database `{slug}_db`, the request's services and options, no GitHub repos.
pub open spec fn new_site_ok(req: NewSiteRequest, id: Seq<char>, path: Seq<char>, created_at: Seq<char>, s: SiteConfig) -> bool {
    &&& s.id@ == id
    &&& s.name@ == req.name@
    &&& s.path@ == path
    &&& s.domain@ == match req.domain {
        Some(d) => d@,
        None => slugify_seq(req.name@) + ".test"@,
    }
    &&& s.group == req.group
    &&& s.created_at@ == created_at
    &&& s.services.php.version@ == req.php_version@
    &&& s.services.nginx.ssl == req.ssl
    &&& s.services.db.db_type == req.db_type
    &&& s.services.db.version@ == req.db_version@
    &&& s.services.db.db_name@ == db_name_seq(slugify_seq(req.name@))
    &&& s.github.repos@.len() == 0 && s.github.theme is None && s.github.plugins@.len() == 0
    &&& s.one_click_admin == req.one_click_admin
    &&& s.xdebug_enabled == req.xdebug
    &&& s.headless == req.headless
    &&& s.frontend_framework == req.frontend_framework
    &&& s.minio == req.minio
    &&& !s.migration_pending
    &&& s.last_migrated_at is None
    &&& s.clone_of is None
    &&& s.worktree_of is None
    &&& s.snapshot_excludes@.len() == 0
}

/// The project a creation request describes.
pub fn new_site_config(req: NewSiteRequest, id: &str, path: &str, created_at: &str) -> (s: SiteConfig)
    ensures
        new_site_ok(req, id@, path@, created_at@, s),
{
    let slug = slugify(req.name.as_str());
    let domain = match &req.domain {
        Some(d) => String::from_str(d.as_str()),
        None => String::from_str(slug.as_str()).concat(".test"),
    };
    let db_name = db_name_for_slug(slug.as_str());
    SiteConfig {
        id: String::from_str(id),
        name: req.name,
        path: String::from_str(path),
        domain,
        group: req.group,
        created_at: String::from_str(created_at),
        services: Services {
            php: PhpService { version: req.php_version },
            nginx: NginxService { ssl: req.ssl },
            db: DbService { db_type: req.db_type, version: req.db_version, db_name },
        },
        github: GithubConfig::default(),
        one_click_admin: req.one_click_admin,
        xdebug_enabled: req.xdebug,
        headless: req.headless,
        frontend_framework: req.frontend_framework,
        minio: req.minio,
        migration_pending: false,
        last_migrated_at: None,
        clone_of: None,
        worktree_of: None,
        snapshot_excludes: Vec::new(),
    }
}

/// The folders a project starts with, under its path.
pub open spec fn project_subdirs_seq() -> Seq<Seq<char>> {
    seq!["app/public"@, "app/sql"@, "conf/php"@, "logs/php"@, "ssl"@, "data"@]
}

pub fn project_subdirs(site: &SiteConfig) -> (r: Vec<String>)
    ensures
        r@.len() == project_subdirs_seq().len(),
        forall|i: int| 0 <= i < r@.len() ==> (#[trigger] r@[i])@ == join_seq(site.path@, project_subdirs_seq()[i]),
{
    let subs = vec!["app/public", "app/sql", "conf/php", "logs/php", "ssl", "data"];
    assert(subs@.map_values(|x: &str| x@) =~= project_subdirs_seq());
    let mut r: Vec<String> = Vec::new();
    let mut i: usize = 0;
    while i < subs.len()
        invariant
            i <= subs.len(),
            subs@.map_values(|x: &str| x@) == project_subdirs_seq(),
            r@.len() == i,
            forall|j: int| 0 <= j < i ==> (#[trigger] r@[j])@ == join_seq(site.path@, project_subdirs_seq()[j]),
        decreases subs.len() - i,
    {
        assert(subs@.map_values(|x: &str| x@)[i as int] == subs@[i as int]@);
        r.push(join(site.path.as_str(), subs[i]));
        i += 1;
    }
    r
}

/// The `php.ini` a project gets when the template cannot be read.
pub const DEFAULT_PHP_INI: &'static str = "memory_limit = 256M\nupload_max_filesize = 64M\npost_max_size = 64M\nmax_execution_time = 120\n";

/// Where a release's tarball is downloaded from.
pub fn core_download_url(version: &str) -> (r: String)
    ensures
        r@ == "https://wordpress.org/wordpress-"@ + version@ + ".tar.gz"@,
{
    String::from_str("https://wordpress.org/wordpress-").concat(version).concat(".tar.gz")
}

/// The temporary file name of a release's tarball.
pub fn core_tarball_name(version: &str) -> (r: String)
    ensures
        r@ == "wp-"@ + version@ + ".tar.gz"@,
{
    String::from_str("wp-").concat(version).concat(".tar.gz")
}

/// The `tar` arguments that unpack the tarball into the public folder,
/// dropping its leading `wordpress/`.
pub fn core_extract_args(tarball: &str, public: &str) -> (r: Vec<String>)
    ensures
        r@.len() == 5,
        r@[0]@ == "-xzf"@,
        r@[1]@ == tarball@,
        r@[2]@ == "--strip-components=1"@,
        r@[3]@ == "-C"@,
        r@[4]@ == public@,
{
    vec![
        String::from_str("-xzf"),
        String::from_str(tarball),
        String::from_str("--strip-components=1"),
        String::from_str("-C"),
        String::from_str(public),
    ]
}

/// The command, run in the database container, that creates the project's
/// empty database (MySQL/MariaDB: only if missing, in utf8mb4).
pub fn create_database_command(db: &DbService) -> (r: Vec<String>)
    ensures
        match db.db_type {
            DbType::Mysql | DbType::Mariadb => r@.len() == 5 && r@[0]@ == "mysql"@ && r@[1]@
                == "-uroot"@ && r@[2]@ == "-ppanel"@ && r@[3]@ == "-e"@ && r@[4]@
                == "CREATE DATABASE IF NOT EXISTS `"@ + db.db_name@
                + "` CHARACTER SET utf8mb4 COLLATE utf8mb4_unicode_ci;"@,
            DbType::Postgres => r@.len() == 5 && r@[0]@ == "psql"@ && r@[1]@ == "-U"@ && r@[2]@
                == "panel"@ && r@[3]@ == "-c"@ && r@[4]@ == "CREATE DATABASE \""@ + db.db_name@
                + "\";"@,
        },
{
    match db.db_type {
        DbType::Mysql | DbType::Mariadb => vec![
            String::from_str("mysql"),
            String::from_str("-uroot"),
            String::from_str("-ppanel"),
            String::from_str("-e"),
            String::from_str("CREATE DATABASE IF NOT EXISTS `").concat(db.db_name.as_str()).concat(
                "` CHARACTER SET utf8mb4 COLLATE utf8mb4_unicode_ci;",
            ),
        ],
        DbType::Postgres => vec![
            String::from_str("psql"),
            String::from_str("-U"),
            String::from_str("panel"),
            String::from_str("-c"),
            String::from_str("CREATE DATABASE \"").concat(db.db_name.as_str()).concat("\";"),
        ],
    }
}

/// The command, run in the database container, that drops the project's
/// database when it exists (deleting a project, or emptying the database
/// again after a cancelled import, before `create_database_command`).
pub fn drop_database_command(db: &DbService) -> (r: Vec<String>)
    ensures
        match db.db_type {
            DbType::Mysql | DbType::Mariadb => r@.len() == 5 && r@[0]@ == "mysql"@ && r@[1]@
                == "-uroot"@ && r@[2]@ == "-ppanel"@ && r@[3]@ == "-e"@ && r@[4]@
                == "DROP DATABASE IF EXISTS `"@ + db.db_name@ + "`;"@,
            DbType::Postgres => r@.len() == 5 && r@[0]@ == "psql"@ && r@[1]@ == "-U"@ && r@[2]@
                == "panel"@ && r@[3]@ == "-c"@ && r@[4]@ == "DROP DATABASE IF EXISTS \""@ + db.db_name@
                + "\";"@,
        },
{
    match db.db_type {
        DbType::Mysql | DbType::Mariadb => vec![
            String::from_str("mysql"),
            String::from_str("-uroot"),
            String::from_str("-ppanel"),
            String::from_str("-e"),
            String::from_str("DROP DATABASE IF EXISTS `").concat(db.db_name.as_str()).concat("`;"),
        ],
        DbType::Postgres => vec![
            String::from_str("psql"),
            String::from_str("-U"),
            String::from_str("panel"),
            String::from_str("-c"),
            String::from_str("DROP DATABASE IF EXISTS \"").concat(db.db_name.as_str()).concat("\";"),
        ],
    }
}

/// The WP-CLI arguments that write `wp-config.php` with the panel's database
/// credentials (root/panel on the shared container).
pub fn wp_config_create_args(db_name: &str, db_container: &str) -> (r: Vec<String>)
    ensures
        r@.len() == 8,
        r@[0]@ == "config"@,
        r@[1]@ == "create"@,
        r@[2]@ == "--dbname="@ + db_name@,
        r@[3]@ == "--dbuser=root"@,
        r@[4]@ == "--dbpass=panel"@,
        r@[5]@ == "--dbhost="@ + db_container@,
        r@[6]@ == "--skip-check"@,
        r@[7]@ == "--force"@,
{
    vec![
        String::from_str("config"),
        String::from_str("create"),
        String::from_str("--dbname=").concat(db_name),
        String::from_str("--dbuser=root"),
        String::from_str("--dbpass=panel"),
        String::from_str("--dbhost=").concat(db_container),
        String::from_str("--skip-check"),
        String::from_str("--force"),
    ]
}

/// The WP-CLI arguments of the core install at the project's URL.
pub fn core_install_args(site: &SiteConfig, req: &NewSiteRequest) -> (r: Vec<String>)
    ensures
        r@.len() == 8,
        r@[0]@ == "core"@,
        r@[1]@ == "install"@,
        r@[2]@ == "--url="@ + (if site.services.nginx.ssl {
            "https"@
        } else {
            "http"@
        }) + "://"@ + site.domain@,
        r@[3]@ == "--title="@ + req.title@,
        r@[4]@ == "--admin_user="@ + req.admin_user@,
        r@[5]@ == "--admin_password="@ + req.admin_password@,
        r@[6]@ == "--admin_email="@ + req.admin_email@,
        r@[7]@ == "--skip-email"@,
{
    let scheme = crate::migrate::url_scheme(site.services.nginx.ssl);
    vec![
        String::from_str("core"),
        String::from_str("install"),
        String::from_str("--url=").concat(scheme).concat("://").concat(site.domain.as_str()),
        String::from_str("--title=").concat(req.title.as_str()),
        String::from_str("--admin_user=").concat(req.admin_user.as_str()),
        String::from_str("--admin_password=").concat(req.admin_password.as_str()),
        String::from_str("--admin_email=").concat(req.admin_email.as_str()),
        String::from_str("--skip-email"),
    ]
}

/// The WP-CLI arguments that install and activate the site's language, or none
/// for the default `en_US`.
pub fn language_args(locale: &str) -> (r: Option<Vec<String>>)
    ensures
        locale@ == "en_US"@ ==> r is None,
        locale@ != "en_US"@ ==> (r matches Some(v) && v@.len() == 5 && v@[0]@ == "language"@ && v@[1]@
            == "core"@ && v@[2]@ == "install"@ && v@[3]@ == locale@ && v@[4]@ == "--activate"@),
{
    if crate::text::str_eq(locale, "en_US") {
        return None;
    }
    Some(
        vec![
            String::from_str("language"),
            String::from_str("core"),
            String::from_str("install"),
            String::from_str(locale),
            String::from_str("--activate"),
        ],
    )
}

/// `{public}/wp-content/mu-plugins`.
pub fn mu_plugins_dir(site: &SiteConfig) -> (r: String)
    ensures
        r@ == join_seq(join_seq(join_seq(join_seq(site.path@, "app"@), "public"@), "wp-content"@), "mu-plugins"@),
{
    let wc = join(site.public_dir().as_str(), "wp-content");
    join(wc.as_str(), "mu-plugins")
}

/// The mail mu-plugin for the project: the template with the project's id in
/// place of every `__PROJECT_ID__`.
pub fn mailpit_muplugin(template: &str, site_id: &str) -> (r: String)
    ensures
        r@ == crate::text::replace_seq(template@, "__PROJECT_ID__"@, site_id@),
{
    proof {
        reveal_strlit("__PROJECT_ID__");
    }
    crate::text::replace_str(template, "__PROJECT_ID__", site_id)
}

/// The mail mu-plugin used when its template cannot be read: mail goes to the
/// shared Mailpit with the header `X-Project-ID`.
pub const DEFAULT_MAILPIT_MUPLUGIN: &'static str = "<?php\n/**\n * Panel WP — enruta el correo del proyecto a Mailpit compartido.\n */\nadd_action( 'phpmailer_init', function ( $mailer ) {\n    $mailer->isSMTP();\n    $mailer->Host     = 'panel-mailpit';\n    $mailer->Port     = 1025;\n    $mailer->SMTPAuth = false;\n    $mailer->addCustomHeader( 'X-Project-ID', '__PROJECT_ID__' );\n} );\n";

/// The auto-login mu-plugin used when its template cannot be read: a one-time
/// token logs in the first administrator.
pub const DEFAULT_AUTOLOGIN_MUPLUGIN: &'static str = "<?php\ndefined( 'ABSPATH' ) || exit;\nadd_action( 'init', function () {\n    if ( empty( $_GET['panel_autologin'] ) ) { return; }\n    $token = preg_replace( '/[^a-z0-9]/i', '', (string) $_GET['panel_autologin'] );\n    if ( $token === '' ) { return; }\n    $key = 'panel_autologin_' . $token;\n    if ( get_transient( $key ) === false ) { return; }\n    delete_transient( $key );\n    $admins = get_users( array( 'role' => 'administrator', 'number' => 1 ) );\n    if ( empty( $admins ) ) { return; }\n    wp_set_current_user( $admins[0]->ID );\n    wp_set_auth_cookie( $admins[0]->ID, true );\n    wp_safe_redirect( admin_url() );\n    exit;\n} );\n";

/// The project for a creation request, kept in `{projects_root}/{slug}`, with
/// a fresh random id and the current time; `None` when the system gives no
/// random id or no current time.
pub fn create_site_config(req: NewSiteRequest, projects_root: &str) -> (r: Option<SiteConfig>)
    ensures
        r matches Some(s) ==> crate::ids::is_uuid_v4_text(s.id@) && exists|created_at: Seq<char>|
            crate::clock::is_rfc3339_utc(created_at) && #[trigger] new_site_ok(
                req,
                s.id@,
                join_seq(projects_root@, slugify_seq(req.name@)),
                created_at,
                s,
            ),
{
    let ghost r0 = req;
    let path = join(projects_root, slugify(req.name.as_str()).as_str());
    let id = match crate::ids::new_uuid() {
        Some(id) => id,
        None => {
            return None;
        },
    };
    let now = match crate::clock::now_rfc3339() {
        Some(now) => now,
        None => {
            return None;
        },
    };
    let s = new_site_config(req, id.as_str(), path.as_str(), now.as_str());
    assert(new_site_ok(r0, s.id@, join_seq(projects_root@, slugify_seq(r0.name@)), now@, s));
    Some(s)
}

/// The report after rewriting every project's `php.ini`: how many of the
/// total succeeded, and the errors (one per line) when some failed.
pub fn php_ini_report(ok: u64, total: u64, errors: &Vec<String>) -> (r: String)
    ensures
        errors@.len() == 0 ==> r@ == "php.ini actualizado en "@ + crate::text::dec_seq(ok as nat) + "/"@
            + crate::text::dec_seq(total as nat) + " proyectos. Reinicia los que estén encendidos."@,
        errors@.len() > 0 ==> r@ == "php.ini actualizado en "@ + crate::text::dec_seq(ok as nat) + "/"@
            + crate::text::dec_seq(total as nat) + " proyectos.\nErrores:\n"@ + crate::docker::join_with(
            errors@.map_values(|s: String| s@),
            '\n',
        ),
{
    let head = String::from_str("php.ini actualizado en ").concat(crate::text::dec_string(ok).as_str()).concat(
        "/",
    ).concat(crate::text::dec_string(total).as_str());
    if errors.len() == 0 {
        head.concat(" proyectos. Reinicia los que estén encendidos.")
    } else {
        head.concat(" proyectos.\nErrores:\n").concat(crate::docker::join_strings(errors, '\n').as_str())
    }
}

/// What creating a site does once its folder is free, in order; the caller
/// performs each action and stops at the first failure.
#[derive(Debug, Clone, Copy, PartialEq, Eq, Structural)]
pub enum CreateStep {
    /// The folder layout of the project.
    CreateDirs,
    /// Its `php.ini` from the template.
    WritePhpIni,
    /// Its `config.json`.
    WriteConfig,
    /// The shared database engine up and the project's database created.
    CreateDatabase,
    /// The WordPress release downloaded and unpacked into `app/public`.
    DownloadCore,
    /// The mu-plugin that sends mail to the shared catcher (always).
    MailpitMuPlugin,
    /// The one-click admin login mu-plugin.
    AutologinMuPlugin,
    /// The TLS certificate, made before nginx loads a vhost that names it.
    GenerateCert,
    /// The PHP container, the vhost and nginx.
    Start,
    /// `wp config create`.
    WpConfig,
    /// `wp core install` (and the language, when one is asked).
    CoreInstall,
}

/// The steps of a creation: the login mu-plugin only with one-click admin,
/// the certificate only with TLS.
pub open spec fn create_steps(one_click_admin: bool, ssl: bool) -> Seq<CreateStep> {
    seq![
        CreateStep::CreateDirs,
        CreateStep::WritePhpIni,
        CreateStep::WriteConfig,
        CreateStep::CreateDatabase,
        CreateStep::DownloadCore,
        CreateStep::MailpitMuPlugin,
    ] + (if one_click_admin {
        seq![CreateStep::AutologinMuPlugin]
    } else {
        Seq::<CreateStep>::empty()
    }) + (if ssl {
        seq![CreateStep::GenerateCert]
    } else {
        Seq::<CreateStep>::empty()
    }) + seq![CreateStep::Start, CreateStep::WpConfig, CreateStep::CoreInstall]
}

pub fn create_plan(one_click_admin: bool, ssl: bool) -> (r: Vec<CreateStep>)
    ensures
        r@ == create_steps(one_click_admin, ssl),
{
    let mut r = vec![
        CreateStep::CreateDirs,
        CreateStep::WritePhpIni,
        CreateStep::WriteConfig,
        CreateStep::CreateDatabase,
        CreateStep::DownloadCore,
        CreateStep::MailpitMuPlugin,
    ];
    if one_click_admin {
        r.push(CreateStep::AutologinMuPlugin);
    }
    if ssl {
        r.push(CreateStep::GenerateCert);
    }
    r.push(CreateStep::Start);
    r.push(CreateStep::WpConfig);
    r.push(CreateStep::CoreInstall);
    assert(r@ =~= create_steps(one_click_admin, ssl));
    r
}

/// Releases are offered newest first by their numeric key, none lost or
/// added.
pub proof fn law_versions_newest_first(s: Seq<WpVersion>)
    ensures
        crate::order::is_ranked(sort_ranked(s)),
        sort_ranked(s).to_multiset() == s.to_multiset(),
{
    crate::order::law_sort_ranked(s);
}

} // verus!
