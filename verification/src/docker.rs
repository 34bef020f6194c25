//! The containers the panel runs, and its decisions about them.
//!
//! Nothing runs unless it is needed, and services with equal needs are
//! shared: one container per active project, and on-demand shared nginx,
//! database, mail catcher, S3 and database viewer. Here each container is
//! described as plain data (`ContainerSpec`) and each step of bringing one up
//! or tearing shared ones down is decided from what the daemon reported; the
//! calls to the daemon are made by the caller.

use vstd::prelude::*;

use crate::config::{DbService, DbType, Endpoint, SiteConfig};
use crate::netcheck::{first_free_port, free_for_spec, lemma_first_free_port_bounds, pick_alt_port, Ipv4Addr, PortStatus};
use crate::paths::{join, join_seq};
use crate::text::{chars_of, dec_seq, dec_string, has_prefix, remove_char, remove_char_vec, string_of, trim, trim_start, trim_start_vec, trim_vec, vec_starts_with, CharClass};

verus! {

broadcast use vstd::string::group_string_axioms;

/// The bridge network every container joins.
pub const NETWORK: &'static str = "panel-net";

/// The shared reverse proxy.
pub const NGINX: &'static str = "panel-nginx";

/// The shared mail catcher.
pub const MAILPIT: &'static str = "panel-mailpit";

/// The shared S3 store.
pub const MINIO: &'static str = "panel-minio";

/// The shared database viewer.
pub const ADMINER: &'static str = "panel-adminer";

/// Host ports (on 127.0.0.1 only) of the shared services' interfaces.
pub const MAILPIT_UI_PORT: u16 = 8025;

pub const MINIO_API_PORT: u16 = 9100;

pub const MINIO_CONSOLE_PORT: u16 = 9101;

pub const ADMINER_UI_PORT: u16 = 8088;

/// A container port published on the host.
#[derive(Debug)]
pub struct PortPublish {
    /// `PORT/tcp` inside the container.
    pub container_port: String,
    pub host_ip: String,
    pub host_port: u16,
}

/// Everything needed to create one container on the panel's network.
#[derive(Debug)]
pub struct ContainerSpec {
    pub name: String,
    pub image: String,
    pub env: Vec<String>,
    pub cmd: Vec<String>,
    /// `HOST:CONTAINER[:ro]` bind mounts.
    pub binds: Vec<String>,
    /// Ports the container exposes (`PORT/tcp`).
    pub exposed: Vec<String>,
    pub published: Vec<PortPublish>,
}

/// The texts of a list.
pub open spec fn strs(v: Seq<String>) -> Seq<Seq<char>> {
    v.map_values(|s: String| s@)
}

/// A published port as plain values.
pub open spec fn publish_view(p: PortPublish) -> (Seq<char>, Seq<char>, u16) {
    (p.container_port@, p.host_ip@, p.host_port)
}

pub open spec fn publishes(v: Seq<PortPublish>) -> Seq<(Seq<char>, Seq<char>, u16)> {
    v.map_values(|p: PortPublish| publish_view(p))
}

/// `PORT/tcp` of the container on `127.0.0.1:host`.
fn loopback_publish(host: u16, container_port: &str) -> (r: PortPublish)
    ensures
        publish_view(r) == (container_port@, "127.0.0.1"@, host),
{
    PortPublish {
        container_port: String::from_str(container_port),
        host_ip: String::from_str("127.0.0.1"),
        host_port: host,
    }
}

// ---------------------------------------------------------------------------
// Shared database
// ---------------------------------------------------------------------------

pub open spec fn service_prefix_seq(t: DbType) -> Seq<char> {
    match t {
        DbType::Mysql => "panel-mysql"@,
        DbType::Mariadb => "panel-mariadb"@,
        DbType::Postgres => "panel-postgres"@,
    }
}

/// `panel-mysql-80` and the like: the engine's prefix, a dash, and the version
/// without its dots.
pub open spec fn db_container_seq(db: DbService) -> Seq<char> {
    service_prefix_seq(db.db_type) + "-"@ + remove_char(db.version@, '.')
}

/// Databases are shared per engine and version: two projects whose database
/// service has the same engine and version use the same container.
pub proof fn law_db_shared_per_version(a: DbService, b: DbService)
    requires
        a.db_type == b.db_type,
        a.version@ == b.version@,
    ensures
        db_container_seq(a) == db_container_seq(b),
{
}

/// Name of the shared database container of a service.
pub fn db_container_name(db: &DbService) -> (r: String)
    ensures
        r@ == db_container_seq(*db),
{
    let v = remove_char_vec(&chars_of(db.version.as_str()), '.');
    String::from_str(db.db_type.service_prefix()).concat("-").concat(string_of(&v).as_str())
}

/// Host folder that keeps a shared database's data, under the projects root
/// (`{projects_root}/db-data/{container}`), bound to the engine's data
/// directory so the data outlives the container.
pub fn db_data_dir_in(projects_root: &str, db: &DbService) -> (r: String)
    ensures
        r@ == join_seq(join_seq(projects_root@, "db-data"@), db_container_seq(*db)),
{
    let base = join(projects_root, "db-data");
    join(base.as_str(), db_container_name(db).as_str())
}

/// The shared database's data folder, `~/panel-wp/db-data/{container}`, when
/// the home folder is known.
pub fn db_data_dir(db: &DbService) -> (r: Option<String>)
    ensures
        r matches Some(d) ==> exists|home: Seq<char>|
            #[trigger] join_seq(join_seq(join_seq(home, "panel-wp"@), "db-data"@), db_container_seq(*db)) == d@,
{
    match crate::places::projects_root() {
        Some(root) => {
            let d = db_data_dir_in(root.as_str(), db);
            proof {
                let h = choose|home: Seq<char>| #[trigger] join_seq(home, "panel-wp"@) == root@;
                assert(join_seq(join_seq(join_seq(h, "panel-wp"@), "db-data"@), db_container_seq(*db)) == d@);
            }
            Some(d)
        },
        None => None,
    }
}

pub open spec fn db_env_seq(t: DbType) -> Seq<Seq<char>> {
    match t {
        DbType::Mysql | DbType::Mariadb => seq!["MYSQL_ROOT_PASSWORD=panel"@, "MYSQL_ROOT_HOST=%"@],
        DbType::Postgres => seq!["POSTGRES_PASSWORD=panel"@, "POSTGRES_USER=panel"@],
    }
}

/// The engine's environment: root password `panel`, and for MySQL/MariaDB
/// root reachable from the network (`%`).
pub fn db_env(db: &DbService) -> (r: Vec<String>)
    ensures
        strs(r@) == db_env_seq(db.db_type),
{
    let r = match db.db_type {
        DbType::Mysql | DbType::Mariadb => vec![
            String::from_str("MYSQL_ROOT_PASSWORD=panel"),
            String::from_str("MYSQL_ROOT_HOST=%"),
        ],
        DbType::Postgres => vec![
            String::from_str("POSTGRES_PASSWORD=panel"),
            String::from_str("POSTGRES_USER=panel"),
        ],
    };
    assert(strs(r@) =~= db_env_seq(db.db_type));
    r
}

pub open spec fn db_image_seq(db: DbService) -> Seq<char> {
    match db.db_type {
        DbType::Mysql => "mysql:"@ + db.version@,
        DbType::Mariadb => "mariadb:"@ + db.version@,
        DbType::Postgres => "postgres:"@ + db.version@ + "-alpine"@,
    }
}

pub open spec fn datadir_seq(t: DbType) -> Seq<char> {
    match t {
        DbType::Mysql | DbType::Mariadb => "/var/lib/mysql"@,
        DbType::Postgres => "/var/lib/postgresql/data"@,
    }
}

/// The shared database container: the engine's image, its environment and
/// the host folder `data_dir` bound to its data directory.
pub fn db_spec(db: &DbService, data_dir: &str) -> (r: ContainerSpec)
    ensures
        r.name@ == db_container_seq(*db),
        r.image@ == db_image_seq(*db),
        strs(r.env@) == db_env_seq(db.db_type),
        strs(r.binds@) == seq![data_dir@ + ":"@ + datadir_seq(db.db_type)],
        r.cmd@.len() == 0,
        r.exposed@.len() == 0,
        r.published@.len() == 0,
{
    let bind = String::from_str(data_dir).concat(":").concat(db.db_type.datadir());
    let binds = vec![bind];
    assert(strs(binds@) =~= seq![data_dir@ + ":"@ + datadir_seq(db.db_type)]);
    ContainerSpec {
        name: db_container_name(db),
        image: db.db_type.image(db.version.as_str()),
        env: db_env(db),
        cmd: Vec::new(),
        binds,
        exposed: Vec::new(),
        published: Vec::new(),
    }
}

/// What to do to have a shared database up.
#[derive(Debug, PartialEq, Eq, Structural)]
pub enum DbStep {
    /// It is already running.
    Ready,
    /// It exists with its data on the host: start it.
    Start,
    /// It exists but keeps its data inside the container (made before the data
    /// moved to the host): copy the data out, remove it, then create it anew.
    MigrateThenCreate,
    /// It does not exist: create it.
    Create,
}

pub fn db_step(running: bool, exists: bool, has_host_data: bool) -> (r: DbStep)
    ensures
        r == (if running {
            DbStep::Ready
        } else if exists && has_host_data {
            DbStep::Start
        } else if exists {
            DbStep::MigrateThenCreate
        } else {
            DbStep::Create
        }),
{
    if running {
        DbStep::Ready
    } else if exists && has_host_data {
        DbStep::Start
    } else if exists {
        DbStep::MigrateThenCreate
    } else {
        DbStep::Create
    }
}

/// Source of the one-time `docker cp` that moves a legacy database's data
/// directory to the host: `{container}:{datadir}/.`.
pub fn db_copy_source(container: &str, datadir: &str) -> (r: String)
    ensures
        r@ == container@ + ":"@ + datadir@ + "/."@,
{
    String::from_str(container).concat(":").concat(datadir).concat("/.")
}

pub open spec fn db_ready_check_seq(t: DbType) -> Seq<Seq<char>> {
    match t {
        DbType::Mysql | DbType::Mariadb => seq![
            "mysql"@,
            "-h127.0.0.1"@,
            "-uroot"@,
            "-ppanel"@,
            "-e"@,
            "SELECT 1"@,
        ],
        DbType::Postgres => seq!["pg_isready"@, "-h"@, "127.0.0.1"@, "-U"@, "panel"@],
    }
}

/// The command that succeeds once the database accepts TCP connections (the
/// official MySQL image accepts its local socket before it opens TCP on first
/// start, so the check goes through `127.0.0.1`).
pub fn db_ready_check(t: DbType) -> (r: Vec<String>)
    ensures
        strs(r@) == db_ready_check_seq(t),
{
    let r = match t {
        DbType::Mysql | DbType::Mariadb => vec![
            String::from_str("mysql"),
            String::from_str("-h127.0.0.1"),
            String::from_str("-uroot"),
            String::from_str("-ppanel"),
            String::from_str("-e"),
            String::from_str("SELECT 1"),
        ],
        DbType::Postgres => vec![
            String::from_str("pg_isready"),
            String::from_str("-h"),
            String::from_str("127.0.0.1"),
            String::from_str("-U"),
            String::from_str("panel"),
        ],
    };
    assert(strs(r@) =~= db_ready_check_seq(t));
    r
}

// ---------------------------------------------------------------------------
// Other shared services
// ---------------------------------------------------------------------------

/// What to do to have a shared service up.
#[derive(Debug, PartialEq, Eq, Structural)]
pub enum ServiceStep {
    Ready,
    Start,
    Create,
}

pub fn service_step(running: bool, exists: bool) -> (r: ServiceStep)
    ensures
        r == (if running {
            ServiceStep::Ready
        } else if exists {
            ServiceStep::Start
        } else {
            ServiceStep::Create
        }),
{
    if running {
        ServiceStep::Ready
    } else if exists {
        ServiceStep::Start
    } else {
        ServiceStep::Create
    }
}

/// What to do to have the shared nginx up. A stopped one is never restarted
/// as it is: it may hold the ports of an earlier endpoint, so it is replaced
/// by one made with the current endpoint.
#[derive(Debug, PartialEq, Eq, Structural)]
pub enum NginxStep {
    Ready,
    /// Remove the stopped container, then create it anew.
    Replace,
    Create,
}

pub fn nginx_step(running: bool, exists: bool) -> (r: NginxStep)
    ensures
        r == (if running {
            NginxStep::Ready
        } else if exists {
            NginxStep::Replace
        } else {
            NginxStep::Create
        }),
{
    if running {
        NginxStep::Ready
    } else if exists {
        NginxStep::Replace
    } else {
        NginxStep::Create
    }
}

/// `panel-mailpit`: SMTP on 1025 inside the network, web interface on
/// `127.0.0.1:8025`.
pub fn mailpit_spec() -> (r: ContainerSpec)
    ensures
        r.name@ == "panel-mailpit"@,
        r.image@ == "axllent/mailpit:latest"@,
        strs(r.exposed@) == seq!["8025/tcp"@, "1025/tcp"@],
        publishes(r.published@) == seq![("8025/tcp"@, "127.0.0.1"@, 8025u16)],
        r.env@.len() == 0,
        r.cmd@.len() == 0,
        r.binds@.len() == 0,
{
    let exposed = vec![String::from_str("8025/tcp"), String::from_str("1025/tcp")];
    let published = vec![loopback_publish(MAILPIT_UI_PORT, "8025/tcp")];
    assert(strs(exposed@) =~= seq!["8025/tcp"@, "1025/tcp"@]);
    assert(publishes(published@) =~= seq![("8025/tcp"@, "127.0.0.1"@, 8025u16)]);
    ContainerSpec {
        name: String::from_str(MAILPIT),
        image: String::from_str("axllent/mailpit:latest"),
        env: Vec::new(),
        cmd: Vec::new(),
        binds: Vec::new(),
        exposed,
        published,
    }
}

/// `panel-minio`: S3 API on `127.0.0.1:9100`, console on `127.0.0.1:9101`, its
/// data in `{config_dir}/minio-data`.
pub fn minio_spec(config_dir: &str) -> (r: ContainerSpec)
    ensures
        r.name@ == "panel-minio"@,
        r.image@ == "minio/minio:latest"@,
        strs(r.cmd@) == seq!["server"@, "/data"@, "--console-address"@, ":9001"@],
        strs(r.env@) == seq!["MINIO_ROOT_USER=panel"@, "MINIO_ROOT_PASSWORD=panel-secret"@],
        strs(r.binds@) == seq![join_seq(config_dir@, "minio-data"@) + ":/data"@],
        strs(r.exposed@) == seq!["9000/tcp"@, "9001/tcp"@],
        publishes(r.published@) == seq![
            ("9000/tcp"@, "127.0.0.1"@, 9100u16),
            ("9001/tcp"@, "127.0.0.1"@, 9101u16),
        ],
{
    let data = minio_data_dir(config_dir);
    let binds = vec![data.concat(":/data")];
    let cmd = vec![
        String::from_str("server"),
        String::from_str("/data"),
        String::from_str("--console-address"),
        String::from_str(":9001"),
    ];
    let env = vec![
        String::from_str("MINIO_ROOT_USER=panel"),
        String::from_str("MINIO_ROOT_PASSWORD=panel-secret"),
    ];
    let exposed = vec![String::from_str("9000/tcp"), String::from_str("9001/tcp")];
    let published = vec![
        loopback_publish(MINIO_API_PORT, "9000/tcp"),
        loopback_publish(MINIO_CONSOLE_PORT, "9001/tcp"),
    ];
    assert(strs(binds@) =~= seq![join_seq(config_dir@, "minio-data"@) + ":/data"@]);
    assert(strs(cmd@) =~= seq!["server"@, "/data"@, "--console-address"@, ":9001"@]);
    assert(strs(env@) =~= seq!["MINIO_ROOT_USER=panel"@, "MINIO_ROOT_PASSWORD=panel-secret"@]);
    assert(strs(exposed@) =~= seq!["9000/tcp"@, "9001/tcp"@]);
    assert(publishes(published@) =~= seq![
        ("9000/tcp"@, "127.0.0.1"@, 9100u16),
        ("9001/tcp"@, "127.0.0.1"@, 9101u16),
    ]);
    ContainerSpec {
        name: String::from_str(MINIO),
        image: String::from_str("minio/minio:latest"),
        env,
        cmd,
        binds,
        exposed,
        published,
    }
}

/// The folder that keeps the S3 store's data.
pub fn minio_data_dir(config_dir: &str) -> (r: String)
    ensures
        r@ == join_seq(config_dir@, "minio-data"@),
{
    join(config_dir, "minio-data")
}

/// Where the container images' build files live: `docker/` next to the crate
/// (`{manifest_dir}/../docker`).
pub fn docker_assets_dir(manifest_dir: &str) -> (r: String)
    ensures
        r@ == manifest_dir@ + "/../docker"@,
{
    String::from_str(manifest_dir).concat("/../docker")
}

/// `panel-adminer` (Adminer 4): web interface on `127.0.0.1:8088`, with the
/// auto-login plugin `{assets_dir}/adminer/autologin.php` mounted read-only.
pub fn adminer_spec(assets_dir: &str) -> (r: ContainerSpec)
    ensures
        r.name@ == "panel-adminer"@,
        r.image@ == "adminer:4"@,
        strs(r.binds@) == seq![
            join_seq(join_seq(assets_dir@, "adminer"@), "autologin.php"@)
                + ":/var/www/html/plugins-enabled/autologin.php:ro"@,
        ],
        strs(r.exposed@) == seq!["8080/tcp"@],
        publishes(r.published@) == seq![("8080/tcp"@, "127.0.0.1"@, 8088u16)],
        r.env@.len() == 0,
        r.cmd@.len() == 0,
{
    let dir = join(assets_dir, "adminer");
    let plugin = join(dir.as_str(), "autologin.php");
    let binds = vec![plugin.concat(":/var/www/html/plugins-enabled/autologin.php:ro")];
    let exposed = vec![String::from_str("8080/tcp")];
    let published = vec![loopback_publish(ADMINER_UI_PORT, "8080/tcp")];
    assert(strs(binds@) =~= seq![
        join_seq(join_seq(assets_dir@, "adminer"@), "autologin.php"@)
            + ":/var/www/html/plugins-enabled/autologin.php:ro"@,
    ]);
    assert(strs(exposed@) =~= seq!["8080/tcp"@]);
    assert(publishes(published@) =~= seq![("8080/tcp"@, "127.0.0.1"@, 8088u16)]);
    ContainerSpec {
        name: String::from_str(ADMINER),
        image: String::from_str("adminer:4"),
        env: Vec::new(),
        cmd: Vec::new(),
        binds,
        exposed,
        published,
    }
}

/// `panel-nginx`: ports 80 and 443 published on the endpoint's address and
/// ports, the vhost folder and the projects root mounted read-only.
pub fn nginx_spec(ep: &Endpoint, conf_d: &str, projects_root: &str) -> (r: ContainerSpec)
    ensures
        r.name@ == "panel-nginx"@,
        r.image@ == "nginx:alpine"@,
        strs(r.binds@) == seq![
            conf_d@ + ":/etc/nginx/conf.d:ro"@,
            projects_root@ + ":/srv/projects:ro"@,
        ],
        strs(r.exposed@) == seq!["80/tcp"@, "443/tcp"@],
        publishes(r.published@) == seq![
            ("80/tcp"@, ep.loopback_ip@, ep.http_port),
            ("443/tcp"@, ep.loopback_ip@, ep.https_port),
        ],
        r.env@.len() == 0,
        r.cmd@.len() == 0,
{
    let binds = vec![
        String::from_str(conf_d).concat(":/etc/nginx/conf.d:ro"),
        String::from_str(projects_root).concat(":/srv/projects:ro"),
    ];
    let exposed = vec![String::from_str("80/tcp"), String::from_str("443/tcp")];
    let published = vec![
        PortPublish {
            container_port: String::from_str("80/tcp"),
            host_ip: String::from_str(ep.loopback_ip.as_str()),
            host_port: ep.http_port,
        },
        PortPublish {
            container_port: String::from_str("443/tcp"),
            host_ip: String::from_str(ep.loopback_ip.as_str()),
            host_port: ep.https_port,
        },
    ];
    assert(strs(binds@) =~= seq![
        conf_d@ + ":/etc/nginx/conf.d:ro"@,
        projects_root@ + ":/srv/projects:ro"@,
    ]);
    assert(strs(exposed@) =~= seq!["80/tcp"@, "443/tcp"@]);
    assert(publishes(published@) =~= seq![
        ("80/tcp"@, ep.loopback_ip@, ep.http_port),
        ("443/tcp"@, ep.loopback_ip@, ep.https_port),
    ]);
    ContainerSpec {
        name: String::from_str(NGINX),
        image: String::from_str("nginx:alpine"),
        env: Vec::new(),
        cmd: Vec::new(),
        binds,
        exposed,
        published,
    }
}

// ---------------------------------------------------------------------------
// Project containers
// ---------------------------------------------------------------------------

/// The project's PHP container (`wp-{id}`): its public folder as the web root,
/// its `php.ini`, and WP-CLI mounted; the host user's uid/gid so that files
/// keep their owner. No port is published: only nginx talks to it.
pub fn php_spec(site: &SiteConfig, image: &str, wp_cli: &str, uid: u32, gid: u32) -> (r: ContainerSpec)
    ensures
        r.name@ == "wp-"@ + site.id@,
        r.image@ == image@,
        strs(r.binds@) == seq![
            join_seq(join_seq(site.path@, "app"@), "public"@) + ":/var/www/html"@,
            join_seq(join_seq(join_seq(site.path@, "conf"@), "php"@), "php.ini"@)
                + ":/usr/local/etc/php/conf.d/zz-project.ini:ro"@,
            wp_cli@ + ":/usr/local/bin/wp:ro"@,
        ],
        strs(r.env@) == seq!["PUID="@ + dec_seq(uid as nat), "PGID="@ + dec_seq(gid as nat)],
        r.cmd@.len() == 0,
        r.exposed@.len() == 0,
        r.published@.len() == 0,
{
    let binds = vec![
        site.public_dir().concat(":/var/www/html"),
        site.php_ini().concat(":/usr/local/etc/php/conf.d/zz-project.ini:ro"),
        String::from_str(wp_cli).concat(":/usr/local/bin/wp:ro"),
    ];
    let env = vec![
        String::from_str("PUID=").concat(dec_string(uid as u64).as_str()),
        String::from_str("PGID=").concat(dec_string(gid as u64).as_str()),
    ];
    assert(strs(binds@) =~= seq![
        join_seq(join_seq(site.path@, "app"@), "public"@) + ":/var/www/html"@,
        join_seq(join_seq(join_seq(site.path@, "conf"@), "php"@), "php.ini"@)
            + ":/usr/local/etc/php/conf.d/zz-project.ini:ro"@,
        wp_cli@ + ":/usr/local/bin/wp:ro"@,
    ]);
    assert(strs(env@) =~= seq!["PUID="@ + dec_seq(uid as nat), "PGID="@ + dec_seq(gid as nat)]);
    ContainerSpec {
        name: site.container_name(),
        image: String::from_str(image),
        env,
        cmd: Vec::new(),
        binds,
        exposed: Vec::new(),
        published: Vec::new(),
    }
}

/// What to do with a project's PHP container before starting it.
#[derive(Debug, PartialEq, Eq, Structural)]
pub enum PhpStep {
    /// It exists with the wanted image.
    Keep,
    /// It exists with another image (the image was rebuilt): remove it and
    /// create it again.
    Recreate,
    /// It does not exist.
    Create,
}

pub fn php_step(exists: bool, current_image: Option<&str>, wanted: &str) -> (r: PhpStep)
    ensures
        r == (if !exists {
            PhpStep::Create
        } else if current_image matches Some(c) && c@ == wanted@ {
            PhpStep::Keep
        } else {
            PhpStep::Recreate
        }),
{
    if !exists {
        return PhpStep::Create;
    }
    match current_image {
        Some(c) => {
            if crate::text::str_eq(c, wanted) {
                PhpStep::Keep
            } else {
                PhpStep::Recreate
            }
        },
        None => PhpStep::Recreate,
    }
}

/// A container the panel manages: its name starts with `wp-` or `panel-`.
pub open spec fn is_panel_name(n: Seq<char>) -> bool {
    has_prefix(n, "wp-"@) || has_prefix(n, "panel-"@)
}

/// The panel's containers among the names the daemon listed (which start
/// with `/`), without that `/`, in order.
pub open spec fn panel_names_seq(names: Seq<Seq<char>>) -> Seq<Seq<char>>
    decreases names.len(),
{
    if names.len() == 0 {
        names
    } else {
        let rest = panel_names_seq(names.drop_last());
        let n = trim_start(names.last(), CharClass::Is('/'));
        if is_panel_name(n) {
            rest.push(n)
        } else {
            rest
        }
    }
}

pub fn panel_container_names(names: &Vec<String>) -> (r: Vec<String>)
    ensures
        strs(r@) == panel_names_seq(strs(names@)),
{
    let ghost all = strs(names@);
    let wp = chars_of("wp-");
    let panel = chars_of("panel-");
    let mut out: Vec<String> = Vec::new();
    let mut i: usize = 0;
    assert(all.take(0) =~= Seq::<Seq<char>>::empty());
    while i < names.len()
        invariant
            i <= names.len(),
            all == strs(names@),
            wp@ == "wp-"@,
            panel@ == "panel-"@,
            strs(out@) == panel_names_seq(all.take(i as int)),
        decreases names.len() - i,
    {
        let n = trim_start_vec(&chars_of(names[i].as_str()), CharClass::Is('/'));
        assert(all.take(i as int + 1).drop_last() =~= all.take(i as int));
        assert(all.take(i as int + 1).last() == names@[i as int]@);
        if vec_starts_with(&n, &wp) || vec_starts_with(&n, &panel) {
            let ghost before = strs(out@);
            out.push(string_of(&n));
            assert(strs(out@) =~= before.push(n@));
        }
        i += 1;
    }
    assert(all.take(names.len() as int) =~= all);
    out
}

/// The containers a project uses, with the role of each: its PHP container,
/// its database, nginx, the mail catcher, and the S3 store when it uses one.
pub open spec fn project_containers_seq(site: SiteConfig) -> Seq<(Seq<char>, Seq<char>)> {
    seq![
        ("wp-"@ + site.id@, "php"@),
        (db_container_seq(site.services.db), "db"@),
        ("panel-nginx"@, "nginx"@),
        ("panel-mailpit"@, "mailpit"@),
    ] + if site.minio {
        seq![("panel-minio"@, "minio"@)]
    } else {
        Seq::<(Seq<char>, Seq<char>)>::empty()
    }
}

pub fn project_containers(site: &SiteConfig) -> (r: Vec<(String, &'static str)>)
    ensures
        r@.map_values(|e: (String, &'static str)| (e.0@, e.1@)) == project_containers_seq(*site),
{
    let mut r: Vec<(String, &'static str)> = vec![
        (site.container_name(), "php"),
        (db_container_name(&site.services.db), "db"),
        (String::from_str(NGINX), "nginx"),
        (String::from_str(MAILPIT), "mailpit"),
    ];
    if site.minio {
        r.push((String::from_str(MINIO), "minio"));
    }
    assert(r@.map_values(|e: (String, &'static str)| (e.0@, e.1@)) =~= project_containers_seq(*site));
    r
}

// ---------------------------------------------------------------------------
// Tearing shared services down
// ---------------------------------------------------------------------------

/// What to stop after a project stops, each only if it is running.
#[derive(Debug)]
pub struct TeardownPlan {
    /// The stopped project's database container.
    pub db_container: String,
    /// No other running project uses that database.
    pub stop_db: bool,
    /// No other running project uses the S3 store.
    pub stop_minio: bool,
    /// No other project runs: nginx, the mail catcher and the database viewer
    /// go too.
    pub stop_front: bool,
}

/// Another project (not `stopped`) whose container runs.
pub open spec fn other_active(stopped: SiteConfig, all: Seq<SiteConfig>, running: Seq<bool>, i: int) -> bool {
    0 <= i < all.len() && all[i].id@ != stopped.id@ && running[i]
}

/// Decides which shared services to stop once `stopped` has stopped, from
/// whether each project of `all` still runs (`running`, in the same order).
pub fn teardown_plan(stopped: &SiteConfig, all: &[SiteConfig], running: &Vec<bool>) -> (r: TeardownPlan)
    requires
        running@.len() == all@.len(),
    ensures
        r.db_container@ == db_container_seq(stopped.services.db),
        r.stop_db == !(exists|i: int| #[trigger] other_active(*stopped, all@, running@, i)
            && db_container_seq(all@[i].services.db) == db_container_seq(stopped.services.db)),
        r.stop_minio == !(exists|i: int| #[trigger] other_active(*stopped, all@, running@, i)
            && all@[i].minio),
        r.stop_front == !(exists|i: int| #[trigger] other_active(*stopped, all@, running@, i)),
{
    let db_name = db_container_name(&stopped.services.db);
    let dbv = chars_of(db_name.as_str());
    let sid = chars_of(stopped.id.as_str());
    let mut any_active = false;
    let mut any_minio = false;
    let mut shares_db = false;
    let mut i: usize = 0;
    while i < all.len()
        invariant
            i <= all.len(),
            running@.len() == all@.len(),
            dbv@ == db_container_seq(stopped.services.db),
            sid@ == stopped.id@,
            any_active == exists|j: int| 0 <= j < i && #[trigger] other_active(*stopped, all@, running@, j),
            any_minio == exists|j: int| 0 <= j < i && #[trigger] other_active(*stopped, all@, running@, j)
                && all@[j].minio,
            shares_db == exists|j: int| 0 <= j < i && #[trigger] other_active(*stopped, all@, running@, j)
                && db_container_seq(all@[j].services.db) == db_container_seq(stopped.services.db),
        decreases all.len() - i,
    {
        let s = &all[i];
        let same = crate::text::vec_eq_str(&sid, s.id.as_str());
        if !same && running[i] {
            assert(other_active(*stopped, all@, running@, i as int));
            any_active = true;
            if s.minio {
                any_minio = true;
            }
            let other = db_container_name(&s.services.db);
            if crate::text::vec_eq_str(&dbv, other.as_str()) {
                shares_db = true;
            }
        }
        i += 1;
    }
    TeardownPlan { db_container: db_name, stop_db: !shares_db, stop_minio: !any_minio, stop_front: !any_active }
}

// ---------------------------------------------------------------------------
// Commands run inside containers
// ---------------------------------------------------------------------------

/// The words of a command joined by single spaces.
pub open spec fn join_words(v: Seq<Seq<char>>) -> Seq<char>
    decreases v.len(),
{
    if v.len() == 0 {
        Seq::<char>::empty()
    } else if v.len() == 1 {
        v[0]
    } else {
        join_words(v.drop_last()) + " "@ + v.last()
    }
}

fn join_command(cmd: &Vec<String>) -> (r: String)
    ensures
        r@ == join_words(strs(cmd@)),
{
    let ghost all = strs(cmd@);
    let mut r = String::new();
    let mut i: usize = 0;
    assert(all.take(0) =~= Seq::<Seq<char>>::empty());
    while i < cmd.len()
        invariant
            i <= cmd.len(),
            all == strs(cmd@),
            r@ == join_words(all.take(i as int)),
        decreases cmd.len() - i,
    {
        assert(all.take(i as int + 1).drop_last() =~= all.take(i as int));
        assert(all.take(i as int + 1).last() == cmd@[i as int]@);
        if i == 0 {
            r = String::from_str(cmd[i].as_str());
            assert(all.take(1)[0] == cmd@[0]@);
        } else {
            r = r.concat(" ").concat(cmd[i].as_str());
        }
        i += 1;
    }
    assert(all.take(cmd.len() as int) =~= all);
    r
}

/// The outcome of a command run in `container`: its output when it exited
/// with 0 (or no code was reported), else the message naming the command, the
/// container, the code and the output (or error output) trimmed.
pub fn exec_outcome(cmd: &Vec<String>, container: &str, exit_code: Option<i64>, output: String) -> (r: Result<String, String>)
    ensures
        match exit_code {
            Some(code) if code != 0 => r matches Err(m) && m@ == "`"@ + join_words(strs(cmd@))
                + "` falló en "@ + container@ + " (código "@ + crate::text::int_text(code as int) + "): "@ + trim(
                output@,
                CharClass::Whitespace,
            ),
            _ => r matches Ok(o) && o@ == output@,
        },
{
    match exit_code {
        Some(code) => {
            if code != 0 {
                let text = trim_vec(&chars_of(output.as_str()), CharClass::Whitespace);
                let m = String::from_str("`").concat(join_command(cmd).as_str()).concat(
                    "` falló en ",
                ).concat(container).concat(" (código ").concat(crate::text::int_string(code).as_str()).concat(
                    "): ",
                ).concat(string_of(&text).as_str());
                return Err(m);
            }
            Ok(output)
        },
        None => Ok(output),
    }
}

// ---------------------------------------------------------------------------
// Publication endpoint
// ---------------------------------------------------------------------------

/// The ports an endpoint is first given: the first free port from 8080 for
/// HTTP and from 8443 for HTTPS (each itself when none is free); when both
/// come out equal, HTTPS takes the first free port after HTTP's.
pub open spec fn autoselect_ports(tcp: Seq<char>, tcp6: Seq<char>) -> (u16, u16) {
    let hp = match first_free_port(tcp, tcp6, 8080) {
        Some(p) => p,
        None => 8080u16,
    };
    let sp = match first_free_port(tcp, tcp6, 8443) {
        Some(p) => p,
        None => 8443u16,
    };
    if sp == hp {
        (
            hp,
            match first_free_port(tcp, tcp6, hp + 1) {
                Some(p) => p,
                None => (hp + 1) as u16,
            },
        )
    } else {
        (hp, sp)
    }
}

/// The endpoint chosen the first time, by the port tables `tcp` and `tcp6`:
/// high ports on `127.0.0.1`, leaving 80/443 to other local tools.
pub fn autoselect_endpoint(tcp: &str, tcp6: &str) -> (r: Endpoint)
    ensures
        r.loopback_ip@ == "127.0.0.1"@,
        (r.http_port, r.https_port) == autoselect_ports(tcp@, tcp6@),
{
    proof {
        lemma_first_free_port_bounds(tcp@, tcp6@, 8080);
    }
    let hp = match pick_alt_port(tcp, tcp6, 8080) {
        Some(p) => p,
        None => 8080,
    };
    let mut sp = match pick_alt_port(tcp, tcp6, 8443) {
        Some(p) => p,
        None => 8443,
    };
    if sp == hp {
        sp = match pick_alt_port(tcp, tcp6, hp + 1) {
            Some(p) => p,
            None => hp + 1,
        };
    }
    Endpoint { loopback_ip: String::from_str(crate::domain::DEFAULT_IP), http_port: hp, https_port: sp }
}

/// Whether the endpoint's address needs the dnsmasq rule installed: it is not
/// the default address and the `.test` names do not resolve to it yet.
pub fn endpoint_dns_needed(loopback_ip: &str, resolves: bool) -> (r: bool)
    ensures
        r == (loopback_ip@ != "127.0.0.1"@ && !resolves),
{
    !crate::text::str_eq(loopback_ip, crate::domain::DEFAULT_IP) && !resolves
}

/// Why an endpoint cannot be bound.
#[derive(Debug)]
pub enum PreflightError {
    /// The stored address is not a dotted IPv4 address.
    InvalidIp(String),
    /// Something listens on `port` for that address.
    Busy { port: u16, label: String, ip: Ipv4Addr },
}

/// Dotted decimal text of an address.
pub open spec fn ipv4_text(ip: Ipv4Addr) -> Seq<char> {
    dec_seq(ip.0 as nat) + "."@ + dec_seq(ip.1 as nat) + "."@ + dec_seq(ip.2 as nat) + "."@
        + dec_seq(ip.3 as nat)
}

pub fn ipv4_string(ip: Ipv4Addr) -> (r: String)
    ensures
        r@ == ipv4_text(ip),
{
    dec_string(ip.0 as u64).concat(".").concat(dec_string(ip.1 as u64).as_str()).concat(".").concat(
        dec_string(ip.2 as u64).as_str(),
    ).concat(".").concat(dec_string(ip.3 as u64).as_str())
}

impl PreflightError {
    /// The message shown to the user; `holder` names the process that holds
    /// the port, when it could be found.
    pub fn message(&self, holder: Option<&str>) -> (r: String)
        ensures
            r@ == match *self {
                PreflightError::InvalidIp(ip) => "IP loopback inválida en la config: "@ + ip@,
                PreflightError::Busy { port, label, ip } => "el puerto "@ + dec_seq(port as nat)
                    + " ("@ + label@ + ") ya está ocupado en "@ + ipv4_text(ip) + match holder {
                    Some(n) => " (lo usa: "@ + n@ + ")"@,
                    None => Seq::<char>::empty(),
                }
                    + ". Apaga ese servicio (¿LocalWP?) o borra ~/.config/wordpress-panel/panel.json para reasignar puerto."@,
            },
    {
        match self {
            PreflightError::InvalidIp(ip) => String::from_str("IP loopback inválida en la config: ").concat(
                ip.as_str(),
            ),
            PreflightError::Busy { port, label, ip } => {
                let head = String::from_str("el puerto ").concat(dec_string(*port as u64).as_str()).concat(
                    " (",
                ).concat(label.as_str()).concat(") ya está ocupado en ").concat(
                    ipv4_string(*ip).as_str(),
                );
                let with_who = match holder {
                    Some(n) => head.concat(" (lo usa: ").concat(n).concat(")"),
                    None => head,
                };
                let r = with_who.concat(
                    ". Apaga ese servicio (¿LocalWP?) o borra ~/.config/wordpress-panel/panel.json para reasignar puerto.",
                );
                proof {
                    match holder {
                        Some(n) => {},
                        None => {
                            assert(head@ + Seq::<char>::empty() =~= head@);
                        },
                    }
                }
                r
            },
        }
    }
}

/// Checks that the endpoint can really be bound, by the states of its HTTP
/// and HTTPS ports: its address must parse, and each port be free for it
/// (HTTP first). Returns the parsed address.
pub fn preflight_endpoint(ep: &Endpoint, http: &PortStatus, https: &PortStatus) -> (r: Result<Ipv4Addr, PreflightError>)
    ensures
        match crate::domain::parse_ipv4_seq(ep.loopback_ip@) {
            None => r matches Err(PreflightError::InvalidIp(s)) && s@ == ep.loopback_ip@,
            Some(ip) => if !free_for_spec(*http, ip) {
                r matches Err(PreflightError::Busy { port, label, ip: x }) && port == ep.http_port
                    && label@ == "HTTP"@ && x == ip
            } else if !free_for_spec(*https, ip) {
                r matches Err(PreflightError::Busy { port, label, ip: x }) && port == ep.https_port
                    && label@ == "HTTPS"@ && x == ip
            } else {
                r == Ok::<Ipv4Addr, PreflightError>(ip)
            },
        },
{
    let ip = match crate::domain::parse_ipv4(ep.loopback_ip.as_str()) {
        Some(ip) => ip,
        None => {
            return Err(PreflightError::InvalidIp(String::from_str(ep.loopback_ip.as_str())));
        },
    };
    if !http.free_for(ip) {
        return Err(PreflightError::Busy { port: ep.http_port, label: String::from_str("HTTP"), ip });
    }
    if !https.free_for(ip) {
        return Err(PreflightError::Busy { port: ep.https_port, label: String::from_str("HTTPS"), ip });
    }
    Ok(ip)
}

/// The mail catcher's web interface.
pub fn mailpit_url() -> (r: String)
    ensures
        r@ == "http://127.0.0.1:8025/"@,
{
    String::from_str("http://127.0.0.1:8025/")
}

/// The S3 store's console.
pub fn minio_url() -> (r: String)
    ensures
        r@ == "http://127.0.0.1:9101/"@,
{
    String::from_str("http://127.0.0.1:9101/")
}

/// The database viewer opened on the project's database: the driver
/// parameter (`pgsql` for PostgreSQL, `server` otherwise), the container as
/// server, the engine's user and the database.
pub fn adminer_url(db: &DbService, db_container: &str) -> (r: String)
    ensures
        r@ == "http://127.0.0.1:8088/?"@ + (match db.db_type {
            DbType::Postgres => "pgsql"@,
            _ => "server"@,
        }) + "="@ + db_container@ + "&username="@ + (match db.db_type {
            DbType::Postgres => "panel"@,
            _ => "root"@,
        }) + "&db="@ + db.db_name@,
{
    let (driver, user) = match db.db_type {
        DbType::Postgres => ("pgsql", "panel"),
        DbType::Mysql | DbType::Mariadb => ("server", "root"),
    };
    String::from_str("http://127.0.0.1:8088/?").concat(driver).concat("=").concat(db_container).concat("&username=").concat(user).concat("&db=").concat(
        db.db_name.as_str(),
    )
}

/// Texts joined with `sep` between them.
pub open spec fn join_with(v: Seq<Seq<char>>, sep: char) -> Seq<char>
    decreases v.len(),
{
    if v.len() == 0 {
        Seq::<char>::empty()
    } else if v.len() == 1 {
        v[0]
    } else {
        join_with(v.drop_last(), sep).push(sep) + v.last()
    }
}

pub fn join_strings(v: &Vec<String>, sep: char) -> (r: String)
    ensures
        r@ == join_with(strs(v@), sep),
{
    let ghost all = strs(v@);
    let mut r = String::new();
    let mut i: usize = 0;
    assert(all.take(0) =~= Seq::<Seq<char>>::empty());
    while i < v.len()
        invariant
            i <= v.len(),
            all == strs(v@),
            r@ == join_with(all.take(i as int), sep),
        decreases v.len() - i,
    {
        assert(all.take(i as int + 1).drop_last() =~= all.take(i as int));
        assert(all.take(i as int + 1).last() == v@[i as int]@);
        if i == 0 {
            r = String::from_str(v[i].as_str());
            assert(all.take(1)[0] == v@[0]@);
        } else {
            crate::text::push_char(&mut r, sep);
            r = r.concat(v[i].as_str());
        }
        i += 1;
    }
    assert(all.take(v.len() as int) =~= all);
    r
}

} // verus!
