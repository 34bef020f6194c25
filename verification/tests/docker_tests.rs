use wordpress_panel::config::{
    DbService, DbType, Endpoint, GithubConfig, NginxService, PhpService, Services, SiteConfig,
};
use wordpress_panel::docker::{
    adminer_spec, adminer_url, autoselect_endpoint, db_container_name, db_copy_source, db_data_dir, db_data_dir_in,
    db_ready_check, db_spec, db_step, docker_assets_dir, endpoint_dns_needed, exec_outcome,
    ipv4_string, join_strings, mailpit_spec, mailpit_url, minio_spec, minio_url, nginx_spec,
    panel_container_names, php_spec, php_step, preflight_endpoint, service_step, teardown_plan,
    DbStep, PhpStep, PreflightError, ServiceStep,
};
use wordpress_panel::netcheck::{Ipv4Addr, PortStatus};

fn site(id: &str, db: DbType, version: &str, minio: bool) -> SiteConfig {
    SiteConfig {
        id: id.into(),
        name: id.into(),
        path: format!("/home/u/panel-wp/{id}"),
        domain: format!("{id}.test"),
        group: None,
        created_at: "2026-01-01T00:00:00Z".into(),
        services: Services {
            php: PhpService { version: "8.3".into() },
            nginx: NginxService { ssl: false },
            db: DbService { db_type: db, version: version.into(), db_name: format!("{id}_db") },
        },
        github: GithubConfig::default(),
        one_click_admin: false,
        xdebug_enabled: false,
        headless: false,
        frontend_framework: None,
        minio,
        migration_pending: false,
        last_migrated_at: None,
        clone_of: None,
        worktree_of: None,
        snapshot_excludes: vec![],
    }
}

fn strings(v: &[&str]) -> Vec<String> {
    v.iter().map(|s| s.to_string()).collect()
}

#[test]
fn db_container_names_and_specs() {
    let mysql = DbService { db_type: DbType::Mysql, version: "8.0".into(), db_name: "a".into() };
    let maria = DbService { db_type: DbType::Mariadb, version: "10.11".into(), db_name: "a".into() };
    let pg = DbService { db_type: DbType::Postgres, version: "16".into(), db_name: "a".into() };
    assert_eq!(db_container_name(&mysql), "panel-mysql-80");
    assert_eq!(db_container_name(&maria), "panel-mariadb-1011");
    assert_eq!(db_container_name(&pg), "panel-postgres-16");
    assert_eq!(db_data_dir_in("/h/panel-wp", &mysql), "/h/panel-wp/db-data/panel-mysql-80");
    let d = db_data_dir(&pg).unwrap();
    assert!(d.ends_with("/panel-wp/db-data/panel-postgres-16"));

    let spec = db_spec(&mysql, "/c/db-data/panel-mysql-80");
    assert_eq!(spec.name, "panel-mysql-80");
    assert_eq!(spec.image, "mysql:8.0");
    assert_eq!(spec.env, strings(&["MYSQL_ROOT_PASSWORD=panel", "MYSQL_ROOT_HOST=%"]));
    assert_eq!(spec.binds, strings(&["/c/db-data/panel-mysql-80:/var/lib/mysql"]));
    assert!(spec.cmd.is_empty() && spec.exposed.is_empty() && spec.published.is_empty());

    let spec = db_spec(&pg, "/d");
    assert_eq!(spec.image, "postgres:16-alpine");
    assert_eq!(spec.env, strings(&["POSTGRES_PASSWORD=panel", "POSTGRES_USER=panel"]));
    assert_eq!(spec.binds, strings(&["/d:/var/lib/postgresql/data"]));

    assert_eq!(db_copy_source("panel-mysql-80", "/var/lib/mysql"), "panel-mysql-80:/var/lib/mysql/.");
    assert_eq!(
        db_ready_check(DbType::Mariadb),
        strings(&["mysql", "-h127.0.0.1", "-uroot", "-ppanel", "-e", "SELECT 1"])
    );
    assert_eq!(db_ready_check(DbType::Postgres), strings(&["pg_isready", "-h", "127.0.0.1", "-U", "panel"]));
}

#[test]
fn steps_to_bring_services_up() {
    assert_eq!(db_step(true, true, false), DbStep::Ready);
    assert_eq!(db_step(false, true, true), DbStep::Start);
    assert_eq!(db_step(false, true, false), DbStep::MigrateThenCreate);
    assert_eq!(db_step(false, false, false), DbStep::Create);
    assert_eq!(service_step(true, true), ServiceStep::Ready);
    assert_eq!(service_step(false, true), ServiceStep::Start);
    assert_eq!(service_step(false, false), ServiceStep::Create);
    assert!(matches!(php_step(false, None, "img"), PhpStep::Create));
    assert!(matches!(php_step(true, Some("img"), "img"), PhpStep::Keep));
    assert!(matches!(php_step(true, Some("old"), "img"), PhpStep::Recreate));
}

#[test]
fn shared_service_specs() {
    let m = mailpit_spec();
    assert_eq!(m.name, "panel-mailpit");
    assert_eq!(m.image, "axllent/mailpit:latest");
    assert_eq!(m.exposed, strings(&["8025/tcp", "1025/tcp"]));
    assert_eq!(m.published.len(), 1);
    assert_eq!(m.published[0].host_ip, "127.0.0.1");
    assert_eq!(m.published[0].host_port, 8025);

    let s3 = minio_spec("/c");
    assert_eq!(s3.cmd, strings(&["server", "/data", "--console-address", ":9001"]));
    assert_eq!(s3.binds, strings(&["/c/minio-data:/data"]));
    assert_eq!(s3.published.iter().map(|p| p.host_port).collect::<Vec<_>>(), vec![9100, 9101]);

    let a = adminer_spec("/app/docker");
    assert_eq!(a.image, "adminer:4");
    assert_eq!(a.binds, strings(&["/app/docker/adminer/autologin.php:/var/www/html/plugins-enabled/autologin.php:ro"]));
    assert_eq!(a.published[0].host_port, 8088);
    assert_eq!(docker_assets_dir("/src/src-tauri"), "/src/src-tauri/../docker");

    let ep = Endpoint { loopback_ip: "127.0.0.2".into(), http_port: 80, https_port: 443 };
    let n = nginx_spec(&ep, "/c/nginx/conf.d", "/home/u/panel-wp");
    assert_eq!(n.image, "nginx:alpine");
    assert_eq!(n.binds, strings(&["/c/nginx/conf.d:/etc/nginx/conf.d:ro", "/home/u/panel-wp:/srv/projects:ro"]));
    assert_eq!(n.published.len(), 2);
    assert_eq!(
        (n.published[1].container_port.as_str(), n.published[1].host_ip.as_str(), n.published[1].host_port),
        ("443/tcp", "127.0.0.2", 443)
    );
}

#[test]
fn php_container_spec() {
    let s = site("abc", DbType::Mysql, "8.0", false);
    let p = php_spec(&s, "panel-php:8.3", "/c/bin/wp-cli.phar", 1000, 1001);
    assert_eq!(p.name, "wp-abc");
    assert_eq!(p.image, "panel-php:8.3");
    assert_eq!(
        p.binds,
        strings(&[
            "/home/u/panel-wp/abc/app/public:/var/www/html",
            "/home/u/panel-wp/abc/conf/php/php.ini:/usr/local/etc/php/conf.d/zz-project.ini:ro",
            "/c/bin/wp-cli.phar:/usr/local/bin/wp:ro",
        ])
    );
    assert_eq!(p.env, strings(&["PUID=1000", "PGID=1001"]));
}

#[test]
fn panel_containers_are_recognised_by_prefix() {
    let names = strings(&["wp-abc", "postgres", "panel-nginx", "my-wp-x", "panel-mysql-80"]);
    assert_eq!(panel_container_names(&names), strings(&["wp-abc", "panel-nginx", "panel-mysql-80"]));
}

#[test]
fn teardown_keeps_what_others_use() {
    let a = site("a", DbType::Mysql, "8.0", true);
    let all = vec![
        site("a", DbType::Mysql, "8.0", true),
        site("b", DbType::Mysql, "8.0", false),
        site("c", DbType::Mariadb, "11", true),
    ];

    let plan = teardown_plan(&a, &all, &vec![false, true, false]);
    assert_eq!(plan.db_container, "panel-mysql-80");
    assert!(!plan.stop_db);
    assert!(plan.stop_minio);
    assert!(!plan.stop_front);

    let plan = teardown_plan(&a, &all, &vec![true, false, true]);
    assert!(plan.stop_db);
    assert!(!plan.stop_minio);
    assert!(!plan.stop_front);

    let plan = teardown_plan(&a, &all, &vec![true, false, false]);
    assert!(plan.stop_db && plan.stop_minio && plan.stop_front);
}

#[test]
fn exec_outcome_reports_failures() {
    let cmd = strings(&["wp", "option", "get", "home"]);
    assert_eq!(exec_outcome(&cmd, "wp-a", Some(0), "x\n".into()), Ok("x\n".to_string()));
    assert_eq!(exec_outcome(&cmd, "wp-a", None, "y".into()), Ok("y".to_string()));
    assert_eq!(
        exec_outcome(&cmd, "wp-a", Some(1), "  Error: nope \n".into()),
        Err("`wp option get home` falló en wp-a (código 1): Error: nope".to_string())
    );
    assert_eq!(
        exec_outcome(&cmd, "wp-a", Some(-2), "".into()),
        Err("`wp option get home` falló en wp-a (código -2): ".to_string())
    );
}

const TCP_HEADER: &str = "  sl  local_address rem_address   st tx_queue rx_queue tr tm->when retrnsmt   uid  timeout inode\n";

#[test]
fn endpoint_autoselection() {
    let ep = autoselect_endpoint(TCP_HEADER, "");
    assert_eq!((ep.loopback_ip.as_str(), ep.http_port, ep.https_port), ("127.0.0.1", 8080, 8443));
    // 8080 (0x1F90) taken on every address: the next one up.
    let busy = format!("{TCP_HEADER}   0: 00000000:1F90 00000000:0000 0A 00000000:00000000 00:00000000 00000000  1000        0 1 1\n");
    let ep = autoselect_endpoint(&busy, "");
    assert_eq!((ep.http_port, ep.https_port), (8081, 8443));
}

#[test]
fn endpoint_dns_rule_only_off_default() {
    assert!(!endpoint_dns_needed("127.0.0.1", false));
    assert!(endpoint_dns_needed("127.0.0.2", false));
    assert!(!endpoint_dns_needed("127.0.0.2", true));
}

#[test]
fn preflight_errors() {
    let ep = Endpoint { loopback_ip: "127.0.0.2".into(), http_port: 80, https_port: 443 };
    assert_eq!(
        preflight_endpoint(&ep, &PortStatus::Free, &PortStatus::Specific(vec![Ipv4Addr(127, 0, 0, 3)])).ok(),
        Some(Ipv4Addr(127, 0, 0, 2))
    );
    let e = preflight_endpoint(&ep, &PortStatus::Wildcard, &PortStatus::Free).unwrap_err();
    assert_eq!(
        e.message(Some("nginx")),
        "el puerto 80 (HTTP) ya está ocupado en 127.0.0.2 (lo usa: nginx). Apaga ese servicio (¿LocalWP?) o borra ~/.config/wordpress-panel/panel.json para reasignar puerto."
    );
    let e = preflight_endpoint(&ep, &PortStatus::Free, &PortStatus::Specific(vec![Ipv4Addr(127, 0, 0, 2)])).unwrap_err();
    assert!(matches!(e, PreflightError::Busy { port: 443, .. }));
    assert_eq!(
        e.message(None),
        "el puerto 443 (HTTPS) ya está ocupado en 127.0.0.2. Apaga ese servicio (¿LocalWP?) o borra ~/.config/wordpress-panel/panel.json para reasignar puerto."
    );
    let bad = Endpoint { loopback_ip: "localhost".into(), http_port: 80, https_port: 443 };
    let e = preflight_endpoint(&bad, &PortStatus::Free, &PortStatus::Free).unwrap_err();
    assert_eq!(e.message(None), "IP loopback inválida en la config: localhost");
    assert_eq!(ipv4_string(Ipv4Addr(10, 0, 255, 1)), "10.0.255.1");
}

#[test]
fn service_urls() {
    assert_eq!(mailpit_url(), "http://127.0.0.1:8025/");
    assert_eq!(minio_url(), "http://127.0.0.1:9101/");
    let my = DbService { db_type: DbType::Mysql, version: "8.0".into(), db_name: "shop".into() };
    assert_eq!(adminer_url(&my, "panel-mysql-80"), "http://127.0.0.1:8088/?server=panel-mysql-80&username=root&db=shop");
    let pg = DbService { db_type: DbType::Postgres, version: "16".into(), db_name: "shop".into() };
    assert_eq!(adminer_url(&pg, "panel-postgres-16"), "http://127.0.0.1:8088/?pgsql=panel-postgres-16&username=panel&db=shop");
    assert_eq!(join_strings(&strings(&["a", "b", "c"]), ','), "a,b,c");
    assert_eq!(join_strings(&vec![], ','), "");
}
