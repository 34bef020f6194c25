use wordpress_panel::config::{
    clear_endpoint, endpoint_or_default, load_endpoint, save_endpoint, PanelConfig,
    parse_db_name, path_basename, CloneInfo, DbService, DbType, Endpoint, GithubConfig,
    GithubRepo, NginxService, PhpService, Services, SiteConfig, WorktreeInfo,
};
use wordpress_panel::nginx::{project_dirname, render_vhost};

fn site() -> SiteConfig {
    SiteConfig {
        id: "abc123".into(),
        name: "Demo".into(),
        path: "/home/u/panel-wp/demo".into(),
        domain: "demo.test".into(),
        group: Some("LocalWP".into()),
        created_at: "2026-01-01T00:00:00Z".into(),
        services: Services {
            php: PhpService { version: "8.3".into() },
            nginx: NginxService { ssl: true },
            db: DbService { db_type: DbType::Mysql, version: "8.0".into(), db_name: "demo".into() },
        },
        github: GithubConfig::default(),
        one_click_admin: true,
        xdebug_enabled: false,
        headless: false,
        frontend_framework: None,
        minio: false,
        migration_pending: true,
        last_migrated_at: None,
        clone_of: None,
        worktree_of: None,
        snapshot_excludes: vec![],
    }
}

fn base_site(ssl: bool) -> SiteConfig {
    let mut s = site();
    s.id = "abc".into();
    s.group = None;
    s.services.nginx.ssl = ssl;
    s.services.db.db_name = "demo_db".into();
    s.migration_pending = false;
    s
}

#[test]
fn container_name_y_sql_dir() {
    let s = site();
    assert_eq!(s.container_name(), "wp-abc123");
    assert_eq!(s.sql_dir(), "/home/u/panel-wp/demo/app/sql");
}

#[test]
fn site_url_cuatro_ramas() {
    let limpio = Endpoint::default();
    assert_eq!(limpio.site_url("demo.test", true), "https://demo.test");
    assert_eq!(limpio.site_url("demo.test", false), "http://demo.test");

    let alterno = Endpoint { loopback_ip: "127.0.0.1".into(), http_port: 8080, https_port: 8443 };
    assert_eq!(alterno.site_url("demo.test", true), "https://demo.test:8443");
    assert_eq!(alterno.site_url("demo.test", false), "http://demo.test:8080");
}

fn repo(r: &str, b: &str, p: &str) -> GithubRepo {
    GithubRepo { repo: r.into(), branch: b.into(), path: p.into(), build_cmd: None, build_dirs: vec![] }
}

#[test]
fn github_normalize_pliega_legacy_en_repos() {
    let mut gh = GithubConfig {
        repos: vec![],
        theme: Some(repo("me/theme", "main", "wp-content/themes/t")),
        plugins: vec![repo("me/plug", "dev", "wp-content/plugins/p")],
    };
    gh.normalize();
    assert_eq!(gh.repos.len(), 2);
    assert!(gh.theme.is_none());
    assert!(gh.plugins.is_empty());
    gh.normalize();
    assert_eq!(gh.repos.len(), 2);
}

#[test]
fn normalize_skips_paths_already_registered() {
    let mut gh = GithubConfig {
        repos: vec![repo("me/theme", "main", "wp-content/themes/t")],
        theme: Some(repo("old/theme", "x", "wp-content/themes/t")),
        plugins: vec![repo("a", "b", "wp-content/plugins/p"), repo("c", "d", "wp-content/plugins/p")],
    };
    gh.normalize();
    let paths: Vec<&str> = gh.repos.iter().map(|r| r.path.as_str()).collect();
    assert_eq!(paths, vec!["wp-content/themes/t", "wp-content/plugins/p"]);
    assert_eq!(gh.repos[0].repo, "me/theme");
    assert_eq!(gh.repos[1].repo, "a");
}

#[test]
fn endpoint_default_and_is_default() {
    assert!(Endpoint::default().is_default());
    let e = Endpoint { loopback_ip: "127.0.0.2".into(), http_port: 80, https_port: 443 };
    assert!(!e.is_default());
}

#[test]
fn parse_db_name_reads_define() {
    let raw = "<?php\ndefine( 'DB_NAME', 'mi_db_legacy' );\n";
    assert_eq!(parse_db_name(raw).as_deref(), Some("mi_db_legacy"));
    assert_eq!(parse_db_name("define(\"DB_NAME\", \"x\");").as_deref(), Some("x"));
    assert_eq!(parse_db_name("<?php\n// nothing\n"), None);
    // An empty value is skipped and the scan goes on.
    assert_eq!(
        parse_db_name("define('DB_NAME', '');\r\ndefine('DB_NAME', 'second');").as_deref(),
        Some("second")
    );
    // Too few quotes ends the scan.
    assert_eq!(parse_db_name("define(DB_NAME);\ndefine('DB_NAME', 'late');"), None);
}

#[test]
fn path_basename_objetivo() {
    assert_eq!(path_basename("wp-content/themes/mi-theme"), "mi-theme");
    assert_eq!(path_basename("wp-content/plugins/x/"), "x");
}

#[test]
fn project_dirname_uses_last_component() {
    let mut s = site();
    assert_eq!(project_dirname(&s), "demo");
    s.path = "/home/u/panel-wp/demo/./".into();
    assert_eq!(project_dirname(&s), "demo");
    s.path = "/".into();
    assert_eq!(project_dirname(&s), "Demo");
    s.path = "/home/..".into();
    assert_eq!(project_dirname(&s), "Demo");
}

#[test]
fn vhost_normal_sin_uploads_block() {
    let site = base_site(false);
    let conf = render_vhost(&site);
    assert!(!conf.contains("uploads_base"), "no-clone no debe tener @uploads_base");
    assert!(conf.contains("server_name demo.test"), "falta server_name");
}

fn clone_info() -> CloneInfo {
    CloneInfo {
        parent_id: "parent1".into(),
        parent_dirname: "demo".into(),
        snapshot_id: "snap1".into(),
        created_at: "2026-01-01T00:00:00Z".into(),
    }
}

#[test]
fn vhost_clone_incluye_uploads_fallback_http() {
    let mut site = base_site(false);
    site.path = "/home/u/panel-wp/demo-clone".into();
    site.domain = "demo-clone.test".into();
    site.clone_of = Some(clone_info());
    let conf = render_vhost(&site);
    assert!(conf.contains("@uploads_base"), "clone http debe tener @uploads_base");
    assert!(conf.contains("/srv/projects/demo-clone/app/public"), "debe tener ruta del clone");
    assert!(conf.contains("/srv/projects/demo/app/public"), "debe tener ruta del padre");
    assert!(conf.contains("^~ /wp-content/uploads/"), "debe tener location ^~");
}

#[test]
fn vhost_clone_incluye_uploads_fallback_ssl() {
    let mut site = base_site(true);
    site.path = "/home/u/panel-wp/demo-clone".into();
    site.domain = "demo-clone.test".into();
    site.clone_of = Some(clone_info());
    let conf = render_vhost(&site);
    assert!(conf.contains("@uploads_base"), "clone ssl debe tener @uploads_base");
    assert!(conf.contains("listen 443 ssl"), "debe tener SSL");
}

#[test]
fn vhost_worktree_root_padre_y_alias_objetivo() {
    let mut site = base_site(true);
    site.path = "/home/u/panel-wp/demo-feat".into();
    site.domain = "demo-feat.test".into();
    site.worktree_of = Some(WorktreeInfo {
        parent_id: "parent1".into(),
        parent_dirname: "demo".into(),
        target_path: "wp-content/themes/mi-theme".into(),
        branch: "feat/x".into(),
        shared_db: true,
        created_at: "2026-01-01T00:00:00Z".into(),
    });
    let conf = render_vhost(&site);
    assert!(conf.contains("root /srv/projects/demo/app/public"), "root debe ser el del padre:\n{conf}");
    assert!(
        conf.contains("alias /srv/projects/demo-feat/wt/mi-theme/$1"),
        "debe servir el objetivo por alias desde el worktree:\n{conf}"
    );
    assert!(
        conf.contains("^/wp-content/themes/mi-theme/"),
        "el location del objetivo debe usar la ruta del repo:\n{conf}"
    );
}

#[test]
fn endpoint_kept_then_forgotten() {
    let mut cfg = PanelConfig::default();
    save_endpoint(&mut cfg, Endpoint { loopback_ip: "127.0.0.2".into(), http_port: 8080, https_port: 8443 });
    let loaded = load_endpoint(cfg);
    let used = endpoint_or_default(loaded);
    assert_eq!((used.loopback_ip.as_str(), used.http_port, used.https_port), ("127.0.0.2", 8080, 8443));

    let mut cfg = PanelConfig::default();
    save_endpoint(&mut cfg, Endpoint { loopback_ip: "127.0.0.3".into(), http_port: 81, https_port: 444 });
    clear_endpoint(&mut cfg);
    assert!(load_endpoint(cfg).is_none());
    let used = endpoint_or_default(None);
    assert!(used.is_default());
}
