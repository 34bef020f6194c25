use wordpress_panel::config::{
    DbService, DbType, GithubConfig, NginxService, PhpService, Services, SiteConfig,
};
use wordpress_panel::localwp::{
    copy_source, expand_tilde, import_config, import_note, list_sites, major_minor,
    new_import_config, pick_supported, source_dump, source_public, RawLocalSite,
};

fn raw(id: &str, name: &str, php: &str, mysql: &str, multi: &str) -> RawLocalSite {
    RawLocalSite {
        id: id.into(),
        name: name.into(),
        path: format!("~/Local Sites/{id}"),
        php_version: php.into(),
        mysql_version: mysql.into(),
        multi_site: multi.into(),
        xdebug_enabled: true,
    }
}

fn project(name: &str, domain: &str) -> SiteConfig {
    SiteConfig {
        id: "x".into(),
        name: name.into(),
        path: "/p/x".into(),
        domain: domain.into(),
        group: None,
        created_at: "2026-01-01T00:00:00Z".into(),
        services: Services {
            php: PhpService { version: "8.3".into() },
            nginx: NginxService { ssl: true },
            db: DbService { db_type: DbType::Mysql, version: "8.0".into(), db_name: "x_db".into() },
        },
        github: GithubConfig::default(),
        one_click_admin: false,
        xdebug_enabled: false,
        headless: false,
        frontend_framework: None,
        minio: false,
        migration_pending: false,
        last_migrated_at: None,
        clone_of: None,
        worktree_of: None,
        snapshot_excludes: vec![],
    }
}

#[test]
fn versions_and_paths() {
    assert_eq!(major_minor("8.4.10"), "8.4");
    assert_eq!(major_minor("8"), "8");
    assert_eq!(major_minor(""), "");
    assert_eq!(expand_tilde("~/Local Sites/a", Some("/home/u")), "/home/u/Local Sites/a");
    assert_eq!(expand_tilde("~/x", None), "~/x");
    assert_eq!(expand_tilde("/abs/x", Some("/home/u")), "/abs/x");
    assert_eq!(pick_supported("8.2", &vec!["7.4", "8.2", "8.4"]), ("8.2".to_string(), false));
    assert_eq!(pick_supported("5.6", &vec!["7.4", "8.2", "8.4"]), ("8.4".to_string(), true));
}

#[test]
fn sites_listed_sorted_and_marked() {
    let raws = vec![raw("b", "Zeta Shop", "8.1.29", "8.0.35", ""), raw("a", "Alpha", "7.4.1", "5.7.44", "subdir")];
    let existing = vec![project("Other", "zeta-shop.test")];
    let list = list_sites(&raws, &existing, Some("/home/u"));
    assert_eq!(list.len(), 2);
    assert_eq!(list[0].name, "Alpha");
    assert_eq!(list[0].domain, "alpha.test");
    assert_eq!(list[0].path, "/home/u/Local Sites/a");
    assert_eq!((list[0].php_version.as_str(), list[0].db_version.as_str()), ("7.4", "5.7"));
    assert!(list[0].multisite && list[0].xdebug && !list[0].already_imported);
    assert_eq!(list[1].name, "Zeta Shop");
    assert!(list[1].already_imported);
    assert!(!list[1].multisite);
}

#[test]
fn import_paths() {
    let r = raw("a", "Alpha", "8.1", "8.0", "");
    assert_eq!(source_public(&r, Some("/home/u")), "/home/u/Local Sites/a/app/public");
    assert_eq!(source_dump(&r, Some("/home/u")), "/home/u/Local Sites/a/app/sql/local.sql");
    assert_eq!(copy_source("/x/public"), "/x/public/.");
}

#[test]
fn imported_project_config() {
    let r = raw("a", "Mi Tienda", "8.1.2", "5.7.44", "");
    let (site, php_adj, db_adj) = import_config(&r, "id-1", "/p/mi-tienda", "2026-01-01T00:00:00Z");
    assert_eq!(site.id, "id-1");
    assert_eq!(site.domain, "mi-tienda.test");
    assert_eq!(site.group.as_deref(), Some("LocalWP"));
    assert_eq!(site.services.php.version, "8.1");
    assert!(!php_adj);
    assert_eq!(site.services.db.version, "8.4");
    assert!(db_adj);
    assert_eq!(site.services.db.db_name, "mi_tienda_db");
    assert!(site.services.nginx.ssl && site.one_click_admin && site.migration_pending && site.xdebug_enabled);

    assert_eq!(
        import_note(false, &r, &site, php_adj, db_adj).as_deref(),
        Some("No se encontró app/sql/local.sql en LocalWP: exporta la DB desde LocalWP antes de migrar. MySQL 5.7 no soportada → usando 8.4.")
    );
    assert_eq!(import_note(true, &r, &site, false, false), None);
    let m = raw("m", "Multi", "8.3", "8.0", "subdomain");
    let (ms, _, _) = import_config(&m, "id-2", "/p/multi", "t");
    assert_eq!(import_note(true, &m, &ms, false, false).as_deref(), Some("Es multisite: revisa la configuración tras migrar."));

    let (fresh, _, _) = new_import_config(&r, "/p/mi-tienda").unwrap();
    assert_eq!(fresh.id.len(), 36);
    assert_ne!(fresh.id, new_import_config(&r, "/p/mi-tienda").unwrap().0.id);
}
