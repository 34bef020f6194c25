use wordpress_panel::config::{
    DbService, DbType, GithubConfig, GithubRepo, NginxService, PhpService, Services, SiteConfig,
};
use wordpress_panel::registry::{
    check_reimport, disconnected_entry, list_disconnected, load_sites, readopt, rebuilt_config,
    reconstruct_config, FolderScan, ReimportRefusal,
};

fn project(id: &str, name: &str) -> SiteConfig {
    SiteConfig {
        id: id.into(),
        name: name.into(),
        path: format!("/p/{id}"),
        domain: format!("{id}.test"),
        group: None,
        created_at: "2026-01-01T00:00:00Z".into(),
        services: Services {
            php: PhpService { version: "8.2".into() },
            nginx: NginxService { ssl: true },
            db: DbService { db_type: DbType::Mariadb, version: "11.4".into(), db_name: format!("{id}_db") },
        },
        github: GithubConfig::default(),
        one_click_admin: false,
        xdebug_enabled: false,
        headless: false,
        frontend_framework: None,
        minio: false,
        migration_pending: false,
        last_migrated_at: Some("2026-02-02T00:00:00Z".into()),
        clone_of: None,
        worktree_of: None,
        snapshot_excludes: vec![],
    }
}

fn repo(path: &str) -> GithubRepo {
    GithubRepo { repo: "me/r".into(), branch: "main".into(), path: path.into(), build_cmd: None, build_dirs: vec![] }
}

fn scan(folder: &str, has_config: bool, preserved: Option<SiteConfig>, has_wp_config: bool, has_dump: bool) -> FolderScan {
    FolderScan {
        folder_name: folder.into(),
        path: format!("/home/u/panel-wp/{folder}"),
        has_config,
        preserved,
        has_wp_config,
        has_dump,
    }
}

#[test]
fn projects_loaded_sorted_and_normalized() {
    let mut legacy = project("b", "Beta");
    legacy.github.theme = Some(repo("wp-content/themes/t"));
    let read = vec![project("c", "Gamma"), legacy, project("a", "Alpha"), project("a2", "Beta")];
    let sites = load_sites(read);
    let names: Vec<(&str, &str)> = sites.iter().map(|s| (s.name.as_str(), s.id.as_str())).collect();
    assert_eq!(names, vec![("Alpha", "a"), ("Beta", "b"), ("Beta", "a2"), ("Gamma", "c")]);
    assert_eq!(sites[1].github.repos.len(), 1);
    assert!(sites[1].github.theme.is_none());
}

#[test]
fn disconnected_folders_offered() {
    assert!(disconnected_entry(&scan("reg", true, Some(project("r", "R")), true, true)).is_none());
    assert!(disconnected_entry(&scan("empty", false, None, false, false)).is_none());

    let kept = disconnected_entry(&scan("shop", false, Some(project("s", "Shop")), true, true)).unwrap();
    assert_eq!(kept.name, "Shop");
    assert_eq!(kept.domain, "s.test");
    assert_eq!((kept.php_version.as_str(), kept.db_version.as_str(), kept.db_type.as_str()), ("8.2", "11.4", "mariadb"));
    assert_eq!(kept.kind, "preserved");
    assert!(kept.has_dump);

    let rebuilt = disconnected_entry(&scan("old-site", false, None, true, false)).unwrap();
    assert_eq!(rebuilt.name, "old-site");
    assert_eq!(rebuilt.domain, "old-site.test");
    assert_eq!((rebuilt.php_version.as_str(), rebuilt.db_version.as_str(), rebuilt.db_type.as_str()), ("8.3", "8.0", "mysql"));
    assert_eq!(rebuilt.kind, "reconstructed");

    let list = list_disconnected(&vec![
        scan("zz", false, None, true, false),
        scan("reg", true, None, true, false),
        scan("aa", false, Some(project("m", "Mid")), false, false),
    ]);
    let names: Vec<&str> = list.iter().map(|d| d.name.as_str()).collect();
    assert_eq!(names, vec!["Mid", "zz"]);
}

#[test]
fn reimport_checks_and_messages() {
    assert_eq!(check_reimport(false, false, true), Err(ReimportRefusal::NoFolder));
    assert_eq!(check_reimport(true, true, true), Err(ReimportRefusal::AlreadyRegistered));
    assert_eq!(check_reimport(true, false, false), Err(ReimportRefusal::NoPublic));
    assert_eq!(check_reimport(true, false, true), Ok(()));
    assert_eq!(ReimportRefusal::NoFolder.message("x"), "no existe la carpeta x en panel-wp");
    assert_eq!(ReimportRefusal::AlreadyRegistered.message("x"), "«x» ya está en el panel");
    assert_eq!(
        ReimportRefusal::NoPublic.message("x"),
        "la carpeta x no contiene app/public (no es un proyecto del panel)"
    );
}

#[test]
fn rebuilt_configuration() {
    let s = rebuilt_config("Mi Sitio", "/home/u/panel-wp/Mi Sitio", Some("define('DB_NAME', 'legacy_db');"), "id9", "t0");
    assert_eq!(s.id, "id9");
    assert_eq!(s.domain, "mi-sitio.test");
    assert_eq!(s.services.db.db_name, "legacy_db");
    assert_eq!((s.services.php.version.as_str(), s.services.db.version.as_str()), ("8.3", "8.0"));
    assert!(s.migration_pending && s.one_click_admin && s.services.nginx.ssl);
    let s = rebuilt_config("Mi Sitio", "/d", None, "id9", "t0");
    assert_eq!(s.services.db.db_name, "mi_sitio_db");
    let s = reconstruct_config("x", "/d", None).unwrap();
    assert_eq!(s.id.len(), 36);
    assert_eq!(s.id.chars().nth(14), Some('4'));
    assert!("89ab".contains(s.id.chars().nth(19).unwrap()));
}

#[test]
fn readopting_a_recovered_config() {
    let existing = vec![project("taken", "Other")];
    let mut s = project("taken", "Copy");
    assert!(readopt(&mut s, Some("/home/u/panel-wp/copy"), &existing));
    assert_eq!(s.path, "/home/u/panel-wp/copy");
    assert_ne!(s.id, "taken");
    assert!(s.migration_pending);
    assert!(s.last_migrated_at.is_none());

    let mut s = project("free", "Mine");
    assert!(readopt(&mut s, None, &existing));
    assert_eq!(s.id, "free");
    assert_eq!(s.path, "/p/free");
}
