use wordpress_panel::groups::rename_applies;
use wordpress_panel::config::{
    DbService, DbType, GithubConfig, NginxService, PhpService, Services, SiteConfig,
};
use wordpress_panel::groups::{create, delete, list, members, rename, reorder, site_group};

fn s(v: &[&str]) -> Vec<String> {
    v.iter().map(|x| x.to_string()).collect()
}

fn site(id: &str, group: Option<&str>) -> SiteConfig {
    SiteConfig {
        id: id.into(),
        name: id.into(),
        path: format!("/p/{id}"),
        domain: format!("{id}.test"),
        group: group.map(|g| g.to_string()),
        created_at: "2026-01-01T00:00:00Z".into(),
        services: Services {
            php: PhpService { version: "8.3".into() },
            nginx: NginxService { ssl: false },
            db: DbService { db_type: DbType::Mysql, version: "8.0".into(), db_name: "d".into() },
        },
        github: GithubConfig::default(),
        one_click_admin: false,
        xdebug_enabled: false,
        headless: false,
        frontend_framework: None,
        minio: false,
        migration_pending: false,
        last_migrated_at: None,
        clone_of: None,
        worktree_of: None,
        snapshot_excludes: vec![],
    }
}

#[test]
fn create_is_idempotent() {
    let mut order = list(None);
    create(&mut order, "alpha");
    create(&mut order, "alpha");
    create(&mut order, "beta");
    assert_eq!(order, vec!["alpha", "beta"]);
}

#[test]
fn delete_removes_from_list() {
    let mut order = list(None);
    create(&mut order, "x");
    create(&mut order, "y");
    delete(&mut order, "x");
    assert_eq!(order, vec!["y"]);
}

#[test]
fn reorder_dedups_and_trims() {
    let order = reorder(s(&[" a ", "b", "a", ""]));
    assert_eq!(order, vec!["a", "b"]);
}

#[test]
fn create_trims_and_skips_blank() {
    let mut order = s(&["a"]);
    assert!(create(&mut order, "  b  "));
    assert!(!create(&mut order, "   "));
    assert!(!create(&mut order, " b"));
    assert_eq!(order, vec!["a", "b"]);
}

#[test]
fn delete_reports_change() {
    let mut order = s(&["a", "b", "a"]);
    assert!(delete(&mut order, "a"));
    assert_eq!(order, vec!["b"]);
    assert!(!delete(&mut order, "zzz"));
    assert_eq!(order, vec!["b"]);
}

#[test]
fn rename_replaces_and_dedups() {
    let mut order = s(&["a", "b", "c"]);
    assert!(rename(&mut order, "c", " a "));
    assert_eq!(order, vec!["a", "b"]);
    assert!(!rename(&mut order, "missing", "x"));
    assert!(!rename(&mut order, "a", "   "));
    assert!(!rename(&mut order, "a", "a"));
    assert_eq!(order, vec!["a", "b"]);
    assert!(rename(&mut order, "b", "z"));
    assert_eq!(order, vec!["a", "z"]);
}

#[test]
fn list_of_stored_or_empty() {
    assert_eq!(list(Some(s(&["q"]))), vec!["q"]);
    assert!(list(None).is_empty());
}

#[test]
fn members_finds_projects_of_group() {
    let sites = vec![site("a", Some("G")), site("b", None), site("c", Some("G")), site("d", Some("H"))];
    assert_eq!(members(&sites, "G"), vec![0, 2]);
    assert_eq!(members(&sites, "H"), vec![3]);
    assert!(members(&sites, "none").is_empty());
}

#[test]
fn site_group_drops_blank() {
    assert_eq!(site_group(Some(" x ".to_string())), Some(" x ".to_string()));
    assert_eq!(site_group(Some("  ".to_string())), None);
    assert_eq!(site_group(None), None);
}

#[test]
fn rename_applies_only_to_a_real_change() {
    assert!(rename_applies("a", " b "));
    assert!(rename_applies("missing", "x"));
    assert!(!rename_applies("a", "   "));
    assert!(!rename_applies("a", " a "));
}
