use wordpress_panel::clone;
use wordpress_panel::config::{
    DbService, DbType, GithubConfig, NginxService, PhpService, Services, SiteConfig,
};
use wordpress_panel::wordpress::db_name_for_slug;
use wordpress_panel::worktree;

fn mock_site(dirname: &str, domain: &str) -> SiteConfig {
    SiteConfig {
        id: format!("id-{dirname}"),
        name: dirname.into(),
        path: format!("/home/u/panel-wp/{dirname}"),
        domain: domain.into(),
        group: None,
        created_at: "2026-01-01T00:00:00Z".into(),
        services: Services {
            php: PhpService { version: "8.3".into() },
            nginx: NginxService { ssl: false },
            db: DbService { db_type: DbType::Mysql, version: "8.0".into(), db_name: "x_db".into() },
        },
        github: GithubConfig::default(),
        one_click_admin: false,
        xdebug_enabled: false,
        headless: false,
        frontend_framework: None,
        minio: false,
        migration_pending: false,
        last_migrated_at: None,
        clone_of: None,
        worktree_of: None,
        snapshot_excludes: vec![],
    }
}

#[test]
fn find_free_slot_base_libre() {
    let (slug, path, domain) = clone::find_free_slot("/tmp/projects", "mysite-v1", &[], &vec![]).unwrap();
    assert_eq!(slug, "mysite-v1");
    assert_eq!(path, "/tmp/projects/mysite-v1");
    assert_eq!(domain, "mysite-v1.test");
}

#[test]
fn find_free_slot_evita_colision_path() {
    let taken = vec!["mysite-v1".to_string()];
    let (slug, _, domain) = clone::find_free_slot("/tmp/projects", "mysite-v1", &[], &taken).unwrap();
    assert_eq!(slug, "mysite-v1-1");
    assert_eq!(domain, "mysite-v1-1.test");
}

#[test]
fn find_free_slot_evita_colision_dominio() {
    let existing = vec![mock_site("other", "mysite-v1.test")];
    let (slug, _, domain) = clone::find_free_slot("/tmp/projects", "mysite-v1", &existing, &vec![]).unwrap();
    assert_eq!(slug, "mysite-v1-1");
    assert_eq!(domain, "mysite-v1-1.test");
}

#[test]
fn find_free_slot_falls_back_to_random_suffix() {
    let mut taken = vec!["b".to_string()];
    for n in 1..=99 {
        taken.push(format!("b-{n}"));
    }
    let (slug, path, domain) = clone::find_free_slot("/r", "b", &[], &taken).unwrap();
    assert_eq!(slug.len(), 2 + 8);
    assert!(slug.starts_with("b-"));
    assert!(slug[2..].chars().all(|c| c.is_ascii_hexdigit() && !c.is_ascii_uppercase()));
    assert_eq!(path, format!("/r/{slug}"));
    assert_eq!(domain, format!("{slug}.test"));
}

#[test]
fn slugify_etiquetas() {
    assert_eq!(clone::slugify("Antes de actualizar"), "antes-de-actualizar");
    assert_eq!(clone::slugify("  v2.0 / final  "), "v2-0-final");
    assert_eq!(clone::slugify("¡¡¡"), "clone");
    assert_eq!(clone::slugify(""), "clone");
    assert_eq!(clone::slugify("Plugin WooCommerce!!"), "plugin-woocommerce");
}

#[test]
fn db_name_derivacion() {
    assert_eq!(db_name_for_slug("mysite-clone"), "mysite_clone_db");
}

#[test]
fn valida_rama_y_sugiere() {
    let pasted = "git checkout -b feature/franklinp/sc-8300/uws-new-page";
    assert!(worktree::invalid_branch_reason(pasted).is_some());
    assert_eq!(
        worktree::guess_branch(pasted).as_deref(),
        Some("feature/franklinp/sc-8300/uws-new-page")
    );
    assert_eq!(worktree::guess_branch("\"feature/x\"").as_deref(), Some("feature/x"));
    assert!(worktree::invalid_branch_reason("feature/x").is_none());
    assert_eq!(worktree::guess_branch("feature/x"), None);
}

#[test]
fn invalid_branch_reasons_each_rule() {
    assert_eq!(worktree::invalid_branch_reason("a b"), Some("no puede contener espacios"));
    assert_eq!(worktree::invalid_branch_reason("-x"), Some("no puede empezar por «-»"));
    assert_eq!(worktree::invalid_branch_reason("a..b"), Some("no puede contener «..»"));
    assert_eq!(worktree::invalid_branch_reason("a~b"), Some("contiene caracteres no permitidos"));
}

#[test]
fn slugify_ramas() {
    assert_eq!(worktree::slugify("feat/nueva-cabecera"), "feat-nueva-cabecera");
    assert_eq!(worktree::slugify("BUGFIX_123"), "bugfix-123");
    assert_eq!(worktree::slugify("///"), "wt");
}

#[test]
fn find_free_slot_evita_colisiones() {
    let taken = vec!["site-feat".to_string()];
    let (slug, _, domain) = worktree::find_free_slot("/tmp/p", "site-feat", &[], &taken).unwrap();
    assert_eq!(slug, "site-feat-1");
    assert_eq!(domain, "site-feat-1.test");
}
