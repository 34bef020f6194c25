use wordpress_panel::config::{DbService, DbType};
use wordpress_panel::docker::db_container_name;
use wordpress_panel::wordpress::{default_locale, slugify, sort_versions, version_key, WpVersion};

fn v(version: &str, status: &str) -> WpVersion {
    WpVersion { version: version.into(), status: status.into() }
}

#[test]
fn version_keys() {
    assert_eq!(version_key("6.5.3"), (6, 5, 3));
    assert_eq!(version_key("6.5"), (6, 5, 0));
    assert_eq!(version_key("6"), (6, 0, 0));
    assert_eq!(version_key("6.x.1"), (6, 0, 1));
    assert_eq!(version_key("+6.1.2.9"), (6, 1, 2));
    assert_eq!(version_key(""), (0, 0, 0));
}

#[test]
fn versions_offered_newest_first() {
    let sorted = sort_versions(vec![
        v("6.4.1", "insecure"),
        v("6.5.3", "latest"),
        v("5.9", "outdated"),
        v("6.10", "latest"),
        v("6.5", "outdated"),
    ]);
    let names: Vec<&str> = sorted.iter().map(|x| x.version.as_str()).collect();
    assert_eq!(names, vec!["6.10", "6.5.3", "6.5", "6.4.1", "5.9"]);
    assert_eq!(sorted[1].status, "latest");
    assert!(sort_versions(vec![]).is_empty());
}

#[test]
fn site_slugs_and_locale() {
    assert_eq!(slugify("Mi Blog"), "mi-blog");
    assert_eq!(slugify("  Café Niño! "), "café-niño");
    assert_eq!(slugify("--A--b--"), "a-b");
    assert_eq!(default_locale(), "en_US");
}

#[test]
fn databases_shared_per_engine_and_version() {
    let a = DbService { db_type: DbType::Mysql, version: "8.0".into(), db_name: "a".into() };
    let b = DbService { db_type: DbType::Mysql, version: "8.0".into(), db_name: "b".into() };
    let c = DbService { db_type: DbType::Mysql, version: "8.4".into(), db_name: "a".into() };
    assert_eq!(db_container_name(&a), db_container_name(&b));
    assert_ne!(db_container_name(&a), db_container_name(&c));
}
