use wordpress_panel::config::{
    DbService, DbType, GithubConfig, NginxService, PhpService, Services, SiteConfig,
};
use wordpress_panel::snapshot::{
    clean_excludes, excludable_entries, known_backup, new_meta, new_meta_now, newest_first, snapshot_dir,
    snapshots_root, tar_args, tar_failure_message, tar_status, tar_warning_line, SnapshotMeta,
    TarStatus,
};

fn site(excludes: &[&str]) -> SiteConfig {
    SiteConfig {
        id: "s1".into(),
        name: "Shop".into(),
        path: "/p/shop".into(),
        domain: "shop.test".into(),
        group: None,
        created_at: "2026-01-01T00:00:00Z".into(),
        services: Services {
            php: PhpService { version: "8.3".into() },
            nginx: NginxService { ssl: true },
            db: DbService { db_type: DbType::Mariadb, version: "10.11".into(), db_name: "shop_db".into() },
        },
        github: GithubConfig::default(),
        one_click_admin: false,
        xdebug_enabled: false,
        headless: false,
        frontend_framework: None,
        minio: false,
        migration_pending: false,
        last_migrated_at: None,
        clone_of: None,
        worktree_of: None,
        snapshot_excludes: excludes.iter().map(|s| s.to_string()).collect(),
    }
}

fn meta(id: &str, created_at: &str) -> SnapshotMeta {
    new_meta(id, id, created_at, &site(&[]), 0, 0)
}

#[test]
fn snapshot_folders() {
    let s = site(&[]);
    assert_eq!(snapshots_root(&s), "/p/shop/snapshots");
    assert_eq!(snapshot_dir(&s, "20260101-101010"), "/p/shop/snapshots/20260101-101010");
}

#[test]
fn known_backup_folders() {
    assert_eq!(known_backup("wp-content/updraft"), (true, Some("UpdraftPlus".to_string())));
    assert_eq!(known_backup("wp-snapshots"), (true, Some("Duplicator".to_string())));
    assert_eq!(known_backup("wp-content/plugins"), (false, None));
}

#[test]
fn tar_arguments_with_extra_exclusions() {
    let extras = vec![" ./wp-content/updraft/ ".to_string(), "".to_string(), "././/".to_string(), "big".to_string()];
    assert_eq!(
        tar_args("/p/shop/snapshots/x/code.tar.zst", "/p/shop/app/public", &extras),
        vec![
            "--zstd",
            "-cf",
            "/p/shop/snapshots/x/code.tar.zst",
            "--exclude=./wp-content/uploads",
            "--exclude=./wp-content/cache",
            "--exclude=./wp-config.php",
            "--exclude=./*.log",
            "--exclude=./wp-content/updraft",
            "--exclude=./big",
            "-C",
            "/p/shop/app/public",
            ".",
        ]
    );
}

#[test]
fn tar_exit_codes() {
    assert_eq!(tar_status(0), TarStatus::Clean);
    assert_eq!(tar_status(1), TarStatus::Warned);
    assert_eq!(tar_status(2), TarStatus::Failed);
    assert_eq!(tar_status(-1), TarStatus::Failed);
    assert_eq!(
        tar_failure_message(2, "\n tar: boom \n"),
        "tar falló (código 2) al crear el snapshot de código:\ntar: boom"
    );
    assert_eq!(
        tar_warning_line("  tar: a: file changed as we read it\ntar: b: file changed\n"),
        "      ⚠ tar avisó de archivos que cambiaron durante la copia (no fatal): tar: a: file changed as we read it"
    );
    assert_eq!(
        tar_warning_line(""),
        "      ⚠ tar avisó de archivos que cambiaron durante la copia (no fatal): "
    );
}

#[test]
fn meta_records_the_project() {
    let s = site(&["big"]);
    let m = new_meta("id1", "antes del update", "2026-02-02T10:00:00Z", &s, 10, 20);
    assert_eq!(m.id, "id1");
    assert_eq!(m.label, "antes del update");
    assert_eq!(m.created_at, "2026-02-02T10:00:00Z");
    assert_eq!(m.db_name, "shop_db");
    assert_eq!(m.db_type, DbType::Mariadb);
    assert_eq!((m.code_bytes, m.db_bytes), (10, 20));
    assert_eq!(m.excludes, vec!["big".to_string()]);
}

#[test]
fn snapshots_listed_newest_first() {
    let list = newest_first(vec![
        meta("a", "2026-01-01T00:00:00Z"),
        meta("b", "2026-03-01T00:00:00Z"),
        meta("c", "2026-02-01T00:00:00Z"),
        meta("d", "2026-03-01T00:00:00Z"),
    ]);
    let ids: Vec<&str> = list.iter().map(|m| m.id.as_str()).collect();
    assert_eq!(ids, vec!["b", "d", "c", "a"]);
}

#[test]
fn excludable_folders_biggest_first() {
    let dirs = vec![
        ("plugins".to_string(), 50u64),
        ("uploads".to_string(), 1000u64),
        ("cache".to_string(), 900u64),
        ("updraft".to_string(), 300u64),
        ("themes".to_string(), 50u64),
    ];
    let known = vec![None, None, None, None, None, None, Some(70u64)];
    let out = excludable_entries(&dirs, &known);
    let view: Vec<(&str, u64, bool, Option<&str>)> =
        out.iter().map(|e| (e.path.as_str(), e.bytes, e.known, e.label.as_deref())).collect();
    assert_eq!(
        view,
        vec![
            ("wp-content/updraft", 300, true, Some("UpdraftPlus")),
            ("wp-snapshots", 70, true, Some("Duplicator")),
            ("wp-content/plugins", 50, false, None),
            ("wp-content/themes", 50, false, None),
        ]
    );
    // A known folder already listed under wp-content is not listed twice.
    let known = vec![Some(1u64), None, None, None, None, None, None];
    let out = excludable_entries(&dirs, &known);
    assert_eq!(out.iter().filter(|e| e.path == "wp-content/updraft").count(), 1);
}

#[test]
fn stored_exclusions_are_clean_sorted_unique() {
    let v = clean_excludes(vec![
        " ./wp-content/b/ ".to_string(),
        "wp-content/a".to_string(),
        "/wp-content/b".to_string(),
        "   ".to_string(),
        "./".to_string(),
    ]);
    assert_eq!(v, vec!["wp-content/a".to_string(), "wp-content/b".to_string()]);
}

#[test]
fn a_new_save_point_is_dated_now_in_rfc3339() {
    let m = new_meta_now("id1", "antes", &site(&[]), 1, 2).unwrap();
    let t = m.created_at.as_str();
    assert!(t.len() >= 25);
    assert_eq!(&t[4..5], "-");
    assert_eq!(&t[10..11], "T");
    assert_eq!(&t[13..14], ":");
    assert!(t.ends_with("+00:00"));
    assert!(t >= "2024-01-01T00:00:00");
    assert_eq!((m.id.as_str(), m.code_bytes, m.db_bytes), ("id1", 1, 2));
}
