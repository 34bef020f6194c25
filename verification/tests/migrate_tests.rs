use wordpress_panel::config::{
    DbService, DbType, GithubConfig, NginxService, PhpService, Services, SiteConfig,
};
use wordpress_panel::migrate::{
    db_size_from_output, db_size_query, import_args, import_failure_message, import_stalled_message,
    latest_dump, mark_migrated, no_dump_note, progress_bar, progress_line, set_url_args, url_scheme,
    watchdog_tick, IMPORT_IDLE_TIMEOUT_MS,
};

fn site() -> SiteConfig {
    SiteConfig {
        id: "m1".into(),
        name: "Mig".into(),
        path: "/p/mig".into(),
        domain: "mig.test".into(),
        group: Some("LocalWP".into()),
        created_at: "2026-01-01T00:00:00Z".into(),
        services: Services {
            php: PhpService { version: "8.2".into() },
            nginx: NginxService { ssl: true },
            db: DbService { db_type: DbType::Mysql, version: "8.0".into(), db_name: "mig".into() },
        },
        github: GithubConfig::default(),
        one_click_admin: true,
        xdebug_enabled: false,
        headless: false,
        frontend_framework: None,
        minio: false,
        migration_pending: true,
        last_migrated_at: None,
        clone_of: None,
        worktree_of: None,
        snapshot_excludes: vec![],
    }
}

fn entry(name: &str, mtime: u128) -> (String, String, u128) {
    (format!("/p/mig/app/sql/{name}"), name.to_string(), mtime)
}

#[test]
fn migrated_project_record() {
    let mut s = site();
    mark_migrated(&mut s, "2026-05-05T05:05:05Z");
    assert!(!s.migration_pending);
    assert_eq!(s.last_migrated_at.as_deref(), Some("2026-05-05T05:05:05Z"));
    assert_eq!(s.name, "Mig");
    assert_eq!(s.group.as_deref(), Some("LocalWP"));
    assert_eq!(no_dump_note(), "No había dump en app/sql/: el sitio arranca con la base de datos vacía.");
    assert_eq!(url_scheme(true), "https");
    assert_eq!(url_scheme(false), "http");
}

#[test]
fn newest_sql_dump_is_picked() {
    let entries = vec![entry("a.sql", 10), entry("notes.txt", 99), entry("b.sql", 30), entry(".sql", 50), entry("c.sql", 30)];
    assert_eq!(latest_dump(&entries), Some("/p/mig/app/sql/b.sql".to_string()));
    assert_eq!(latest_dump(&vec![entry("x.sql.gz", 1)]), None);
    assert_eq!(latest_dump(&vec![]), None);
}

#[test]
fn import_commands_and_messages() {
    assert_eq!(import_args("panel-mysql-80", "mig"), vec!["exec", "-i", "panel-mysql-80", "mysql", "-uroot", "-ppanel", "mig"]);
    assert_eq!(
        db_size_query("mig"),
        "SELECT COALESCE(SUM(data_length+index_length),0) FROM information_schema.tables WHERE table_schema='mig'"
    );
    assert_eq!(
        import_failure_message("panel-mysql-80", "\nERROR 1064 at line 3\n"),
        "import del dump falló en panel-mysql-80: ERROR 1064 at line 3"
    );
    assert!(import_stalled_message().starts_with("import cancelado: sin actividad por 3 min."));
    assert_eq!(set_url_args("home", "https://mig.test"), vec!["--skip-plugins", "--skip-themes", "option", "update", "home", "https://mig.test"]);
}

#[test]
fn db_size_parsing() {
    assert_eq!(db_size_from_output("mysql: [Warning] Using a password.\n 123456 \n"), 123456);
    assert_eq!(db_size_from_output("7\nnot a number\n"), 7);
    assert_eq!(db_size_from_output("garbage"), 0);
    assert_eq!(db_size_from_output(""), 0);
}

#[test]
fn watchdog_counts_growth_as_progress() {
    // Growth moves the last activity to now.
    assert_eq!(watchdog_tick(100, 0, 50_000, 200), (200, 50_000, false));
    // No growth: the idle time keeps counting, and stalls at the timeout.
    assert_eq!(watchdog_tick(200, 50_000, 50_000 + IMPORT_IDLE_TIMEOUT_MS - 1, 200), (200, 50_000, false));
    assert_eq!(watchdog_tick(200, 50_000, 50_000 + IMPORT_IDLE_TIMEOUT_MS, 150), (200, 50_000, true));
    // A clock behind the last activity is not idle time.
    assert_eq!(watchdog_tick(0, 10, 5, 0), (0, 10, false));
}

#[test]
fn progress_rendering() {
    assert_eq!(progress_bar(0, 0, 4), "────");
    assert_eq!(progress_bar(1, 2, 4), "━━──");
    assert_eq!(progress_bar(5, 2, 4), "━━━━");
    assert_eq!(progress_bar(1, 3, 4), "━───");
    let mb = 1_048_576u64;
    assert_eq!(
        progress_line(12 * mb, 48 * mb, 65),
        format!("      12/48 MB {}{} 1:05", "━".repeat(6), "─".repeat(18))
    );
    assert_eq!(progress_line(0, 0, 600), format!("      0/0 MB {} 10:00", "─".repeat(24)));
}
