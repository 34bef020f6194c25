use wordpress_panel::backup::{
    db_not_running_message, dump_changed, dump_path, dumps_to_remove, empty_dump_message,
    is_rotating_dump, mysqldump_args, new_dump_path, newest_rotating_dump, seed_hash, write_counter_command,
    write_counter_sum, writes_gate,
};
use wordpress_panel::config::{
    DbService, DbType, GithubConfig, NginxService, PhpService, Services, SiteConfig,
};

fn site_en(path: &str) -> SiteConfig {
    SiteConfig {
        id: "test".into(),
        name: "Test".into(),
        path: path.into(),
        domain: "test.test".into(),
        group: None,
        created_at: "2026-01-01T00:00:00Z".into(),
        services: Services {
            php: PhpService { version: "8.3".into() },
            nginx: NginxService { ssl: true },
            db: DbService { db_type: DbType::Mysql, version: "8.0".into(), db_name: "test".into() },
        },
        github: GithubConfig::default(),
        one_click_admin: true,
        xdebug_enabled: false,
        headless: false,
        frontend_framework: None,
        minio: false,
        migration_pending: false,
        last_migrated_at: None,
        clone_of: None,
        worktree_of: None,
        snapshot_excludes: vec![],
    }
}

/// A directory listing entry: (path, file name, modification time).
fn entry(dir: &str, name: &str, mtime: u128) -> (String, String, u128) {
    (format!("{dir}/{name}"), name.to_string(), mtime)
}

/// The file names left after removing what rotation picks, sorted.
fn left_after_rotation(entries: &Vec<(String, String, u128)>, keep: usize) -> Vec<String> {
    let removed = dumps_to_remove(entries, keep);
    let mut left: Vec<String> =
        entries.iter().filter(|e| !removed.contains(&e.0)).map(|e| e.1.clone()).collect();
    left.sort();
    left
}

#[test]
fn rotate_conserva_los_n_mas_recientes_e_ignora_ruido() {
    let site = site_en("/tmp/t");
    let sql = site.sql_dir();
    let base: u128 = 1_700_000_000;
    let mut entries = Vec::new();
    for i in 1..=5u128 {
        entries.push(entry(&sql, &format!("db-{i}.sql"), base + i * 10));
    }
    entries.push(entry(&sql, "imported.sql", base + 1));
    entries.push(entry(&sql, "local.sql", base + 1));

    assert_eq!(
        left_after_rotation(&entries, 3),
        vec![
            "db-3.sql".to_string(),
            "db-4.sql".to_string(),
            "db-5.sql".to_string(),
            "imported.sql".to_string(),
            "local.sql".to_string(),
        ]
    );
}

#[test]
fn rotate_no_borra_si_hay_menos_o_igual_que_keep() {
    let site = site_en("/tmp/t");
    let sql = site.sql_dir();
    let base: u128 = 1_700_000_000;
    let entries = vec![entry(&sql, "db-1.sql", base + 10), entry(&sql, "db-2.sql", base + 20)];
    assert!(dumps_to_remove(&entries, 3).is_empty());
    assert_eq!(left_after_rotation(&entries, 3).len(), 2);
}

#[test]
fn rotation_removes_oldest_first() {
    let entries = vec![
        entry("/s", "db-b.sql", 30),
        entry("/s", "db-a.sql", 10),
        entry("/s", "db-c.sql", 20),
        entry("/s", "notes.txt", 0),
    ];
    assert_eq!(dumps_to_remove(&entries, 1), vec!["/s/db-c.sql".to_string(), "/s/db-a.sql".to_string()]);
    assert_eq!(dumps_to_remove(&entries, 0).len(), 3);
    assert_eq!(newest_rotating_dump(&entries), Some("/s/db-b.sql".to_string()));
    assert_eq!(newest_rotating_dump(&vec![entry("/s", "imported.sql", 9)]), None);
    // Equal times: the later entry is taken as the newest.
    let tie = vec![entry("/s", "db-1.sql", 5), entry("/s", "db-2.sql", 5)];
    assert_eq!(newest_rotating_dump(&tie), Some("/s/db-2.sql".to_string()));
}

#[test]
fn rotating_names() {
    assert!(is_rotating_dump("db-20260101-101010.sql"));
    assert!(!is_rotating_dump("imported.sql"));
    assert!(!is_rotating_dump("db-1.sql.gz"));
    assert!(!is_rotating_dump("xdb-1.sql"));
}

#[test]
fn dump_command_and_messages() {
    assert_eq!(
        mysqldump_args("shop"),
        vec!["mysqldump", "-uroot", "-ppanel", "--single-transaction", "--no-tablespaces", "--skip-dump-date", "shop"]
    );
    assert_eq!(db_not_running_message("Shop"), "la base de datos 'Shop' no está encendida");
    assert_eq!(empty_dump_message("shop"), "mysqldump no produjo salida para shop");
    assert_eq!(dump_path(&site_en("/p/shop"), "20260101-101010"), "/p/shop/app/sql/db-20260101-101010.sql");
}

#[test]
fn write_counter_parsing() {
    let cmd = write_counter_command();
    assert_eq!(cmd.len(), 7);
    assert!(cmd[6].starts_with("SHOW GLOBAL STATUS"));
    let out = "mysql: [Warning] Using a password on the command line interface can be insecure.\n\
               Innodb_rows_deleted\t3\nInnodb_rows_inserted\t100\nInnodb_rows_updated\t7\n";
    assert_eq!(write_counter_sum(out), Some(110));
    assert_eq!(write_counter_sum("nothing here\n"), None);
    assert_eq!(write_counter_sum(""), None);
    let big = format!("Innodb_rows_inserted {}\nInnodb_rows_updated 5\n", u64::MAX);
    assert_eq!(write_counter_sum(&big), Some(u64::MAX));
}

#[test]
fn watcher_gate() {
    assert_eq!(writes_gate(Some(5), Some(5)), (false, Some(5)));
    assert_eq!(writes_gate(Some(5), Some(6)), (true, Some(6)));
    assert_eq!(writes_gate(None, Some(6)), (true, Some(6)));
    assert_eq!(writes_gate(Some(5), None), (true, Some(5)));
}

#[test]
fn dump_change_detection() {
    let a = b"CREATE TABLE a;".to_vec();
    let b = b"CREATE TABLE b;".to_vec();
    let (changed, ha) = dump_changed(None, &a);
    assert!(changed);
    let (changed, ha2) = dump_changed(Some(ha), &a);
    assert!(!changed);
    assert_eq!(ha, ha2);
    let (changed, hb) = dump_changed(Some(ha), &b);
    assert!(changed);
    assert_ne!(ha, hb);
    assert_eq!(seed_hash(Some(&a)), Some(ha));
    assert_eq!(seed_hash(None), None);
}

#[test]
fn a_new_dump_is_named_after_the_current_utc_time() {
    let p = new_dump_path(&site_en("/p/x")).unwrap();
    let stamp = p.strip_prefix("/p/x/app/sql/db-").unwrap().strip_suffix(".sql").unwrap();
    assert_eq!(stamp.len(), 15);
    for (i, c) in stamp.chars().enumerate() {
        if i == 8 {
            assert_eq!(c, '-');
        } else {
            assert!(c.is_ascii_digit());
        }
    }
    assert!(stamp >= "20240101-000000");
}
