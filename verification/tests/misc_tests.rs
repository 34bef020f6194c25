use wordpress_panel::backup::{has_write_counter, KEEP_DUMPS, WATCH_POLL_SECS};
use wordpress_panel::clock::{now_log_time, now_rfc3339, now_stamp};
use wordpress_panel::dumplog::{dump_log_entry, new_dump_log_entry};
use wordpress_panel::ids::{new_token, new_uuid};
use wordpress_panel::wordpress::drop_database_command;
use wordpress_panel::snapshot::{known_backup, known_backup_dirs};
use wordpress_panel::autologin::{admin_login, new_admin_login};
use wordpress_panel::cli::{install_report, on_path, scripts_dir};
use wordpress_panel::config::{
    DbService, DbType, GithubConfig, NginxService, PhpService, Services, SiteConfig,
};
use wordpress_panel::logs::{event_name, TAIL_LINES};
use wordpress_panel::php::{build_args, build_failure, image_tag, wp_cli_path, WP_CLI_URL};
use wordpress_panel::places::{
    config_dir, config_dir_in, local_bin_in, localwp_sites_json_in, plasmoid_dir_in,
    projects_root, projects_root_in,
};
use wordpress_panel::progress::{live_line, EVENT};
use wordpress_panel::ssl::{cert_path, key_path, mkcert_args, mkcert_failure, ssl_dir};
use wordpress_panel::system::{ca_root_file, feature_stub_message};
use wordpress_panel::wpcli::{not_running_message, timeout_message, wp_command, WPCLI_TIMEOUT_SECS};

fn site() -> SiteConfig {
    SiteConfig {
        id: "s".into(),
        name: "Site".into(),
        path: "/p/site".into(),
        domain: "site.test".into(),
        group: None,
        created_at: "2026-01-01T00:00:00Z".into(),
        services: Services {
            php: PhpService { version: "8.3".into() },
            nginx: NginxService { ssl: true },
            db: DbService { db_type: DbType::Mysql, version: "8.0".into(), db_name: "site_db".into() },
        },
        github: GithubConfig::default(),
        one_click_admin: true,
        xdebug_enabled: false,
        headless: false,
        frontend_framework: None,
        minio: false,
        migration_pending: false,
        last_migrated_at: None,
        clone_of: None,
        worktree_of: None,
        snapshot_excludes: vec![],
    }
}

fn strings(v: &[&str]) -> Vec<String> {
    v.iter().map(|s| s.to_string()).collect()
}

#[test]
fn certificate_files() {
    let s = site();
    assert_eq!(ssl_dir(&s), "/p/site/ssl");
    assert_eq!(cert_path(&s), "/p/site/ssl/cert.pem");
    assert_eq!(key_path(&s), "/p/site/ssl/key.pem");
    assert_eq!(
        mkcert_args(&s),
        strings(&["-cert-file", "/p/site/ssl/cert.pem", "-key-file", "/p/site/ssl/key.pem", "site.test"])
    );
    assert_eq!(mkcert_failure(&s), "mkcert falló para el dominio site.test");
}

#[test]
fn php_image() {
    assert_eq!(image_tag("8.3"), "panel-php:8.3");
    assert_eq!(
        build_args("panel-php:8.3", "8.3", "/app/docker"),
        strings(&["build", "-t", "panel-php:8.3", "--build-arg", "PHP_VERSION=8.3", "/app/docker/php"])
    );
    assert_eq!(build_failure("panel-php:8.3"), "docker build falló para panel-php:8.3");
    assert_eq!(wp_cli_path("/c"), "/c/wp-cli.phar");
    assert!(WP_CLI_URL.ends_with("/wp-cli.phar"));
}

#[test]
fn wp_cli_commands() {
    assert_eq!(
        wp_command(&strings(&["plugin", "list", "--format=json"])),
        strings(&["php", "/usr/local/bin/wp", "--path=/var/www/html", "plugin", "list", "--format=json"])
    );
    assert_eq!(not_running_message("Site"), "el proyecto 'Site' no está encendido");
    assert!(timeout_message("Site").starts_with("WP-CLI excedió 120s en 'Site'"));
    assert_eq!(WPCLI_TIMEOUT_SECS, 120);
}

#[test]
fn progress_and_logs_events() {
    assert_eq!(EVENT, "op-log");
    assert_eq!(live_line("50%"), "\u{1}50%");
    assert_eq!(event_name("abc"), "log:abc");
    assert_eq!(TAIL_LINES, "200");
}

#[test]
fn helper_scripts() {
    assert_eq!(scripts_dir("/src/src-tauri"), "/src/src-tauri/../scripts");
    assert!(on_path("/usr/bin:/home/u/.local/bin/:/bin", "/home/u/.local/bin"));
    assert!(!on_path("/usr/bin:/bin", "/home/u/.local/bin"));
    assert!(!on_path("", "/home/u/.local/bin"));
    assert_eq!(
        install_report("/h/.local/bin/wp", "/h/.local/bin/wordpress-panel-cli", "/h/.local/bin", true),
        "Instalado:\n  /h/.local/bin/wp\n  /h/.local/bin/wordpress-panel-cli\nUsa `wp <args>` dentro de la carpeta de un proyecto."
    );
    assert!(install_report("a", "b", "/h/.local/bin", false)
        .ends_with("\n\n⚠ /h/.local/bin no está en tu PATH. Añádelo a tu shell:\n  export PATH=\"$HOME/.local/bin:$PATH\""));
}

#[test]
fn admin_login_urls() {
    let (args, url) = admin_login("https://site.test", true, "abc123", Some(7));
    assert_eq!(args, Some(strings(&["transient", "set", "panel_autologin_abc123", "7", "60"])));
    assert_eq!(url, "https://site.test/?panel_autologin=abc123");
    let (args, url) = admin_login("https://site.test", true, "t", None);
    assert_eq!(args.unwrap()[3], "0");
    assert_eq!(url, "https://site.test/?panel_autologin=t");
    let (args, url) = admin_login("http://site.test", false, "t", None);
    assert_eq!(args, None);
    assert_eq!(url, "http://site.test/wp-admin/");
    // A fresh token each time: 32 lowercase hex digits.
    let (a1, u1) = new_admin_login("https://site.test", true, None).unwrap();
    let (_, u2) = new_admin_login("https://site.test", true, None).unwrap();
    let token = u1.trim_start_matches("https://site.test/?panel_autologin=");
    assert_eq!(token.len(), 32);
    assert!(token.chars().all(|c| c.is_ascii_hexdigit() && !c.is_ascii_uppercase()));
    assert_eq!(a1.unwrap()[2], format!("panel_autologin_{token}"));
    assert_ne!(u1, u2);
}

#[test]
fn setup_checks() {
    assert_eq!(ca_root_file(true, "/home/u/.local/share/mkcert\n").as_deref(), Some("/home/u/.local/share/mkcert/rootCA.pem"));
    assert_eq!(ca_root_file(true, "  \n"), None);
    assert_eq!(ca_root_file(false, "/x"), None);
    assert_eq!(feature_stub_message("cloudflare"), "Cloudflare Tunnel: aún no implementado. Planificado para una fase posterior.");
    assert_eq!(feature_stub_message("deploy"), "Deploy: aún no implementado. Planificado para una fase posterior.");
    assert_eq!(feature_stub_message("package"), "Empaquetado del sitio: aún no implementado. Planificado para una fase posterior.");
    assert_eq!(feature_stub_message("otra"), "otra: aún no implementado. Planificado para una fase posterior.");
}

#[test]
fn panel_places() {
    assert_eq!(config_dir_in("/home/u/.config"), "/home/u/.config/wordpress-panel");
    assert_eq!(projects_root_in("/home/u"), "/home/u/panel-wp");
    assert_eq!(local_bin_in("/home/u"), "/home/u/.local/bin");
    assert_eq!(localwp_sites_json_in("/home/u/.config"), "/home/u/.config/Local/sites.json");
    assert!(plasmoid_dir_in("/home/u/.local/share").starts_with("/home/u/.local/share/plasma/plasmoids/"));
    // With a home folder, the derived places end as documented.
    if let Some(root) = projects_root() {
        assert!(root.ends_with("/panel-wp"));
    }
    if let Some(dir) = config_dir() {
        assert!(dir.ends_with("/wordpress-panel"));
    }
}

#[test]
fn database_drop_and_write_counter() {
    let my = DbService { db_type: DbType::Mariadb, version: "11".into(), db_name: "shop".into() };
    assert_eq!(drop_database_command(&my), strings(&["mysql", "-uroot", "-ppanel", "-e", "DROP DATABASE IF EXISTS `shop`;"]));
    let pg = DbService { db_type: DbType::Postgres, version: "16".into(), db_name: "shop".into() };
    assert_eq!(drop_database_command(&pg), strings(&["psql", "-U", "panel", "-c", "DROP DATABASE IF EXISTS \"shop\";"]));
    assert!(has_write_counter(DbType::Mysql));
    assert!(has_write_counter(DbType::Mariadb));
    assert!(!has_write_counter(DbType::Postgres));
    assert_eq!((KEEP_DUMPS, WATCH_POLL_SECS), (3, 20));
}

#[test]
fn known_backup_folder_list() {
    let dirs = known_backup_dirs();
    assert_eq!(dirs.len(), 7);
    assert_eq!(dirs[0], "wp-content/updraft");
    assert_eq!(dirs[6], "wp-snapshots");
    assert!(dirs.iter().all(|d| known_backup(d).0));
}

#[test]
fn clock_and_id_texts() {
    let t = now_log_time().unwrap();
    assert_eq!(t.len(), 20);
    assert_eq!((&t[4..5], &t[7..8], &t[10..11], &t[13..14], &t[16..17], &t[19..20]), ("-", "-", "T", ":", ":", "Z"));
    assert!(t.as_str() >= "2024-01-01T00:00:00Z");
    let r = now_rfc3339().unwrap();
    assert!(r.ends_with("+00:00") && &r[10..11] == "T");
    let st = now_stamp().unwrap();
    assert_eq!(st.len(), 15);
    assert_eq!(&st[8..9], "-");
    let u = new_uuid().unwrap();
    assert_eq!(u.len(), 36);
    assert_eq!(&u[14..15], "4");
    assert_ne!(u, new_uuid().unwrap());
    let k = new_token().unwrap();
    assert_eq!(k.len(), 32);
    assert!(k.chars().all(|c| c.is_ascii_hexdigit() && !c.is_ascii_uppercase()));
}

#[test]
fn dump_log_entries() {
    let s = site();
    let e = dump_log_entry("2026-01-02T03:04:05Z", &s, "/p/app/sql/db-1.sql", 42, "stop");
    assert_eq!(e.timestamp, "2026-01-02T03:04:05Z");
    assert_eq!((e.site_id.as_str(), e.site_name.as_str()), (s.id.as_str(), s.name.as_str()));
    assert_eq!(e.db_name, s.services.db.db_name);
    assert_eq!((e.file.as_str(), e.bytes, e.source.as_str()), ("/p/app/sql/db-1.sql", 42, "stop"));
    let n = new_dump_log_entry(&s, "/f.sql", 1, "auto").unwrap();
    assert_eq!(n.timestamp.len(), 20);
    assert!(n.timestamp.ends_with('Z'));
    assert_eq!(n.source, "auto");
}
