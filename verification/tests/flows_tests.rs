use wordpress_panel::clone::{
    base_slug as clone_base_slug, clone_config, clone_plan, clone_step_done, clone_step_fatal, clone_step_header,
    extract_args, new_clone_config, CloneStep,
};
use wordpress_panel::config::{
    DbService, DbType, GithubConfig, NginxService, PhpService, Services, SiteConfig,
};
use wordpress_panel::docker::{nginx_step, project_containers, NginxStep};
use wordpress_panel::github::{
    build_dirs_from_csv, build_done_line, deploy_plan, DeployStep, build_output_lines, build_start_line, checkout_line, deploy_done_line,
    missing_build_dir_message, not_a_repo_message, PULL_LINE,
};
use wordpress_panel::migrate::{
    chunk_ranges, import_cancel_line, import_restored_line, migration_done, migration_failed,
    migration_finished, migration_header, migration_intro, migration_note, migration_plan,
    query_args, MigrationStep, IMPORT_CHUNK, IMPORT_EPILOGUE, IMPORT_PREAMBLE,
};
use wordpress_panel::wordpress::{
    core_download_url, core_extract_args, core_install_args, core_tarball_name, create_database_command,
    create_plan, create_site_config, language_args, mailpit_muplugin, mu_plugins_dir, new_site_config,
    php_ini_report, project_subdirs, wp_config_create_args, CreateStep, NewSiteRequest,
    DEFAULT_MAILPIT_MUPLUGIN,
};
use wordpress_panel::worktree::{
    add_existing_branch_args, add_failure_message, add_new_branch_args, base_slug, clean_target_path,
    creation_done, creation_failed, creation_intro, creation_plan, delete_branch_args, fix_urls_warning,
    git_args, new_worktree_config, remove_args, step_done, step_header, url_constant_args,
    validate_branch, worktree_config, BranchError, CreationStep, after_step, rollback_plan, RollbackStep,
    StepOutcome,
};

fn parent(ssl: bool) -> SiteConfig {
    SiteConfig {
        id: "p1".into(),
        name: "Tienda".into(),
        path: "/home/u/panel-wp/tienda".into(),
        domain: "tienda.test".into(),
        group: Some("Clientes".into()),
        created_at: "2026-01-01T00:00:00Z".into(),
        services: Services {
            php: PhpService { version: "8.2".into() },
            nginx: NginxService { ssl },
            db: DbService { db_type: DbType::Mariadb, version: "11.4".into(), db_name: "tienda_db".into() },
        },
        github: GithubConfig::default(),
        one_click_admin: true,
        xdebug_enabled: true,
        headless: false,
        frontend_framework: None,
        minio: true,
        migration_pending: false,
        last_migrated_at: None,
        clone_of: None,
        worktree_of: None,
        snapshot_excludes: vec!["big".into()],
    }
}

fn request(one_click: bool, ssl: bool, domain: Option<&str>) -> NewSiteRequest {
    NewSiteRequest {
        name: "Mi Blog".into(),
        domain: domain.map(|d| d.to_string()),
        wp_version: "6.5.3".into(),
        locale: "es_ES".into(),
        php_version: "8.3".into(),
        db_type: DbType::Mysql,
        db_version: "8.0".into(),
        admin_user: "admin".into(),
        admin_password: "secret".into(),
        admin_email: "a@b.c".into(),
        title: "Mi Blog".into(),
        ssl,
        one_click_admin: one_click,
        xdebug: false,
        headless: false,
        frontend_framework: None,
        minio: false,
        group: None,
    }
}

fn strings(v: &[&str]) -> Vec<String> {
    v.iter().map(|s| s.to_string()).collect()
}

#[test]
fn worktree_branch_validation() {
    assert!(matches!(validate_branch("   "), Err(BranchError::Empty)));
    assert_eq!(validate_branch("  feature/x  ").ok().as_deref(), Some("feature/x"));
    let e = validate_branch("git checkout -b feature/x").unwrap_err();
    let msg = e.message();
    assert!(msg.starts_with("«git checkout -b feature/x» no es un nombre de rama válido ("));
    assert!(msg.ends_with("\n¿Quisiste decir «feature/x»?"));
    assert_eq!(BranchError::Empty.message(), "debes indicar el nombre de la rama del worktree");
    assert_eq!(clean_target_path("  /wp-content/themes/t/ "), "wp-content/themes/t");
    assert_eq!(base_slug("tienda", "Feature/Nuevo Menú"), format!("tienda-{}", wordpress_panel::worktree::slugify("Feature/Nuevo Menú")));
}

#[test]
fn worktree_configuration() {
    let p = parent(true);
    let slot = ("tienda-feature-x", "/home/u/panel-wp/tienda-feature-x", "tienda-feature-x.test");
    let s = worktree_config(&p, "p1", "tienda", "wp-content/themes/t", "feature/x", false, slot, "w1", "t0");
    assert_eq!(s.name, "Tienda · feature/x");
    assert_eq!(s.domain, "tienda-feature-x.test");
    assert_eq!(s.group.as_deref(), Some("Clientes"));
    assert_eq!(s.services.db.db_name, "tienda_feature_x_db");
    assert_eq!(s.services.db.db_type, DbType::Mariadb);
    assert!(!s.minio && !s.migration_pending && s.one_click_admin && s.xdebug_enabled);
    let w = s.worktree_of.as_ref().unwrap();
    assert_eq!((w.parent_id.as_str(), w.branch.as_str(), w.shared_db), ("p1", "feature/x", false));
    let shared = worktree_config(&p, "p1", "tienda", "wp-content/themes/t", "feature/x", true, slot, "w1", "t0");
    assert_eq!(shared.services.db.db_name, "tienda_db");
    let fresh = new_worktree_config(&p, "p1", "tienda", "wp-content/themes/t", "feature/x", true, slot).unwrap();
    assert_eq!(fresh.id.len(), 36);
}

#[test]
fn worktree_git_commands() {
    assert_eq!(git_args("/r", &strings(&["status", "--porcelain"])), strings(&["-C", "/r", "status", "--porcelain"]));
    assert_eq!(add_new_branch_args("/d", "feat", None), strings(&["worktree", "add", "-b", "feat", "/d"]));
    assert_eq!(add_new_branch_args("/d", "feat", Some("  ")), strings(&["worktree", "add", "-b", "feat", "/d"]));
    assert_eq!(add_new_branch_args("/d", "feat", Some("main")), strings(&["worktree", "add", "-b", "feat", "/d", "main"]));
    assert_eq!(add_existing_branch_args("/d", "feat"), strings(&["worktree", "add", "/d", "feat"]));
    assert_eq!(add_failure_message(" a \n", "\nb"), "git worktree add falló: a b");
    assert_eq!(remove_args("/d"), strings(&["worktree", "remove", "--force", "/d"]));
    assert_eq!(delete_branch_args("feat"), strings(&["branch", "-D", "feat"]));
    assert_eq!(url_constant_args("WP_HOME", "https://x.test"), strings(&["config", "set", "WP_HOME", "https://x.test", "--type=constant"]));
}

#[test]
fn worktree_creation_flow() {
    assert_eq!(
        creation_plan(true, true),
        vec![CreationStep::PrepareFolder, CreationStep::AddWorktree, CreationStep::ShareDatabase, CreationStep::GenerateCert, CreationStep::Start, CreationStep::WriteWpConfig, CreationStep::PinUrls, CreationStep::Finish]
    );
    assert_eq!(
        creation_plan(false, false),
        vec![CreationStep::PrepareFolder, CreationStep::AddWorktree, CreationStep::CopyDatabase, CreationStep::SkipCert, CreationStep::Start, CreationStep::WriteWpConfig, CreationStep::FixUrls]
    );
    let (a, b) = creation_intro("feat", "Tienda", "wp-content/themes/t", "tienda-feat.test", true);
    assert_eq!(a, "▶ Creando worktree «feat» de «Tienda» (wp-content/themes/t).");
    assert_eq!(b, "  Dominio: tienda-feat.test · BD: compartida con el padre");
    assert_eq!(creation_intro("f", "T", "p", "d", false).1, "  Dominio: d · BD: copia propia");
    assert_eq!(step_header(CreationStep::AddWorktree, "feat", "d.test").as_deref(), Some("[2/7] Creando git worktree → rama «feat»…"));
    assert_eq!(step_header(CreationStep::GenerateCert, "feat", "d.test").as_deref(), Some("[4/7] Generando certificado SSL para d.test…"));
    assert_eq!(step_header(CreationStep::PinUrls, "feat", "d.test"), None);
    assert_eq!(step_header(CreationStep::Finish, "feat", "d.test").as_deref(), Some("[7/7] Listo."));
    assert_eq!(step_done(CreationStep::PrepareFolder).as_deref(), Some("      ✓ Carpeta lista."));
    assert_eq!(step_done(CreationStep::ShareDatabase), None);
    assert_eq!(fix_urls_warning("boom"), "      ⚠ No se pudieron ajustar las URLs (boom); revísalas en el admin.");
    assert_eq!(creation_done("d.test"), "✓ Worktree listo → d.test");
    assert_eq!(
        creation_failed("x"),
        ("✗ Error creando el worktree: x".to_string(), "  Limpiando el worktree a medio crear…".to_string())
    );
}

#[test]
fn clone_configuration() {
    let p = parent(false);
    assert_eq!(clone_base_slug("tienda", "Antes del Update"), "tienda-antes-del-update");
    let slot = ("tienda-antes", "/h/tienda-antes", "tienda-antes.test");
    let c = clone_config(&p, "p1", "tienda", "20260101-101010", "Antes", slot, "c1", "t0");
    assert_eq!(c.name, "Antes");
    assert_eq!(c.services.db.db_name, "tienda_antes_db");
    assert!(!c.services.nginx.ssl);
    let ci = c.clone_of.as_ref().unwrap();
    assert_eq!((ci.parent_id.as_str(), ci.snapshot_id.as_str()), ("p1", "20260101-101010"));
    assert!(c.worktree_of.is_none());
    assert_eq!(new_clone_config(&p, "p1", "tienda", "s", "Antes", slot).unwrap().id.len(), 36);
    assert_eq!(extract_args("/s/code.tar.zst", "/h/tienda-antes/app/public"), strings(&["--zstd", "-xf", "/s/code.tar.zst", "-C", "/h/tienda-antes/app/public"]));
}

#[test]
fn site_creation_config_and_commands() {
    let s = new_site_config(request(true, true, None), "id1", "/h/panel-wp/mi-blog", "t0");
    assert_eq!(s.domain, "mi-blog.test");
    assert_eq!(s.services.db.db_name, "mi_blog_db");
    assert!(s.one_click_admin && s.services.nginx.ssl);
    let s2 = new_site_config(request(false, false, Some("blog.local.test")), "id2", "/x", "t0");
    assert_eq!(s2.domain, "blog.local.test");
    let fresh = create_site_config(request(true, true, None), "/h/panel-wp").unwrap();
    assert_eq!(fresh.path, "/h/panel-wp/mi-blog");
    assert_eq!(fresh.id.len(), 36);

    assert_eq!(
        project_subdirs(&s),
        strings(&[
            "/h/panel-wp/mi-blog/app/public",
            "/h/panel-wp/mi-blog/app/sql",
            "/h/panel-wp/mi-blog/conf/php",
            "/h/panel-wp/mi-blog/logs/php",
            "/h/panel-wp/mi-blog/ssl",
            "/h/panel-wp/mi-blog/data",
        ])
    );
    assert_eq!(core_download_url("6.5.3"), "https://wordpress.org/wordpress-6.5.3.tar.gz");
    assert_eq!(core_tarball_name("6.5.3"), "wp-6.5.3.tar.gz");
    assert_eq!(core_extract_args("/tmp/wp.tgz", "/pub"), strings(&["-xzf", "/tmp/wp.tgz", "--strip-components=1", "-C", "/pub"]));
    assert_eq!(
        create_database_command(&s.services.db),
        strings(&["mysql", "-uroot", "-ppanel", "-e", "CREATE DATABASE IF NOT EXISTS `mi_blog_db` CHARACTER SET utf8mb4 COLLATE utf8mb4_unicode_ci;"])
    );
    let pg = DbService { db_type: DbType::Postgres, version: "16".into(), db_name: "x".into() };
    assert_eq!(create_database_command(&pg), strings(&["psql", "-U", "panel", "-c", "CREATE DATABASE \"x\";"]));
    assert_eq!(
        wp_config_create_args("mi_blog_db", "panel-mysql-80"),
        strings(&["config", "create", "--dbname=mi_blog_db", "--dbuser=root", "--dbpass=panel", "--dbhost=panel-mysql-80", "--skip-check", "--force"])
    );
    assert_eq!(
        core_install_args(&s, &request(true, true, None)),
        strings(&["core", "install", "--url=https://mi-blog.test", "--title=Mi Blog", "--admin_user=admin", "--admin_password=secret", "--admin_email=a@b.c", "--skip-email"])
    );
    assert_eq!(language_args("en_US"), None);
    assert_eq!(language_args("es_ES"), Some(strings(&["language", "core", "install", "es_ES", "--activate"])));
    assert_eq!(mu_plugins_dir(&s), "/h/panel-wp/mi-blog/app/public/wp-content/mu-plugins");
    assert!(mailpit_muplugin(DEFAULT_MAILPIT_MUPLUGIN, "id1").contains("'X-Project-ID', 'id1'"));
    assert_eq!(mailpit_muplugin("a __PROJECT_ID__ b __PROJECT_ID__", "z"), "a z b z");
    assert_eq!(php_ini_report(3, 3, &vec![]), "php.ini actualizado en 3/3 proyectos. Reinicia los que estén encendidos.");
    assert_eq!(php_ini_report(1, 3, &strings(&["a: x", "b: y"])), "php.ini actualizado en 1/3 proyectos.\nErrores:\na: x\nb: y");
}

#[test]
fn site_creation_flow() {
    assert_eq!(
        create_plan(true, true),
        vec![CreateStep::CreateDirs, CreateStep::WritePhpIni, CreateStep::WriteConfig, CreateStep::CreateDatabase, CreateStep::DownloadCore, CreateStep::MailpitMuPlugin, CreateStep::AutologinMuPlugin, CreateStep::GenerateCert, CreateStep::Start, CreateStep::WpConfig, CreateStep::CoreInstall]
    );
    assert_eq!(
        create_plan(false, false),
        vec![CreateStep::CreateDirs, CreateStep::WritePhpIni, CreateStep::WriteConfig, CreateStep::CreateDatabase, CreateStep::DownloadCore, CreateStep::MailpitMuPlugin, CreateStep::Start, CreateStep::WpConfig, CreateStep::CoreInstall]
    );
}

#[test]
fn migration_flow() {
    let s = parent(true);
    assert_eq!(migration_plan(true, true), vec![MigrationStep::PrepareDatabase, MigrationStep::GenerateCert, MigrationStep::Start, MigrationStep::WpConfig, MigrationStep::ImportDump, MigrationStep::FixUrls]);
    assert_eq!(migration_plan(false, false), vec![MigrationStep::PrepareDatabase, MigrationStep::SkipCert, MigrationStep::Start, MigrationStep::WpConfig, MigrationStep::NoDump]);
    assert_eq!(
        migration_intro(&s),
        ("▶ Migrando «Tienda» a este sistema.".to_string(), "  Destino: https://tienda.test".to_string())
    );
    assert_eq!(
        migration_header(MigrationStep::PrepareDatabase, &s, "", 0),
        strings(&["[1/6] Base de datos: arrancando MySQL 11.4 compartido…", "      Creando el esquema «tienda_db» (si no existe)…"])
    );
    assert_eq!(migration_header(MigrationStep::ImportDump, &s, "db-1.sql", 12), strings(&["[5/6] Importando la base de datos (db-1.sql, 12 MB), espera…"]));
    assert_eq!(migration_header(MigrationStep::FixUrls, &parent(false), "", 0), strings(&["[6/6] Ajustando URLs del sitio a http://tienda.test…"]));
    assert_eq!(migration_done(MigrationStep::WpConfig).as_deref(), Some("      ✓ wp-config.php regenerado."));
    assert_eq!(migration_done(MigrationStep::SkipCert), None);
    assert_eq!(migration_note(true), None);
    assert_eq!(migration_note(false).as_deref(), Some("No había dump en app/sql/: el sitio arranca con la base de datos vacía."));
    assert_eq!(migration_finished(&s), "✓ «Tienda» migrado y encendido — https://tienda.test");
    assert_eq!(migration_failed("boom"), "✗ La migración falló: boom");
}

#[test]
fn dump_import_input() {
    assert_eq!(IMPORT_PREAMBLE, "SET autocommit=0;\nSET unique_checks=0;\nSET foreign_key_checks=0;\n");
    assert_eq!(IMPORT_EPILOGUE, "\nCOMMIT;\n");
    assert_eq!(chunk_ranges(0, 4), vec![]);
    assert_eq!(chunk_ranges(10, 4), vec![(0, 4), (4, 8), (8, 10)]);
    assert_eq!(chunk_ranges(8, 4), vec![(0, 4), (4, 8)]);
    assert_eq!(chunk_ranges(3 * IMPORT_CHUNK + 1, IMPORT_CHUNK).len(), 4);
    assert_eq!(query_args("SELECT 1"), strings(&["mysql", "-uroot", "-ppanel", "-N", "-B", "-e", "SELECT 1"]));
    assert_eq!(import_cancel_line(), "      ✗ Import sin avance por 3 min: cancelando y restaurando la DB…");
    assert_eq!(import_restored_line(), "      ✓ DB restaurada (vacía).");
}

#[test]
fn deploy_lines() {
    assert_eq!(not_a_repo_message("wp-content/themes/t"), "wp-content/themes/t no es un repo git");
    assert_eq!(checkout_line("main"), "Cambiando a la rama main…");
    assert_eq!(PULL_LINE, "git pull --ff-only…");
    assert_eq!(missing_build_dir_message("src"), "la carpeta de build «src» no existe en el repo");
    assert_eq!(build_start_line("raíz", "npm run build"), "Ejecutando build en raíz: npm run build");
    assert_eq!(build_output_lines("a\nb\r\n", "warn\n"), strings(&["  a", "  b", "  warn"]));
    assert_eq!(build_output_lines("", ""), Vec::<String>::new());
    assert_eq!(build_output_lines("x", "y"), strings(&["  xy"]));
    assert_eq!(build_done_line("src"), "✓ Build en src completado.");
    assert_eq!(deploy_done_line("wp-content/themes/t"), "✓ Deploy de wp-content/themes/t listo.");
}

#[test]
fn nginx_is_replaced_when_stopped() {
    assert_eq!(nginx_step(true, true), NginxStep::Ready);
    assert_eq!(nginx_step(false, true), NginxStep::Replace);
    assert_eq!(nginx_step(false, false), NginxStep::Create);
}

#[test]
fn widget_build_dirs_csv() {
    assert_eq!(build_dirs_from_csv(" src/ , ,/admin,  "), strings(&["src", "admin"]));
    assert_eq!(build_dirs_from_csv(""), Vec::<String>::new());
}

#[test]
fn containers_of_a_project() {
    let p = parent(true);
    let c: Vec<(String, &str)> = project_containers(&p);
    assert_eq!(
        c,
        vec![
            ("wp-p1".to_string(), "php"),
            ("panel-mariadb-114".to_string(), "db"),
            ("panel-nginx".to_string(), "nginx"),
            ("panel-mailpit".to_string(), "mailpit"),
            ("panel-minio".to_string(), "minio"),
        ]
    );
    let mut q = parent(true);
    q.minio = false;
    assert_eq!(project_containers(&q).len(), 4);
}

#[test]
fn deploy_plan_orders_checkout_pull_and_builds() {
    let dirs = vec!["theme/".to_string(), " blocks ".to_string()];
    assert_eq!(
        deploy_plan("main", Some("npm run build"), &dirs),
        vec![DeployStep::Checkout, DeployStep::Pull, DeployStep::Build(0), DeployStep::Build(1)]
    );
    assert_eq!(deploy_plan("  ", Some("npm run build"), &vec![]), vec![DeployStep::Pull, DeployStep::Build(0)]);
    assert_eq!(deploy_plan("dev", Some("   "), &dirs), vec![DeployStep::Checkout, DeployStep::Pull]);
    assert_eq!(deploy_plan("", None, &dirs), vec![DeployStep::Pull]);
}

#[test]
fn worktree_failures_and_rollback() {
    assert_eq!(after_step(CreationStep::Start, true), StepOutcome::Continue);
    assert_eq!(after_step(CreationStep::FixUrls, false), StepOutcome::Warn);
    assert_eq!(after_step(CreationStep::Start, false), StepOutcome::Abort);
    assert_eq!(after_step(CreationStep::AddWorktree, false), StepOutcome::Abort);
    assert_eq!(
        rollback_plan(),
        vec![RollbackStep::RemoveContainer, RollbackStep::RemoveVhost, RollbackStep::RemoveFolder]
    );
}

#[test]
fn clone_steps_and_lines() {
    let plan = clone_plan(true);
    assert_eq!(plan.len(), 9);
    assert_eq!(plan[0], CloneStep::PrepareFolder);
    assert_eq!(plan[5], CloneStep::GenerateCert);
    assert_eq!(plan[8], CloneStep::FixUrls);
    assert_eq!(clone_plan(false)[5], CloneStep::SkipCert);
    assert!(clone_step_fatal(CloneStep::ImportDatabase));
    assert!(!clone_step_fatal(CloneStep::FixUrls));
    assert_eq!(
        clone_step_header(CloneStep::ImportDatabase, "c.test", 12).as_deref(),
        Some("[4/8] Importando base de datos (12 MB)…")
    );
    assert_eq!(
        clone_step_header(CloneStep::GenerateCert, "c.test", 0).as_deref(),
        Some("[6/8] Generando certificado SSL para c.test…")
    );
    assert_eq!(clone_step_header(CloneStep::FixUrls, "c.test", 0), None);
    assert_eq!(clone_step_done(CloneStep::Start).as_deref(), Some("      ✓ Clone arriba."));
    assert_eq!(clone_step_done(CloneStep::SyncPlugins), None);
}
