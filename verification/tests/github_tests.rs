use wordpress_panel::config::{
    DbService, DbType, GithubConfig, GithubRepo, NginxService, PhpService, Services, SiteConfig,
};
use wordpress_panel::github::{
    branch_status_from, build_command, build_dir_candidates, build_failure, build_label,
    build_subdirs, build_workdir, check_removable, checkout_failure, clone_args,
    clone_target_path, compared_branches, deploy_header, deploy_pull_args, dest_abs,
    detected_repos, editor_candidates, gh_status, git_answer, parse_ahead_behind, parse_user,
    propose_path, pull_all_report, pull_args, pull_failure, register_repo, repo_meta,
    rev_list_args, set_deploy, summarize, unregister_repo, workspace_file, workspace_folders,
    FoundRepo,
};

fn site() -> SiteConfig {
    SiteConfig {
        id: "g1".into(),
        name: "Mi Web!".into(),
        path: "/p/mi-web".into(),
        domain: "mi-web.test".into(),
        group: None,
        created_at: "2026-01-01T00:00:00Z".into(),
        services: Services {
            php: PhpService { version: "8.3".into() },
            nginx: NginxService { ssl: true },
            db: DbService { db_type: DbType::Mysql, version: "8.0".into(), db_name: "w".into() },
        },
        github: GithubConfig::default(),
        one_click_admin: false,
        xdebug_enabled: false,
        headless: false,
        frontend_framework: None,
        minio: false,
        migration_pending: false,
        last_migrated_at: None,
        clone_of: None,
        worktree_of: None,
        snapshot_excludes: vec![],
    }
}

fn repo(name: &str, path: &str) -> GithubRepo {
    GithubRepo { repo: name.into(), branch: "main".into(), path: path.into(), build_cmd: None, build_dirs: vec![] }
}

fn strings(v: &[&str]) -> Vec<String> {
    v.iter().map(|s| s.to_string()).collect()
}

#[test]
fn gh_user_and_status() {
    assert_eq!(parse_user("  ✓ Logged in to github.com account octo (keyring)\n").as_deref(), Some("octo"));
    assert_eq!(parse_user("Logged in to github.com as hubot (oauth)").as_deref(), Some("hubot"));
    assert_eq!(parse_user("You are not logged into any GitHub hosts."), None);
    let st = gh_status(true, true, "Logged in to github.com account octo (keyring)");
    assert!(st.installed && st.authenticated);
    assert_eq!(st.user.as_deref(), Some("octo"));
    let st = gh_status(true, false, "account octo");
    assert!(st.installed && !st.authenticated && st.user.is_none());
    let st = gh_status(false, true, "account octo");
    assert!(!st.installed && !st.authenticated && st.user.is_none());
}

#[test]
fn clone_and_pull_arguments() {
    assert_eq!(clone_args("me/theme", "/p/x", ""), strings(&["repo", "clone", "me/theme", "/p/x"]));
    assert_eq!(clone_args("me/theme", "/p/x", "dev"), strings(&["repo", "clone", "me/theme", "/p/x", "--", "-b", "dev"]));
    assert_eq!(pull_args("/p/x", ""), strings(&["-C", "/p/x", "pull"]));
    assert_eq!(pull_args("/p/x", "main"), strings(&["-C", "/p/x", "pull", "origin", "main"]));
    assert_eq!(deploy_pull_args(""), strings(&["pull", "--ff-only"]));
    assert_eq!(deploy_pull_args("main"), strings(&["pull", "--ff-only", "origin", "main"]));
    assert_eq!(rev_list_args("main"), strings(&["rev-list", "--left-right", "--count", "HEAD...origin/main"]));
}

#[test]
fn paths_of_repos() {
    assert_eq!(propose_path("theme", "me/cool-theme.git"), "wp-content/themes/cool-theme");
    assert_eq!(propose_path("muplugin", "https://github.com/me/x"), "wp-content/mu-plugins/x");
    assert_eq!(propose_path("other", "plug"), "wp-content/plugins/plug");
    assert_eq!(clone_target_path(Some("  "), "plugin", "me/p"), "wp-content/plugins/p");
    assert_eq!(clone_target_path(Some("custom/dir"), "plugin", "me/p"), "custom/dir");
    assert_eq!(clone_target_path(None, "theme", "me/t"), "wp-content/themes/t");
    assert_eq!(dest_abs(&site(), "wp-content/themes/t"), "/p/mi-web/app/public/wp-content/themes/t");
}

#[test]
fn branch_state() {
    assert_eq!(compared_branches(Some("feature"), "  "), ("feature".to_string(), "feature".to_string()));
    assert_eq!(compared_branches(None, " main "), ("HEAD".to_string(), "main".to_string()));
    assert_eq!(parse_ahead_behind("2\t5\n"), (2, 5));
    assert_eq!(parse_ahead_behind("x"), (0, 0));

    let st = branch_status_from("main".into(), "main".into(), "", "", true, "1\t3");
    assert!(st.has_remote && !st.dirty && st.can_pull);
    assert_eq!((st.ahead, st.behind), (1, 3));
    assert_eq!(
        st.message,
        "3 commit(s) por traer, puedes hacer pull (ojo: 1 commit(s) local(es) por delante, el pull hará merge)."
    );
    let st = branch_status_from("main".into(), "dev".into(), " fatal: couldn't find remote ref dev\n", "", false, "");
    assert!(!st.has_remote && !st.can_pull);
    assert_eq!(st.message, "No existe origin/dev o falló el fetch: fatal: couldn't find remote ref dev");
    let st = branch_status_from("main".into(), "main".into(), "", " M style.css\n", true, "0\t2");
    assert!(st.dirty && !st.can_pull);
    assert_eq!(st.message, "Hay cambios locales sin commitear: haz pull desde el editor para resolverlos.");
    assert_eq!(summarize(true, 0, 0, false, "origin/main", "").1, "Al día con el remoto — no hay nada que traer.");
}

#[test]
fn deploy_messages_and_build() {
    assert_eq!(deploy_header("wp-content/themes/t", "main"), "▶ Deploy de wp-content/themes/t (rama main)…");
    assert_eq!(deploy_header("wp-content/themes/t", ""), "▶ Deploy de wp-content/themes/t…");
    assert_eq!(checkout_failure("dev", " error: x \n"), "no se pudo hacer checkout de «dev» (¿cambios sin commitear?):\nerror: x");
    assert_eq!(
        pull_failure("fatal: Not possible to fast-forward\n"),
        "git pull --ff-only falló (la rama diverge del remoto): resuélvelo desde el editor.\nfatal: Not possible to fast-forward"
    );
    assert_eq!(build_command(Some("  npm run build ")).as_deref(), Some("npm run build"));
    assert_eq!(build_command(Some("   ")), None);
    assert_eq!(build_command(None), None);
    assert_eq!(build_label(""), "raíz");
    assert_eq!(build_label("blocks"), "blocks");
    assert_eq!(build_workdir("/r", ""), "/r");
    assert_eq!(build_workdir("/r", "blocks"), "/r/blocks");
    assert_eq!(build_failure("raíz", Some(2)), "el build falló en «raíz» (código Some(2)); revisa la salida y abre el editor.");
    assert_eq!(build_failure("x", None), "el build falló en «x» (código None); revisa la salida y abre el editor.");
    assert_eq!(build_subdirs(&vec![]), strings(&[""]));
    assert_eq!(build_subdirs(&strings(&[" /blocks/ ", "admin"])), strings(&["blocks", "admin"]));
    let dirs = vec![
        ("zeta".to_string(), true),
        ("node_modules".to_string(), true),
        ("vendor".to_string(), true),
        ("alpha".to_string(), true),
        ("docs".to_string(), false),
    ];
    assert_eq!(build_dir_candidates(true, &dirs), strings(&["", "alpha", "zeta"]));
    assert_eq!(build_dir_candidates(false, &vec![]), Vec::<String>::new());
}

#[test]
fn repos_found_on_disk() {
    let found = vec![
        FoundRepo { path: "wp-content/themes/t".into(), name: "t".into(), remote: Some("git@github.com:me/t.git".into()), branch: Some("main".into()) },
        FoundRepo { path: "wp-content/plugins/a".into(), name: "a".into(), remote: None, branch: None },
    ];
    let out = detected_repos(found, &vec![repo("me/t", "wp-content/themes/t")]);
    assert_eq!(out.len(), 2);
    assert_eq!(out[0].path, "wp-content/plugins/a");
    assert!(!out[0].registered);
    assert_eq!(out[1].path, "wp-content/themes/t");
    assert!(out[1].registered);
    assert_eq!(repo_meta(None, None), (String::new(), "main".to_string()));
    assert_eq!(repo_meta(Some("u".into()), Some("dev".into())), ("u".to_string(), "dev".to_string()));
    assert_eq!(git_answer(true, " main\n").as_deref(), Some("main"));
    assert_eq!(git_answer(true, "  \n"), None);
    assert_eq!(git_answer(false, "main"), None);
}

#[test]
fn editor_workspace() {
    assert_eq!(editor_candidates(), vec!["code", "codium", "code-insiders", "vscodium"]);
    let s = site();
    assert_eq!(workspace_file(&s), "/p/mi-web/Mi-Web-.code-workspace");
    let found = detected_repos(
        vec![FoundRepo { path: "wp-content/themes/t".into(), name: "t".into(), remote: None, branch: None }],
        &vec![],
    );
    let folders = workspace_folders(&s, &found);
    assert_eq!(
        folders,
        vec![
            ("Mi Web! (public)".to_string(), "app/public".to_string()),
            ("t".to_string(), "app/public/wp-content/themes/t".to_string()),
        ]
    );
}

#[test]
fn removal_stays_inside_wp_content() {
    let wp = "/p/mi-web/app/public/wp-content";
    assert_eq!(check_removable("/p/mi-web/app/public/wp-content/plugins/x", wp, "wp-content/plugins/x"), Ok(()));
    assert_eq!(
        check_removable("/p/mi-web/app/public/wp-content-evil/x", wp, "../x"),
        Err("ruta fuera de wp-content, no se borra: ../x".to_string())
    );
    assert_eq!(
        check_removable("/etc", wp, "../../../../etc"),
        Err("ruta fuera de wp-content, no se borra: ../../../../etc".to_string())
    );
}

#[test]
fn registering_and_deploy_settings() {
    let mut repos = vec![repo("me/a", "wp-content/plugins/a")];
    assert!(register_repo(&mut repos, "me/t".into(), "dev".into(), "wp-content/themes/t".into()));
    assert!(!register_repo(&mut repos, "other/t".into(), "x".into(), "wp-content/themes/t".into()));
    assert_eq!(repos.len(), 2);
    assert_eq!(repos[1].repo, "me/t");

    assert_eq!(
        set_deploy(&mut repos, "wp-content/nope", "main", None, &vec![]),
        Err("el repo no está registrado; regístralo primero".to_string())
    );
    set_deploy(&mut repos, "wp-content/themes/t", " release ", Some(" npm ci && npm run build "), &strings(&[" /blocks/ "])).unwrap();
    assert_eq!(repos[1].branch, "release");
    assert_eq!(repos[1].build_cmd.as_deref(), Some("npm ci && npm run build"));
    assert_eq!(repos[1].build_dirs, strings(&["blocks"]));
    set_deploy(&mut repos, "wp-content/themes/t", "  ", Some(""), &vec![]).unwrap();
    assert_eq!(repos[1].branch, "release");
    assert_eq!(repos[1].build_cmd, None);

    unregister_repo(&mut repos, "wp-content/plugins/a");
    assert_eq!(repos.len(), 1);
    assert_eq!(repos[0].path, "wp-content/themes/t");
}

#[test]
fn pull_all_report_text() {
    assert_eq!(pull_all_report(&vec![]), "No hay repos registrados.");
    let results = vec![
        ("wp-content/themes/t".to_string(), "me/t".to_string(), "Already up to date.".to_string()),
        ("wp-content/plugins/a".to_string(), "me/a".to_string(), "ERROR: boom".to_string()),
    ];
    assert_eq!(
        pull_all_report(&results),
        "== wp-content/themes/t (me/t) ==\nAlready up to date.\n== wp-content/plugins/a (me/a) ==\nERROR: boom\n"
    );
}
