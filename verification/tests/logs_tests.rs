use wordpress_panel::cloudflare::extract_url;
use wordpress_panel::dumplog::{clean, DumpLogEntry};
use wordpress_panel::github::summarize;

fn entry(ts: &str, db: &str) -> DumpLogEntry {
    DumpLogEntry {
        timestamp: ts.into(),
        site_id: "s".into(),
        site_name: "S".into(),
        db_name: db.into(),
        file: "/x.sql".into(),
        bytes: 1,
        source: "manual".into(),
    }
}

fn keep_after_clean(all: Vec<DumpLogEntry>, before: Option<&str>, db: Option<&str>) -> Vec<String> {
    let (kept, _) = clean(all, before, db);
    kept.iter().map(|e| format!("{}|{}", e.timestamp, e.db_name)).collect()
}

#[test]
fn finds_url_in_boxed_log() {
    let log = "2024-01-01T00:00:00Z INF |  https://random-word-1234.trycloudflare.com  |\n";
    assert_eq!(extract_url(log), Some("https://random-word-1234.trycloudflare.com".to_string()));
}

#[test]
fn none_when_absent() {
    let log = "2024-01-01T00:00:00Z INF Starting tunnel\n";
    assert_eq!(extract_url(log), None);
}

#[test]
fn clean_por_fecha_borra_anteriores() {
    let all = vec![entry("2026-01-01T00:00:00Z", "a"), entry("2026-06-01T00:00:00Z", "a")];
    let kept = keep_after_clean(all, Some("2026-03-01"), None);
    assert_eq!(kept, vec!["2026-06-01T00:00:00Z|a".to_string()]);
}

#[test]
fn clean_por_db_borra_solo_esa() {
    let all = vec![entry("2026-01-01T00:00:00Z", "a"), entry("2026-01-01T00:00:00Z", "b")];
    let kept = keep_after_clean(all, None, Some("a"));
    assert_eq!(kept, vec!["2026-01-01T00:00:00Z|b".to_string()]);
}

#[test]
fn clean_combinado_es_interseccion() {
    let all = vec![
        entry("2026-01-01T00:00:00Z", "a"),
        entry("2026-01-01T00:00:00Z", "b"),
        entry("2026-09-01T00:00:00Z", "a"),
    ];
    let kept = keep_after_clean(all, Some("2026-03-01"), Some("a"));
    assert_eq!(
        kept,
        vec!["2026-01-01T00:00:00Z|b".to_string(), "2026-09-01T00:00:00Z|a".to_string()]
    );
}

#[test]
fn clean_sin_filtros_borra_todo() {
    let all = vec![entry("2026-01-01T00:00:00Z", "a")];
    let kept = keep_after_clean(all, None, None);
    assert!(kept.is_empty());
}

#[test]
fn clean_counts_removed() {
    let all = vec![entry("2026-01-01T00:00:00Z", "a"), entry("2026-01-02T00:00:00Z", "b")];
    let (kept, removed) = clean(all, None, Some("b"));
    assert_eq!(kept.len(), 1);
    assert_eq!(removed, 1);
}

#[test]
fn summarize_estados() {
    let (ok, _) = summarize(false, 0, 0, false, "origin/main", "boom");
    assert!(!ok);
    let (ok, _) = summarize(true, 0, 3, true, "origin/main", "");
    assert!(!ok);
    let (ok, msg) = summarize(true, 0, 0, false, "origin/main", "");
    assert!(!ok);
    assert!(msg.contains("Al día"));
    let (ok, _) = summarize(true, 0, 2, false, "origin/main", "");
    assert!(ok);
    let (ok, msg) = summarize(true, 1, 2, false, "origin/main", "");
    assert!(ok);
    assert!(msg.contains("merge"));
}
