//! What a session starts with, and whether it starts.

use taski_tui::app::App;
use taski_tui::grouping::{GroupBy, StatusFilter};
use taski_tui::launch::{LockOutcome, Start, acquire_for_combined, acquire_or_refuse};
use taski_tui::session::{Session, Settings, run, run_combined, run_with_db, start};
use taski_tui::theme::{Color, DensityPreset, ThemeConfig, UiConfig};

fn settings() -> Settings {
    Settings {
        db: "./taski.db".to_string(),
        inbox_path: "in.md".to_string(),
        archive_path: "out.md".to_string(),
        obsidian_vault: None,
        vault: Some("/home/me/My Vault".to_string()),
        use_advanced_uri: true,
        theme: None,
        ui: None,
    }
}

#[test]
fn the_override_goes_before_the_configured_database() {
    let s = run(Some("flag.db".to_string()), settings());
    assert_eq!(s.db, "flag.db");
    assert!(!s.announce_quit);
    let s = run_with_db(None, settings());
    assert_eq!(s.db, "./taski.db");
    assert!(!s.announce_quit);
    let s = run_combined(None, settings());
    assert!(s.announce_quit, "a daemon beside the session hears of the end");
}

#[test]
fn the_vault_name_is_the_override_or_the_folder() {
    assert_eq!(run(None, settings()).vault_name.as_deref(), Some("My Vault"));
    let named = Settings { obsidian_vault: Some("Work".to_string()), ..settings() };
    assert_eq!(run(None, named).vault_name.as_deref(), Some("Work"));
    let none = Settings { vault: None, ..settings() };
    assert_eq!(run(None, none).vault_name, None);
}

#[test]
fn theme_and_layout_are_resolved() {
    let s = run(
        None,
        Settings {
            theme: Some(ThemeConfig {
                accent: Some("#ff6600".to_string()),
                muted: Some("no such colour".to_string()),
                ..ThemeConfig::default()
            }),
            ui: Some(UiConfig {
                list_pane_percent: Some(95),
                list_density: Some(DensityPreset::Spacious),
                context_wrap: Some(true),
            }),
            ..settings()
        },
    );
    assert_eq!(s.theme.accent, Color::Rgb(255, 102, 0));
    assert_eq!(s.theme.muted, Color::DarkGray, "a bad value falls back alone");
    assert_eq!(s.layout.list_pane_percent, 80);
    assert_eq!(s.layout.list_density, 2);
    assert!(s.layout.context_wrap);
}

#[test]
fn a_session_starts_folded_and_open_only() {
    let s: Session = run(None, settings());
    let app: App = start(s, "2026-06-20".to_string());
    assert_eq!(app.inbox_path, "in.md");
    assert_eq!(app.archive_path, "out.md");
    assert_eq!(app.vault_name.as_deref(), Some("My Vault"));
    assert!(app.use_advanced_uri);
    assert_eq!(app.today, "2026-06-20");
    assert_eq!(app.filter, StatusFilter::Open);
    assert_eq!(app.group_by, GroupBy::FolderNote);
    assert!(app.expanded.is_empty());
    assert!(app.rows.is_empty());
    assert_eq!(app.state.selected(), None);
}

#[test]
fn a_second_daemon_is_refused() {
    assert!(matches!(acquire_or_refuse(LockOutcome::Acquired), Start::Go));
    assert!(matches!(acquire_for_combined(LockOutcome::Acquired), Start::Go));
    match acquire_or_refuse(LockOutcome::HeldByOther(Some(4711))) {
        Start::Refuse { message, error } => {
            assert_eq!(
                message,
                "taski: a daemon is already running (PID 4711). Refusing to start a second writer (ADR-0008)."
            );
            assert_eq!(error.as_deref(), Some("daemon already running"));
        }
        Start::Go | Start::Attach => panic!("a second writer must not start"),
    }
    match acquire_or_refuse(LockOutcome::HeldByOther(None)) {
        Start::Refuse { message, .. } => {
            assert_eq!(
                message,
                "taski: a daemon is already running. Refusing to start a second writer (ADR-0008)."
            );
        }
        Start::Go | Start::Attach => panic!("a second writer must not start"),
    }
    for pid in [None, Some(4711)] {
        assert!(
            matches!(acquire_for_combined(LockOutcome::HeldByOther(pid)), Start::Attach),
            "the browser attaches to the daemon that runs"
        );
    }
}
