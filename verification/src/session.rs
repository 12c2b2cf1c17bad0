//! What a session of the browser is started with.

use vstd::prelude::*;
use crate::app::{App, initial};
use crate::model::AppView;
use crate::paths::{base_name, base_name_of};
use crate::task::opt_text;
use crate::theme::{LayoutPrefs, Theme, ThemeConfig, UiConfig, default_prefs, default_theme,
    prefs_of, theme_of};

verus! {

/// The configuration a session is started from.
#[derive(Debug)]
pub struct Settings {
    /// The index the configuration names, or its default.
    pub db: String,
    /// The note quick-add writes to.
    pub inbox_path: String,
    /// The note completed tasks are archived to.
    pub archive_path: String,
    /// The vault name that overrides the one derived from `vault`.
    pub obsidian_vault: Option<String>,
    /// The path of the vault, where one is configured.
    pub vault: Option<String>,
    /// Whether links jump to the task's line.
    pub use_advanced_uri: bool,
    pub theme: Option<ThemeConfig>,
    pub ui: Option<UiConfig>,
}

/// A session ready to run.
#[derive(Debug)]
pub struct Session {
    /// The index to read.
    pub db: String,
    pub inbox_path: String,
    pub archive_path: String,
    /// The vault name links are built with; without one, links are off.
    pub vault_name: Option<String>,
    pub use_advanced_uri: bool,
    pub theme: Theme,
    pub layout: LayoutPrefs,
    /// Whether quitting is announced to a daemon that runs beside the session.
    pub announce_quit: bool,
}

/// The vault name: the override, else the last component of the vault's path.
pub open spec fn vault_name_of(obsidian_vault: Option<String>, vault: Option<String>) -> Option<
    Seq<char>,
> {
    match (obsidian_vault, vault) {
        (Some(name), _) => Some(name@),
        (None, Some(path)) => base_name(path@),
        (None, None) => None,
    }
}

/// Whether `s` is the session that `settings` and a database override give.
pub open spec fn is_session(
    s: Session,
    db_override: Option<String>,
    settings: Settings,
    announce_quit: bool,
) -> bool {
    &&& s.db@ == (match db_override {
        Some(db) => db@,
        None => settings.db@,
    })
    &&& s.inbox_path@ == settings.inbox_path@
    &&& s.archive_path@ == settings.archive_path@
    &&& opt_text(s.vault_name) == vault_name_of(settings.obsidian_vault, settings.vault)
    &&& s.use_advanced_uri == settings.use_advanced_uri
    &&& s.theme == (match settings.theme {
        Some(c) => theme_of(c),
        None => default_theme(),
    })
    &&& s.layout == (match settings.ui {
        Some(c) => prefs_of(c),
        None => default_prefs(),
    })
    &&& 20 <= s.layout.list_pane_percent <= 80
    &&& s.announce_quit == announce_quit
}

/// A session of the browser alone, with the `--db` flag of its own command line.
pub fn run(db_flag: Option<String>, settings: Settings) -> (s: Session)
    ensures
        is_session(s, db_flag, settings, false),
{
    run_inner(db_flag, settings, false)
}

/// A session of the browser alone, with a database the launcher may have been given.
pub fn run_with_db(db_override: Option<String>, settings: Settings) -> (s: Session)
    ensures
        is_session(s, db_override, settings, false),
{
    run_inner(db_override, settings, false)
}

/// A session beside a daemon of the same process: quitting it is announced to the daemon.
pub fn run_combined(db_override: Option<String>, settings: Settings) -> (s: Session)
    ensures
        is_session(s, db_override, settings, true),
{
    run_inner(db_override, settings, true)
}

/// Resolves a session: the override before the configured database, the vault name, the theme and
/// the layout.
pub fn run_inner(db_override: Option<String>, settings: Settings, announce_quit: bool) -> (s: Session)
    ensures
        is_session(s, db_override, settings, announce_quit),
{
    let vault_name = match &settings.obsidian_vault {
        Some(name) => Some(name.clone()),
        None => match &settings.vault {
            Some(path) => base_name_of(path.as_str()),
            None => None,
        },
    };
    let theme = Theme::resolve_from(settings.theme.as_ref());
    let layout = LayoutPrefs::resolve_from(settings.ui.as_ref());
    let db = match db_override {
        Some(db) => db,
        None => settings.db,
    };
    Session {
        db,
        inbox_path: settings.inbox_path,
        archive_path: settings.archive_path,
        vault_name,
        use_advanced_uri: settings.use_advanced_uri,
        theme,
        layout,
        announce_quit,
    }
}

/// The state a session starts in, on the day `today`.
pub fn start(session: Session, today: String) -> (r: App)
    ensures
        r@ == (AppView {
            inbox_path: session.inbox_path@,
            archive_path: session.archive_path@,
            vault_name: opt_text(session.vault_name),
            use_advanced_uri: session.use_advanced_uri,
            theme: session.theme,
            layout: session.layout,
            ..initial(today@)
        }),
{
    let mut app = App::new(today);
    app.inbox_path = session.inbox_path;
    app.archive_path = session.archive_path;
    app.vault_name = session.vault_name;
    app.use_advanced_uri = session.use_advanced_uri;
    app.theme = session.theme;
    app.layout = session.layout;
    app
}

}
