//! What is configured, and what becomes of it.

use vstd::prelude::*;
use crate::draw_laws::{bare, inked, strong};
use crate::help::help_lines;
use crate::launch::{LockOutcome, StartView, combined_start, daemon_start};
use crate::paths::{base_name, dir_len, dir_len_is_last_slash, without_tail};
use crate::session::{Session, Settings, is_session};
use crate::spans::LineView;
use crate::text::{ascii_lower, char_lowercase, digits, padded_right, trimmed};
use crate::text_laws::{is_name, paths_are_parted_at_the_last_slash};
use crate::theme::{Color, DensityPreset, Theme, ThemeConfig, UiConfig, color_of, default_prefs,
    default_theme, hex_color, hex_value, normalised, palette, prefs_of, same_ignoring_ascii_case,
    theme_of};

verus! {

// ---------------------------------------------------------------------------
// Colours.
// ---------------------------------------------------------------------------

/// Whether `c` is the hexadecimal digit of value `v`.
pub open spec fn is_digit(c: char, v: int) -> bool {
    ||| '0' <= c <= '9' && v == c as int - '0' as int
    ||| 'a' <= c <= 'f' && v == 10 + (c as int - 'a' as int)
    ||| 'A' <= c <= 'F' && v == 10 + (c as int - 'A' as int)
}

/// Whether `c` is no hexadecimal digit.
pub open spec fn no_digit(c: char) -> bool {
    forall|v: int| !is_digit(c, v)
}

/// Six digits are a colour of three pairs, three digits one of three doubled digits; anything else is
/// none.
pub proof fn hex_colours_are_pairs(s: Seq<char>, d: Seq<int>)
    ensures
        s.len() == 6 && d.len() == 6 && (forall|i: int| 0 <= i < 6 ==> is_digit(s[i], #[trigger] d[i]))
            ==> (hex_color(s) matches Some(Color::Rgb(r, g, b)) && r == 16 * d[0] + d[1] && g == 16
            * d[2] + d[3] && b == 16 * d[4] + d[5]),
        s.len() == 3 && d.len() == 3 && (forall|i: int| 0 <= i < 3 ==> is_digit(s[i], #[trigger] d[i]))
            ==> (hex_color(s) matches Some(Color::Rgb(r, g, b)) && r == 17 * d[0] && g == 17 * d[1]
            && b == 17 * d[2]),
        s.len() != 3 && s.len() != 6 ==> hex_color(s) is None,
        (exists|i: int| 0 <= i < s.len() && no_digit(#[trigger] s[i])) ==> hex_color(s) is None,
{
    if s.len() == 6 && d.len() == 6 && (forall|i: int|
        0 <= i < 6 ==> is_digit(s[i], #[trigger] d[i])) {
        assert(is_digit(s[0], d[0]) && is_digit(s[1], d[1]) && is_digit(s[2], d[2]) && is_digit(
            s[3],
            d[3],
        ) && is_digit(s[4], d[4]) && is_digit(s[5], d[5]));
    }
    if s.len() == 3 && d.len() == 3 && (forall|i: int|
        0 <= i < 3 ==> is_digit(s[i], #[trigger] d[i])) {
        assert(is_digit(s[0], d[0]) && is_digit(s[1], d[1]) && is_digit(s[2], d[2]));
    }
    if exists|i: int| 0 <= i < s.len() && no_digit(#[trigger] s[i]) {
        let i = choose|i: int| 0 <= i < s.len() && no_digit(#[trigger] s[i]);
        let c = s[i];
        assert(!is_digit(c, c as int - '0' as int));
        assert(!is_digit(c, 10 + (c as int - 'a' as int)));
        assert(!is_digit(c, 10 + (c as int - 'A' as int)));
        assert(hex_value(c) is None);
    }
}

/// Whether `name` is one of the names of a colour of the palette.
pub open spec fn is_name_of(name: Seq<char>, c: Color) -> bool {
    match c {
        Color::Reset => name == "reset"@,
        Color::Black => name == "black"@,
        Color::Red => name == "red"@,
        Color::Green => name == "green"@,
        Color::Yellow => name == "yellow"@,
        Color::Blue => name == "blue"@,
        Color::Magenta => name == "magenta"@,
        Color::Cyan => name == "cyan"@,
        Color::Gray => name == "gray"@ || name == "grey"@ || name == "silver"@,
        Color::DarkGray => name == "darkgray"@ || name == "darkgrey"@ || name == "darksilver"@
            || name == "lightblack"@ || name == "brightblack"@,
        Color::LightRed => name == "lightred"@ || name == "brightred"@,
        Color::LightGreen => name == "lightgreen"@ || name == "brightgreen"@,
        Color::LightYellow => name == "lightyellow"@ || name == "brightyellow"@,
        Color::LightBlue => name == "lightblue"@ || name == "brightblue"@,
        Color::LightMagenta => name == "lightmagenta"@ || name == "brightmagenta"@,
        Color::LightCyan => name == "lightcyan"@ || name == "brightcyan"@,
        Color::White => name == "white"@ || name == "lightwhite"@ || name == "brightwhite"@ || name
            == "lightgray"@ || name == "lightgrey"@ || name == "lightsilver"@ || name
            == "brightgray"@ || name == "brightgrey"@ || name == "brightsilver"@,
        Color::Rgb(_, _, _) => false,
    }
}

/// A name of the palette is a name of the colour it gives, and a text that gives none is no name.
pub proof fn palette_goes_by_name(name: Seq<char>, c: Color)
    ensures
        palette(name) == Some(c) ==> is_name_of(name, c),
        palette(name) is None ==> !is_name_of(name, c),
{
}

/// Blanks, hyphens and underscores do not count in the name of a colour, and neither does the case.
pub proof fn names_are_read_loosely(s: Seq<char>, c: char)
    ensures
        normalised(Seq::empty()) == Seq::<char>::empty(),
        c == ' ' || c == '-' || c == '_' ==> normalised(s.push(c)) == normalised(s),
        !(c == ' ' || c == '-' || c == '_') ==> normalised(s.push(c)) == normalised(s)
            + char_lowercase(c),
{
    assert(s.push(c).drop_last() =~= s);
    assert(s.push(c).last() == c);
}

/// A colour is `default` in any case, `#` and digits, or a name; the white ends do not count.
pub proof fn colours_are_read(s: Seq<char>)
    ensures
        ({
            let t = trimmed(s);
            let by_default = t.len() == 7 && forall|i: int|
                0 <= i < 7 ==> ascii_lower(#[trigger] t[i]) == seq![
                    'd',
                    'e',
                    'f',
                    'a',
                    'u',
                    'l',
                    't',
                ][i];
            &&& by_default ==> color_of(s) == Some(Color::Reset)
            &&& t.len() > 0 && t[0] == '#' ==> color_of(s) == hex_color(t.skip(1))
            &&& !by_default && !(t.len() > 0 && t[0] == '#') ==> color_of(s) == palette(
                normalised(t),
            )
        }),
{
    let t = trimmed(s);
    let word = seq!['d', 'e', 'f', 'a', 'u', 'l', 't'];
    reveal_strlit("default");
    assert("default"@ =~= word);
    assert(forall|i: int| 0 <= i < 7 ==> ascii_lower(#[trigger] word[i]) == word[i]);
    if same_ignoring_ascii_case(t, "default"@) {
        assert forall|i: int| 0 <= i < 7 implies ascii_lower(#[trigger] t[i]) == word[i] by {}
        if t.len() > 0 && t[0] == '#' {
            assert(ascii_lower(t[0]) == word[0]);
        }
    }
    if t.len() > 0 {
        assert(t.drop_first() =~= t.skip(1));
    }
}

// ---------------------------------------------------------------------------
// Themes and layouts.
// ---------------------------------------------------------------------------

/// What a role becomes: the colour that is configured, or its own one where none is or it is no colour.
pub open spec fn becomes(color: Color, src: Option<String>, own: Color) -> bool {
    color == (if src matches Some(s) && color_of(s@) is Some {
        color_of(src->0@)->0
    } else {
        own
    })
}

/// Every role of a theme is configured by its own key and falls back to its own colour.
pub proof fn roles_have_their_colours(cfg: ThemeConfig)
    ensures
        becomes(theme_of(cfg).accent, cfg.accent, Color::Cyan),
        becomes(theme_of(cfg).accent_bright, cfg.accent_bright, Color::LightCyan),
        becomes(theme_of(cfg).group_accent, cfg.group_accent, Color::Magenta),
        becomes(theme_of(cfg).success, cfg.success, Color::Green),
        becomes(theme_of(cfg).warning, cfg.warning, Color::Yellow),
        becomes(theme_of(cfg).danger, cfg.danger, Color::Red),
        becomes(theme_of(cfg).danger_bright, cfg.danger_bright, Color::LightRed),
        becomes(theme_of(cfg).muted, cfg.muted, Color::DarkGray),
        becomes(theme_of(cfg).context_target, cfg.context_target, Color::Yellow),
        becomes(theme_of(cfg).scheduled, cfg.scheduled, Color::Cyan),
        becomes(theme_of(cfg).path_prefix, cfg.path_prefix, Color::DarkGray),
        becomes(theme_of(cfg).background, cfg.background, Color::Reset),
        theme_of(cfg).bold <==> cfg.bold == Some(true),
{
}

/// The theme of a session without a configuration.
pub proof fn roles_have_their_own_colours()
    ensures
        default_theme().accent == Color::Cyan,
        default_theme().accent_bright == Color::LightCyan,
        default_theme().group_accent == Color::Magenta,
        default_theme().success == Color::Green,
        default_theme().warning == Color::Yellow,
        default_theme().danger == Color::Red,
        default_theme().danger_bright == Color::LightRed,
        default_theme().muted == Color::DarkGray,
        default_theme().context_target == Color::Yellow,
        default_theme().scheduled == Color::Cyan,
        default_theme().path_prefix == Color::DarkGray,
        default_theme().background == Color::Reset,
        !default_theme().bold,
{
}

/// The context pane has the share that is configured, between a fifth and four fifths of the width, and
/// half of it otherwise; the groups stand none, one or two lines apart; and the pane wraps on demand.
pub proof fn layouts_are_configured(cfg: UiConfig)
    ensures
        ({
            let p = prefs_of(cfg);
            &&& cfg.list_pane_percent is None ==> p.list_pane_percent == 50
            &&& cfg.list_pane_percent matches Some(n) ==> {
                &&& 20 <= n <= 80 ==> p.list_pane_percent == n
                &&& n < 20 ==> p.list_pane_percent == 20
                &&& n > 80 ==> p.list_pane_percent == 80
            }
            &&& p.list_density == (if cfg.list_density == Some(DensityPreset::Comfortable) {
                1int
            } else if cfg.list_density == Some(DensityPreset::Spacious) {
                2
            } else {
                0
            })
            &&& p.context_wrap <==> cfg.context_wrap == Some(true)
        }),
        default_prefs().list_pane_percent == 50,
        default_prefs().list_density == 0,
        !default_prefs().context_wrap,
{
}

// ---------------------------------------------------------------------------
// Sessions.
// ---------------------------------------------------------------------------

/// A session reads the index it was told to, or the configured one; writes to the configured notes; has
/// the vault name that is configured, or the last part of the path of the vault; and has the theme and
/// the layout of the configuration.
pub proof fn sessions_follow_their_settings(
    s: Session,
    db: Option<String>,
    settings: Settings,
    announce: bool,
)
    requires
        is_session(s, db, settings, announce),
    ensures
        db matches Some(d) ==> s.db@ == d@,
        db is None ==> s.db@ == settings.db@,
        s.inbox_path@ == settings.inbox_path@,
        s.archive_path@ == settings.archive_path@,
        settings.obsidian_vault matches Some(name) ==> (s.vault_name matches Some(v) && v@ == name@),
        settings.obsidian_vault is None && settings.vault is None ==> s.vault_name is None,
        settings.obsidian_vault is None ==> (settings.vault matches Some(path) ==> match base_name(
            path@,
        ) {
            Some(name) => s.vault_name matches Some(v) && v@ == name,
            None => s.vault_name is None,
        }),
        s.use_advanced_uri == settings.use_advanced_uri,
        settings.theme matches Some(c) ==> s.theme == theme_of(c),
        settings.theme is None ==> s.theme == default_theme(),
        settings.ui matches Some(c) ==> s.layout == prefs_of(c),
        settings.ui is None ==> s.layout == default_prefs(),
        s.announce_quit == announce,
{
}

/// The last part of a path is what stands behind its last slash, whether or not slashes end the path.
pub proof fn vaults_are_named_by_their_folder(dir: Seq<char>, name: Seq<char>)
    requires
        is_name(name),
    ensures
        base_name(dir.push('/') + name) == Some(name),
        base_name((dir.push('/') + name).push('/')) == Some(name),
        base_name(name.push('/')) == Some(name),
        base_name(Seq::empty()) is None,
        base_name(seq!['/']) is None,
{
    paths_are_parted_at_the_last_slash(dir, name);
    let p = dir.push('/') + name;
    assert(p.push('/').drop_last() =~= p);
    assert(name.push('/').drop_last() =~= name);
    assert(Seq::<char>::empty().skip(0) =~= Seq::<char>::empty());
    dir_len_is_last_slash(seq!['/']);
}

/// A dot behind the last slash does not count either; two dots are no name, and neither is a dot alone.
pub proof fn dots_name_nothing(dir: Seq<char>, name: Seq<char>)
    requires
        is_name(name),
        dir.len() > 0,
    ensures
        base_name((dir.push('/') + name).push('/').push('.')) == Some(name),
        base_name(dir.push('/') + seq!['.', '.']) is None,
        base_name(seq!['.']) is None,
        base_name(seq!['.', '.']) is None,
{
    paths_are_parted_at_the_last_slash(dir, name);
    let p = dir.push('/') + name;
    let q = p.push('/').push('.');
    assert(q.drop_last() =~= p.push('/'));
    assert(p.push('/').drop_last() =~= p);
    assert(q[q.len() - 1] == '.' && q[q.len() - 2] == '/');
    assert(without_tail(q) == without_tail(p.push('/')));
    assert(without_tail(p.push('/')) == without_tail(p));
    let up = dir.push('/') + seq!['.', '.'];
    dir_len_is_last_slash(up);
    assert(up[dir.len() as int] == '/');
    let n = dir.len() as int;
    assert(up[n + 1] == '.' && up[n + 2] == '.');
    assert(dir_len(up) == dir.len() + 1);
    assert(up.skip(dir_len(up) as int) =~= seq!['.', '.']);
    dir_len_is_last_slash(seq!['.']);
    dir_len_is_last_slash(seq!['.', '.']);
    assert(seq!['.'].skip(0) =~= seq!['.']);
    assert(seq!['.', '.'].skip(0) =~= seq!['.', '.']);
}

/// A daemon alone starts where the lock is free; where another holds it, it is refused with an error
/// and a message that names the process where it is known. A daemon with a browser attaches instead.
pub proof fn daemons_start_alone(pid: Option<u32>)
    ensures
        daemon_start(LockOutcome::Acquired) is Go,
        combined_start(LockOutcome::Acquired) is Go,
        combined_start(LockOutcome::HeldByOther(pid)) is Attach,
        daemon_start(LockOutcome::HeldByOther(pid)) == (StartView::Refuse {
            message: (match pid {
                Some(p) => "taski: a daemon is already running"@ + (" (PID "@ + digits(p as nat)
                    + ")"@),
                None => "taski: a daemon is already running"@ + Seq::<char>::empty(),
            }) + ". "@ + "Refusing to start a second writer (ADR-0008)."@,
            error: Some("daemon already running"@),
        }),
{
}

// ---------------------------------------------------------------------------
// The help overlay.
// ---------------------------------------------------------------------------

/// Whether line `k` of the overlay names a key and what it does.
pub open spec fn tells(lines: Seq<LineView>, k: int, key: Seq<char>, does: Seq<char>, theme: Theme) -> bool {
    lines[k] == seq![bare(" "@), inked(padded_right(key, 16), theme.warning), bare("  "@), bare(does)]
}

/// The overlay names every key with what it does.
pub proof fn help_tells_every_key(t: Theme)
    ensures
        ({
            let l = help_lines(t);
            &&& l.len() == 36
            &&& l[0] == seq![strong("Navigation"@, t.accent, t)]
            &&& tells(l, 1, "j/k ↑/↓"@, "Move selection up/down"@, t)
            &&& tells(l, 2, "Enter"@, "Fold group"@, t)
            &&& tells(l, 3, "←/→"@, "Collapse / expand group"@, t)
            &&& tells(l, 4, "Tab / ⇧Tab"@, "Expand all / collapse all groups"@, t)
            &&& tells(l, 5, "J / K"@, "Scroll context pane"@, t)
            &&& l[7] == seq![strong("Filter & view"@, t.accent, t)]
            &&& tells(l, 8, "f"@, "Cycle status filter (All / Open / Done)"@, t)
            &&& tells(l, 9, "T"@, "Today view (scheduled or due == today)"@, t)
            &&& tells(l, 10, "O"@, "Overdue view (due < today)"@, t)
            &&& tells(
                l,
                11,
                "G"@,
                "Cycle group-by (folder+note / note / tag / priority / folder)"@,
                t,
            )
            &&& tells(l, 12, "p"@, "Toggle context pane"@, t)
            &&& l[14] == seq![strong("Task actions"@, t.accent, t)]
            &&& tells(l, 15, "Space"@, "Toggle open ↔ done (stamps ✅)"@, t)
            &&& tells(l, 16, "t"@, "Mark / unmark for today (⏳)"@, t)
            &&& tells(l, 17, "b"@, "Toggle checkbox ↔ bullet"@, t)
            &&& tells(l, 18, "d"@, "Cancel / un-cancel (stamps ❌)"@, t)
            &&& tells(l, 19, "i"@, "Mark in-progress / re-open"@, t)
            &&& tells(l, 20, "u"@, "Undo last flip / bullet / quick-add"@, t)
            &&& tells(l, 21, "a"@, "Quick-add to inbox"@, t)
            &&& tells(l, 22, "n"@, "Add a note to the task (links it)"@, t)
            &&& tells(
                l,
                23,
                "m"@,
                "Move mode: reorder within note (Enter place / Esc cancel)"@,
                t,
            )
            &&& tells(l, 24, "A"@, "Archive note's completed tasks (→ archive note)"@, t)
            &&& tells(l, 25, "o"@, "Open in Obsidian"@, t)
            &&& l[27] == seq![strong("Search"@, t.accent, t)]
            &&& tells(l, 28, "/"@, "Text search (task body)"@, t)
            &&& tells(l, 29, "F"@, "File / path search"@, t)
            &&& l[31] == seq![strong("Other"@, t.accent, t)]
            &&& tells(l, 32, "?"@, "Toggle this help"@, t)
            &&& tells(l, 33, "q / Esc / Ctrl-C"@, "Quit"@, t)
            &&& l[6].len() == 0 && l[13].len() == 0 && l[26].len() == 0 && l[30].len() == 0
                && l[34].len() == 0
            &&& l[35].len() == 1 && l[35][0].text == " ? / Esc / q to close"@
        }),
{
}

}
