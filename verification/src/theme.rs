//! The colours and the layout preferences of the browser.
//!
//! [`Theme`] holds the semantic colour roles everything is drawn with; [`LayoutPrefs`] holds the
//! density settings of the panes. Both are resolved from the user's configuration, and a value that
//! cannot be understood falls back to the default of its own role.

use vstd::prelude::*;
use crate::text::{ascii_lower, char_lowercase, char_to_lowercase, chars_of, same_text, string_of,
    trim, trimmed};

verus! {

// ---------------------------------------------------------------------------
// Colours and text styles.
// ---------------------------------------------------------------------------

/// A terminal colour. `Reset` is the terminal's own default.
#[derive(Clone, Copy, PartialEq, Eq, Debug, Structural)]
pub enum Color {
    Reset,
    Black,
    Red,
    Green,
    Yellow,
    Blue,
    Magenta,
    Cyan,
    Gray,
    DarkGray,
    LightRed,
    LightGreen,
    LightYellow,
    LightBlue,
    LightMagenta,
    LightCyan,
    White,
    Rgb(u8, u8, u8),
}

/// The text attributes of a style.
#[derive(Clone, Copy, PartialEq, Eq, Debug, Structural)]
pub struct Modifier {
    pub bold: bool,
    pub dim: bool,
    pub reversed: bool,
    pub crossed_out: bool,
    pub slow_blink: bool,
}

impl Modifier {
    /// No attribute.
    pub open spec fn none() -> Modifier {
        Modifier { bold: false, dim: false, reversed: false, crossed_out: false, slow_blink: false }
    }

    /// No attribute.
    pub fn empty() -> (r: Modifier)
        ensures
            r == Modifier::none(),
    {
        Modifier { bold: false, dim: false, reversed: false, crossed_out: false, slow_blink: false }
    }

    /// Bold alone.
    pub fn bold() -> (r: Modifier)
        ensures
            r == (Modifier { bold: true, ..Modifier::none() }),
    {
        Modifier { bold: true, dim: false, reversed: false, crossed_out: false, slow_blink: false }
    }
}

// ---------------------------------------------------------------------------
// Colour names.
// ---------------------------------------------------------------------------

/// Whether two texts are equal but for the case of ASCII letters.
pub open spec fn same_ignoring_ascii_case(a: Seq<char>, b: Seq<char>) -> bool {
    &&& a.len() == b.len()
    &&& forall|i: int| 0 <= i < a.len() ==> ascii_lower(#[trigger] a[i]) == ascii_lower(b[i])
}

fn ascii_lowered(c: char) -> (r: char)
    ensures
        r == ascii_lower(c),
{
    if 'A' <= c && c <= 'Z' {
        let n: u32 = c as u32;
        ((n + 32) as u8) as char
    } else {
        c
    }
}

fn eq_ignore_ascii_case(a: &Vec<char>, b: &str) -> (r: bool)
    ensures
        r == same_ignoring_ascii_case(a@, b@),
{
    let y = chars_of(b);
    if a.len() != y.len() {
        return false;
    }
    let mut i: usize = 0;
    while i < a.len()
        invariant
            y@ == b@,
            a@.len() == y@.len(),
            i <= a@.len(),
            forall|j: int| 0 <= j < i ==> ascii_lower(#[trigger] a@[j]) == ascii_lower(y@[j]),
        decreases a@.len() - i,
    {
        if ascii_lowered(a[i]) != ascii_lowered(y[i]) {
            assert(ascii_lower(a@[i as int]) != ascii_lower(y@[i as int]));
            return false;
        }
        i += 1;
    }
    true
}

/// Whether a character is passed over in the name of a colour.
pub open spec fn is_joint(c: char) -> bool {
    c == ' ' || c == '-' || c == '_'
}

/// A name in the form the palette is looked up by: without blanks, dashes and underscores, in lower
/// case.
pub open spec fn normalised(s: Seq<char>) -> Seq<char>
    decreases s.len(),
{
    if s.len() == 0 {
        seq![]
    } else if is_joint(s.last()) {
        normalised(s.drop_last())
    } else {
        normalised(s.drop_last()) + char_lowercase(s.last())
    }
}

/// The colour a normalised name stands for. Bright colours are also called light ones, gray also grey
/// and silver, dark gray also light black, and white also light gray.
pub open spec fn palette(name: Seq<char>) -> Option<Color> {
    if name == "reset"@ {
        Some(Color::Reset)
    } else if name == "black"@ {
        Some(Color::Black)
    } else if name == "red"@ {
        Some(Color::Red)
    } else if name == "green"@ {
        Some(Color::Green)
    } else if name == "yellow"@ {
        Some(Color::Yellow)
    } else if name == "blue"@ {
        Some(Color::Blue)
    } else if name == "magenta"@ {
        Some(Color::Magenta)
    } else if name == "cyan"@ {
        Some(Color::Cyan)
    } else if name == "gray"@ || name == "grey"@ || name == "silver"@ {
        Some(Color::Gray)
    } else if name == "darkgray"@ || name == "darkgrey"@ || name == "darksilver"@
        || name == "lightblack"@ || name == "brightblack"@ {
        Some(Color::DarkGray)
    } else if name == "lightred"@ || name == "brightred"@ {
        Some(Color::LightRed)
    } else if name == "lightgreen"@ || name == "brightgreen"@ {
        Some(Color::LightGreen)
    } else if name == "lightyellow"@ || name == "brightyellow"@ {
        Some(Color::LightYellow)
    } else if name == "lightblue"@ || name == "brightblue"@ {
        Some(Color::LightBlue)
    } else if name == "lightmagenta"@ || name == "brightmagenta"@ {
        Some(Color::LightMagenta)
    } else if name == "lightcyan"@ || name == "brightcyan"@ {
        Some(Color::LightCyan)
    } else if name == "white"@ || name == "lightwhite"@ || name == "brightwhite"@
        || name == "lightgray"@ || name == "lightgrey"@ || name == "lightsilver"@
        || name == "brightgray"@ || name == "brightgrey"@ || name == "brightsilver"@ {
        Some(Color::White)
    } else {
        None
    }
}

/// The colour a normalised name stands for.
pub fn palette_color(name: &str) -> (r: Option<Color>)
    ensures
        r == palette(name@),
{
    if same_text(name, "reset") {
        Some(Color::Reset)
    } else if same_text(name, "black") {
        Some(Color::Black)
    } else if same_text(name, "red") {
        Some(Color::Red)
    } else if same_text(name, "green") {
        Some(Color::Green)
    } else if same_text(name, "yellow") {
        Some(Color::Yellow)
    } else if same_text(name, "blue") {
        Some(Color::Blue)
    } else if same_text(name, "magenta") {
        Some(Color::Magenta)
    } else if same_text(name, "cyan") {
        Some(Color::Cyan)
    } else if same_text(name, "gray") || same_text(name, "grey")
        || same_text(name, "silver") {
        Some(Color::Gray)
    } else if same_text(name, "darkgray") || same_text(name, "darkgrey")
        || same_text(name, "darksilver") || same_text(name, "lightblack")
        || same_text(name, "brightblack") {
        Some(Color::DarkGray)
    } else if same_text(name, "lightred") || same_text(name, "brightred") {
        Some(Color::LightRed)
    } else if same_text(name, "lightgreen") || same_text(name, "brightgreen") {
        Some(Color::LightGreen)
    } else if same_text(name, "lightyellow") || same_text(name, "brightyellow") {
        Some(Color::LightYellow)
    } else if same_text(name, "lightblue") || same_text(name, "brightblue") {
        Some(Color::LightBlue)
    } else if same_text(name, "lightmagenta") || same_text(name, "brightmagenta") {
        Some(Color::LightMagenta)
    } else if same_text(name, "lightcyan") || same_text(name, "brightcyan") {
        Some(Color::LightCyan)
    } else if same_text(name, "white") || same_text(name, "lightwhite")
        || same_text(name, "brightwhite") || same_text(name, "lightgray")
        || same_text(name, "lightgrey") || same_text(name, "lightsilver")
        || same_text(name, "brightgray") || same_text(name, "brightgrey")
        || same_text(name, "brightsilver") {
        Some(Color::White)
    } else {
        None
    }
}

/// Looks up a colour name, in any of its spellings.
pub fn named_color(s: &str) -> (r: Option<Color>)
    ensures
        r == palette(normalised(s@)),
{
    let v = chars_of(s);
    let mut name: Vec<char> = Vec::new();
    let mut i: usize = 0;
    while i < v.len()
        invariant
            v@ == s@,
            i <= v@.len(),
            name@ =~= normalised(v@.take(i as int)),
        decreases v@.len() - i,
    {
        assert(v@.take(i + 1).drop_last() =~= v@.take(i as int));
        if v[i] != ' ' && v[i] != '-' && v[i] != '_' {
            let mut low = char_to_lowercase(v[i]);
            name.append(&mut low);
        }
        i += 1;
    }
    assert(v@.take(i as int) =~= s@);
    let n = name.len();
    let text = string_of(&name, 0, n);
    assert(text@ =~= name@);
    palette_color(text.as_str())
}

// ---------------------------------------------------------------------------
// Hexadecimal colours.
// ---------------------------------------------------------------------------

/// The value of a hexadecimal digit.
pub open spec fn hex_value(c: char) -> Option<u8> {
    if '0' <= c && c <= '9' {
        Some(((c as u32) - 48) as u8)
    } else if 'a' <= c && c <= 'f' {
        Some(((c as u32) - 87) as u8)
    } else if 'A' <= c && c <= 'F' {
        Some(((c as u32) - 55) as u8)
    } else {
        None
    }
}

/// The value of two hexadecimal digits.
pub open spec fn hex_pair(a: char, b: char) -> Option<u8> {
    match (hex_value(a), hex_value(b)) {
        (Some(x), Some(y)) => Some((16 * x + y) as u8),
        _ => None,
    }
}

/// The colour three pairs of hexadecimal digits stand for.
pub open spec fn rgb_color(r: Option<u8>, g: Option<u8>, b: Option<u8>) -> Option<Color> {
    match (r, g, b) {
        (Some(r), Some(g), Some(b)) => Some(Color::Rgb(r, g, b)),
        _ => None,
    }
}

/// The colour `rrggbb` or `rgb` stands for, each digit of the short form being doubled.
pub open spec fn hex_color(s: Seq<char>) -> Option<Color> {
    if s.len() == 3 {
        rgb_color(hex_pair(s[0], s[0]), hex_pair(s[1], s[1]), hex_pair(s[2], s[2]))
    } else if s.len() == 6 {
        rgb_color(hex_pair(s[0], s[1]), hex_pair(s[2], s[3]), hex_pair(s[4], s[5]))
    } else {
        None
    }
}

fn hex_value_of(c: char) -> (r: Option<u8>)
    ensures
        r == hex_value(c),
{
    let n: u32 = c as u32;
    if '0' <= c && c <= '9' {
        Some((n - 48) as u8)
    } else if 'a' <= c && c <= 'f' {
        Some((n - 87) as u8)
    } else if 'A' <= c && c <= 'F' {
        Some((n - 55) as u8)
    } else {
        None
    }
}

fn hex_pair_of(a: char, b: char) -> (r: Option<u8>)
    ensures
        r == hex_pair(a, b),
{
    match (hex_value_of(a), hex_value_of(b)) {
        (Some(x), Some(y)) => Some(16 * x + y),
        _ => None,
    }
}

/// Reads the characters after a `#` as a truecolour.
pub fn parse_hex(s: &Vec<char>) -> (r: Option<Color>)
    ensures
        r == hex_color(s@),
{
    let (r, g, b) = if s.len() == 3 {
        (hex_pair_of(s[0], s[0]), hex_pair_of(s[1], s[1]), hex_pair_of(s[2], s[2]))
    } else if s.len() == 6 {
        (hex_pair_of(s[0], s[1]), hex_pair_of(s[2], s[3]), hex_pair_of(s[4], s[5]))
    } else {
        return None;
    };
    match (r, g, b) {
        (Some(r), Some(g), Some(b)) => Some(Color::Rgb(r, g, b)),
        _ => None,
    }
}

/// The colour a configured value stands for.
pub open spec fn color_of(s: Seq<char>) -> Option<Color> {
    let t = trimmed(s);
    if same_ignoring_ascii_case(t, "default"@) {
        Some(Color::Reset)
    } else if t.len() > 0 && t[0] == '#' {
        hex_color(t.drop_first())
    } else {
        palette(normalised(t))
    }
}

/// Reads a colour from the configuration.
///
/// - Names of the terminal palette in any usual spelling (`cyan`, `light_red`, `bright blue`, `grey`).
/// - Truecolour: `#rrggbb` or `#rgb`.
/// - `default`: the terminal's own colour.
///
/// Anything else gives `None`.
pub fn parse_color(s: &str) -> (r: Option<Color>)
    ensures
        r == color_of(s@),
{
    let t = trim(s);
    let mut v = chars_of(t.as_str());
    if eq_ignore_ascii_case(&v, "default") {
        return Some(Color::Reset);
    }
    if v.len() > 0 && v[0] == '#' {
        v.remove(0);
        assert(v@ =~= t@.drop_first());
        return parse_hex(&v);
    }
    named_color(t.as_str())
}

// ---------------------------------------------------------------------------
// Themes.
// ---------------------------------------------------------------------------

/// The `[theme]` section of the configuration.
#[derive(Debug)]
pub struct ThemeConfig {
    pub accent: Option<String>,
    pub accent_bright: Option<String>,
    pub group_accent: Option<String>,
    pub success: Option<String>,
    pub warning: Option<String>,
    pub danger: Option<String>,
    pub danger_bright: Option<String>,
    pub muted: Option<String>,
    pub context_target: Option<String>,
    pub scheduled: Option<String>,
    pub path_prefix: Option<String>,
    pub background: Option<String>,
    pub bold: Option<bool>,
}

impl Default for ThemeConfig {
    /// A section that sets nothing.
    fn default() -> (r: Self)
        ensures
            r == (ThemeConfig {
                accent: None,
                accent_bright: None,
                group_accent: None,
                success: None,
                warning: None,
                danger: None,
                danger_bright: None,
                muted: None,
                context_target: None,
                scheduled: None,
                path_prefix: None,
                background: None,
                bold: None,
            }),
    {
        ThemeConfig {
            accent: None,
            accent_bright: None,
            group_accent: None,
            success: None,
            warning: None,
            danger: None,
            danger_bright: None,
            muted: None,
            context_target: None,
            scheduled: None,
            path_prefix: None,
            background: None,
            bold: None,
        }
    }
}

/// The semantic colour roles of the browser, and whether emphasis is bold.
#[derive(Clone, Copy, Debug, PartialEq, Eq, Structural)]
pub struct Theme {
    /// Primary accent: filter label, header markers, in-progress checkboxes, note paths.
    pub accent: Color,
    /// Bright accent: what concerns today.
    pub accent_bright: Color,
    /// The grouping axis in the title bar.
    pub group_accent: Color,
    /// Success: done checkboxes, search queries, prompt text.
    pub success: Color,
    /// Attention: keycaps, due dates, open checkboxes.
    pub warning: Color,
    /// Errors: write-back failure notices.
    pub danger: Color,
    /// Urgency: the overdue indicator.
    pub danger_bright: Color,
    /// Secondary text: counts, line numbers, other checkboxes.
    pub muted: Color,
    /// The selected task's line in the context pane.
    pub context_target: Color,
    /// A scheduled date that is not today.
    pub scheduled: Color,
    /// The directory prefix of a note header.
    pub path_prefix: Color,
    /// The window background. Nothing is painted while it is `Reset`.
    pub background: Color,
    /// Whether emphasised text is bold. Read it through [`Theme::bold_modifier`].
    pub bold: bool,
}

/// The theme of a configuration that sets nothing.
pub open spec fn default_theme() -> Theme {
    Theme {
        accent: Color::Cyan,
        accent_bright: Color::LightCyan,
        group_accent: Color::Magenta,
        success: Color::Green,
        warning: Color::Yellow,
        danger: Color::Red,
        danger_bright: Color::LightRed,
        muted: Color::DarkGray,
        context_target: Color::Yellow,
        scheduled: Color::Cyan,
        path_prefix: Color::DarkGray,
        background: Color::Reset,
        bold: false,
    }
}

impl Default for Theme {
    fn default() -> (r: Self)
        ensures
            r == default_theme(),
    {
        Theme {
            accent: Color::Cyan,
            accent_bright: Color::LightCyan,
            group_accent: Color::Magenta,
            success: Color::Green,
            warning: Color::Yellow,
            danger: Color::Red,
            danger_bright: Color::LightRed,
            muted: Color::DarkGray,
            context_target: Color::Yellow,
            scheduled: Color::Cyan,
            path_prefix: Color::DarkGray,
            background: Color::Reset,
            bold: false,
        }
    }
}

/// The colour of a role: what the configuration says where that is a colour, else the fallback.
pub open spec fn role_color(src: Option<String>, fallback: Color) -> Color {
    match src {
        Some(s) => match color_of(s@) {
            Some(c) => c,
            None => fallback,
        },
        None => fallback,
    }
}

/// The theme a configuration section gives: each role by itself, over the defaults.
pub open spec fn theme_of(cfg: ThemeConfig) -> Theme {
    let d = default_theme();
    Theme {
        accent: role_color(cfg.accent, d.accent),
        accent_bright: role_color(cfg.accent_bright, d.accent_bright),
        group_accent: role_color(cfg.group_accent, d.group_accent),
        success: role_color(cfg.success, d.success),
        warning: role_color(cfg.warning, d.warning),
        danger: role_color(cfg.danger, d.danger),
        danger_bright: role_color(cfg.danger_bright, d.danger_bright),
        muted: role_color(cfg.muted, d.muted),
        context_target: role_color(cfg.context_target, d.context_target),
        scheduled: role_color(cfg.scheduled, d.scheduled),
        path_prefix: role_color(cfg.path_prefix, d.path_prefix),
        background: role_color(cfg.background, d.background),
        bold: match cfg.bold {
            Some(b) => b,
            None => d.bold,
        },
    }
}

fn role(src: &Option<String>, fallback: Color) -> (r: Color)
    ensures
        r == role_color(*src, fallback),
{
    match src {
        Some(s) => match parse_color(s.as_str()) {
            Some(c) => c,
            None => fallback,
        },
        None => fallback,
    }
}

/// The modifier of emphasised text under a theme.
pub open spec fn emphasis(theme: Theme) -> Modifier {
    Modifier { bold: theme.bold, ..Modifier::none() }
}

impl Theme {
    /// The modifier of emphasised text: bold where the toggle is on, none where it is off.
    pub fn bold_modifier(&self) -> (r: Modifier)
        ensures
            r == emphasis(*self),
    {
        if self.bold {
            Modifier::bold()
        } else {
            Modifier::empty()
        }
    }

    /// Resolves the theme from the optional `[theme]` section.
    ///
    /// A role set to a recognised colour overrides the default; one set to anything else keeps it,
    /// and the other roles are applied all the same.
    pub fn resolve_from(cfg: Option<&ThemeConfig>) -> (r: Self)
        ensures
            r == (match cfg {
                Some(c) => theme_of(*c),
                None => default_theme(),
            }),
    {
        let d = Theme::default();
        match cfg {
            None => d,
            Some(cfg) => Theme {
                accent: role(&cfg.accent, d.accent),
                accent_bright: role(&cfg.accent_bright, d.accent_bright),
                group_accent: role(&cfg.group_accent, d.group_accent),
                success: role(&cfg.success, d.success),
                warning: role(&cfg.warning, d.warning),
                danger: role(&cfg.danger, d.danger),
                danger_bright: role(&cfg.danger_bright, d.danger_bright),
                muted: role(&cfg.muted, d.muted),
                context_target: role(&cfg.context_target, d.context_target),
                scheduled: role(&cfg.scheduled, d.scheduled),
                path_prefix: role(&cfg.path_prefix, d.path_prefix),
                background: role(&cfg.background, d.background),
                bold: match cfg.bold {
                    Some(b) => b,
                    None => d.bold,
                },
            },
        }
    }
}

// ---------------------------------------------------------------------------
// Layout preferences.
// ---------------------------------------------------------------------------

/// How much space stands between groups.
#[derive(Clone, Copy, PartialEq, Eq, Debug, Structural)]
pub enum DensityPreset {
    Compact,
    Comfortable,
    Spacious,
}

/// The blank lines of a preset.
pub open spec fn gap_lines(d: DensityPreset) -> u8 {
    match d {
        DensityPreset::Compact => 0,
        DensityPreset::Comfortable => 1,
        DensityPreset::Spacious => 2,
    }
}

impl DensityPreset {
    /// The blank lines between two groups.
    pub fn blank_lines(self) -> (r: u8)
        ensures
            r == gap_lines(self),
    {
        match self {
            DensityPreset::Compact => 0,
            DensityPreset::Comfortable => 1,
            DensityPreset::Spacious => 2,
        }
    }
}

/// The `[ui]` section of the configuration.
#[derive(Debug)]
pub struct UiConfig {
    pub list_pane_percent: Option<u16>,
    pub list_density: Option<DensityPreset>,
    pub context_wrap: Option<bool>,
}

/// How the panes share the screen.
#[derive(Clone, Copy, Debug, PartialEq, Eq, Structural)]
pub struct LayoutPrefs {
    /// The width of the context pane as a percentage of both panes; 20 to 80 once resolved.
    pub list_pane_percent: u16,
    /// The blank lines between groups.
    pub list_density: u8,
    /// Whether the context pane wraps its text.
    pub context_wrap: bool,
}

/// The preferences of a configuration that sets nothing.
pub open spec fn default_prefs() -> LayoutPrefs {
    LayoutPrefs { list_pane_percent: 50, list_density: 0, context_wrap: false }
}

impl Default for LayoutPrefs {
    fn default() -> (r: Self)
        ensures
            r == default_prefs(),
    {
        LayoutPrefs { list_pane_percent: 50, list_density: 0, context_wrap: false }
    }
}

/// `p` moved to the nearest value from 20 to 80.
pub open spec fn clamped_percent(p: u16) -> u16 {
    if p < 20 {
        20
    } else if p > 80 {
        80
    } else {
        p
    }
}

/// The preferences a configuration section gives.
pub open spec fn prefs_of(cfg: UiConfig) -> LayoutPrefs {
    let d = default_prefs();
    LayoutPrefs {
        list_pane_percent: match cfg.list_pane_percent {
            Some(p) => clamped_percent(p),
            None => d.list_pane_percent,
        },
        list_density: match cfg.list_density {
            Some(x) => gap_lines(x),
            None => d.list_density,
        },
        context_wrap: match cfg.context_wrap {
            Some(w) => w,
            None => d.context_wrap,
        },
    }
}

impl LayoutPrefs {
    /// Resolves the preferences from the optional `[ui]` section. A percentage out of range moves
    /// to the nearest bound.
    pub fn resolve_from(cfg: Option<&UiConfig>) -> (r: Self)
        ensures
            r == (match cfg {
                Some(c) => prefs_of(*c),
                None => default_prefs(),
            }),
            20 <= r.list_pane_percent <= 80,
    {
        let d = LayoutPrefs::default();
        match cfg {
            None => d,
            Some(cfg) => LayoutPrefs {
                list_pane_percent: match cfg.list_pane_percent {
                    Some(p) => if p < 20 {
                        20
                    } else if p > 80 {
                        80
                    } else {
                        p
                    },
                    None => d.list_pane_percent,
                },
                list_density: match cfg.list_density {
                    Some(x) => x.blank_lines(),
                    None => d.list_density,
                },
                context_wrap: match cfg.context_wrap {
                    Some(w) => w,
                    None => d.context_wrap,
                },
            },
        }
    }
}

// ---------------------------------------------------------------------------
// Laws.
// ---------------------------------------------------------------------------

/// A value that cannot be understood, or none, leaves its role at the default; one that can be is
/// taken.
pub proof fn roles_fall_back_alone(src: Option<String>, fallback: Color)
    ensures
        src is None ==> role_color(src, fallback) == fallback,
        src matches Some(s) && color_of(s@) is None ==> role_color(src, fallback) == fallback,
        src matches Some(s) ==> (color_of(s@) matches Some(c) ==> role_color(src, fallback) == c),
{
}

/// What one role is set to changes no other.
pub proof fn roles_are_independent(cfg: ThemeConfig, other: ThemeConfig)
    ensures
        theme_of(ThemeConfig { accent: other.accent, ..cfg }) == (Theme {
            accent: theme_of(other).accent,
            ..theme_of(cfg)
        }),
        theme_of(ThemeConfig { accent_bright: other.accent_bright, ..cfg }) == (Theme {
            accent_bright: theme_of(other).accent_bright,
            ..theme_of(cfg)
        }),
        theme_of(ThemeConfig { group_accent: other.group_accent, ..cfg }) == (Theme {
            group_accent: theme_of(other).group_accent,
            ..theme_of(cfg)
        }),
        theme_of(ThemeConfig { success: other.success, ..cfg }) == (Theme {
            success: theme_of(other).success,
            ..theme_of(cfg)
        }),
        theme_of(ThemeConfig { warning: other.warning, ..cfg }) == (Theme {
            warning: theme_of(other).warning,
            ..theme_of(cfg)
        }),
        theme_of(ThemeConfig { danger: other.danger, ..cfg }) == (Theme {
            danger: theme_of(other).danger,
            ..theme_of(cfg)
        }),
        theme_of(ThemeConfig { danger_bright: other.danger_bright, ..cfg }) == (Theme {
            danger_bright: theme_of(other).danger_bright,
            ..theme_of(cfg)
        }),
        theme_of(ThemeConfig { muted: other.muted, ..cfg }) == (Theme {
            muted: theme_of(other).muted,
            ..theme_of(cfg)
        }),
        theme_of(ThemeConfig { context_target: other.context_target, ..cfg }) == (Theme {
            context_target: theme_of(other).context_target,
            ..theme_of(cfg)
        }),
        theme_of(ThemeConfig { scheduled: other.scheduled, ..cfg }) == (Theme {
            scheduled: theme_of(other).scheduled,
            ..theme_of(cfg)
        }),
        theme_of(ThemeConfig { path_prefix: other.path_prefix, ..cfg }) == (Theme {
            path_prefix: theme_of(other).path_prefix,
            ..theme_of(cfg)
        }),
        theme_of(ThemeConfig { background: other.background, ..cfg }) == (Theme {
            background: theme_of(other).background,
            ..theme_of(cfg)
        }),
        theme_of(ThemeConfig { bold: other.bold, ..cfg }) == (Theme {
            bold: theme_of(other).bold,
            ..theme_of(cfg)
        }),
{
}

/// The share of the context pane is always between a fifth and four fifths, and is kept where it is.
pub proof fn pane_share_is_bounded(cfg: UiConfig)
    ensures
        20 <= prefs_of(cfg).list_pane_percent <= 80,
        cfg.list_pane_percent matches Some(p) && 20 <= p <= 80 ==> prefs_of(cfg).list_pane_percent
            == cfg.list_pane_percent->0,
{
}

}
