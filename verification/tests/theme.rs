//! Colours and layout preferences.

use taski_tui::grouping::priority_sort_rank;
use taski_tui::theme::{
    Color, DensityPreset, LayoutPrefs, Modifier, Theme, ThemeConfig, UiConfig, parse_color,
};

#[test]
fn default_matches_today_palette() {
    let t = Theme::default();
    assert_eq!(t.accent, Color::Cyan);
    assert_eq!(t.accent_bright, Color::LightCyan);
    assert_eq!(t.group_accent, Color::Magenta);
    assert_eq!(t.success, Color::Green);
    assert_eq!(t.warning, Color::Yellow);
    assert_eq!(t.danger, Color::Red);
    assert_eq!(t.danger_bright, Color::LightRed);
    assert_eq!(t.muted, Color::DarkGray);
    assert_eq!(t.context_target, Color::Yellow);
    assert_eq!(t.scheduled, Color::Cyan);
    assert_eq!(t.path_prefix, Color::DarkGray);
    assert_eq!(t.background, Color::Reset);
    assert!(!t.bold);
    assert_eq!(t.bold_modifier(), Modifier::empty());
}

#[test]
fn resolve_from_bold_toggle() {
    assert!(!Theme::resolve_from(None).bold);
    let on = Theme::resolve_from(Some(&ThemeConfig {
        bold: Some(true),
        ..ThemeConfig::default()
    }));
    assert!(on.bold);
    assert_eq!(on.bold_modifier(), Modifier::bold());
    let off = Theme::resolve_from(Some(&ThemeConfig {
        bold: Some(false),
        ..ThemeConfig::default()
    }));
    assert!(!off.bold);
    assert_eq!(off.bold_modifier(), Modifier::empty());
}

#[test]
fn default_layout_matches_current() {
    let lp = LayoutPrefs::default();
    assert_eq!(lp.list_pane_percent, 50);
    assert_eq!(lp.list_density, 0);
    assert!(!lp.context_wrap);
}

#[test]
fn layout_percent_in_range() {
    let lp = LayoutPrefs::default();
    assert!(lp.list_pane_percent >= 20);
    assert!(lp.list_pane_percent <= 80);
}

#[test]
fn parse_color_named() {
    assert_eq!(parse_color("cyan"), Some(Color::Cyan));
    assert_eq!(parse_color("CYAN"), Some(Color::Cyan));
    assert_eq!(parse_color("Cyan"), Some(Color::Cyan));
}

#[test]
fn parse_color_snake_case() {
    assert_eq!(parse_color("light_red"), Some(Color::LightRed));
    assert_eq!(parse_color("Light_Red"), Some(Color::LightRed));
    assert_eq!(parse_color("dark_gray"), Some(Color::DarkGray));
}

#[test]
fn parse_color_hex() {
    assert_eq!(parse_color("#ff0000"), Some(Color::Rgb(255, 0, 0)));
    assert_eq!(parse_color("#00FF00"), Some(Color::Rgb(0, 255, 0)));
    assert_eq!(parse_color("#0000ff"), Some(Color::Rgb(0, 0, 255)));
}

#[test]
fn parse_color_hex_short() {
    assert_eq!(parse_color("#f00"), Some(Color::Rgb(255, 0, 0)));
    assert_eq!(parse_color("#0f0"), Some(Color::Rgb(0, 255, 0)));
}

#[test]
fn parse_color_default_reset() {
    assert_eq!(parse_color("default"), Some(Color::Reset));
    assert_eq!(parse_color("DEFAULT"), Some(Color::Reset));
}

#[test]
fn parse_color_unknown_returns_none() {
    assert_eq!(parse_color("mauve"), None);
    assert_eq!(parse_color("#zzzzzz"), None);
    assert_eq!(parse_color(""), None);
    assert_eq!(parse_color("notacolor"), None);
}

#[test]
fn resolve_from_none_uses_all_defaults() {
    let t = Theme::resolve_from(None);
    assert_eq!(t, Theme::default());
}

#[test]
fn resolve_from_partial_override() {
    let cfg = ThemeConfig {
        accent: Some("red".into()),
        ..ThemeConfig::default()
    };
    let t = Theme::resolve_from(Some(&cfg));
    assert_eq!(t.accent, Color::Red);
    assert_eq!(t.accent_bright, Color::LightCyan);
    assert_eq!(t.success, Color::Green);
    assert_eq!(t.warning, Color::Yellow);
    assert_eq!(t.danger, Color::Red);
    assert_eq!(t.danger_bright, Color::LightRed);
    assert_eq!(t.muted, Color::DarkGray);
    assert_eq!(t.context_target, Color::Yellow);
    assert_eq!(t.scheduled, Color::Cyan);
    assert_eq!(t.path_prefix, Color::DarkGray);
    assert_eq!(t.background, Color::Reset);
}

#[test]
fn resolve_from_path_prefix_override() {
    let cfg = ThemeConfig {
        path_prefix: Some("blue".into()),
        ..ThemeConfig::default()
    };
    let t = Theme::resolve_from(Some(&cfg));
    assert_eq!(t.path_prefix, Color::Blue);
    assert_eq!(t.muted, Color::DarkGray);
}

#[test]
fn resolve_from_background_override() {
    let cfg = ThemeConfig {
        background: Some("#1a1b26".into()),
        ..ThemeConfig::default()
    };
    assert_eq!(
        Theme::resolve_from(Some(&cfg)).background,
        Color::Rgb(0x1a, 0x1b, 0x26)
    );

    let cfg_default = ThemeConfig {
        background: Some("default".into()),
        ..ThemeConfig::default()
    };
    assert_eq!(
        Theme::resolve_from(Some(&cfg_default)).background,
        Color::Reset
    );
}

#[test]
fn resolve_from_bad_value_falls_back() {
    let cfg = ThemeConfig {
        accent: Some("mauve".into()),
        ..ThemeConfig::default()
    };
    let t = Theme::resolve_from(Some(&cfg));
    assert_eq!(t.accent, Color::Cyan);
    assert_eq!(t.warning, Color::Yellow);
}

#[test]
fn resolve_from_hex_override() {
    let cfg = ThemeConfig {
        accent: Some("#ff6600".into()),
        ..ThemeConfig::default()
    };
    let t = Theme::resolve_from(Some(&cfg));
    assert_eq!(t.accent, Color::Rgb(255, 102, 0));
}

#[test]
fn resolve_from_terminal_default() {
    let cfg = ThemeConfig {
        accent: Some("default".into()),
        ..ThemeConfig::default()
    };
    let t = Theme::resolve_from(Some(&cfg));
    assert_eq!(t.accent, Color::Reset);
}

#[test]
fn density_compact_is_zero_blank_lines() {
    assert_eq!(DensityPreset::Compact.blank_lines(), 0);
}

#[test]
fn density_comfortable_is_one_blank_line() {
    assert_eq!(DensityPreset::Comfortable.blank_lines(), 1);
}

#[test]
fn density_spacious_is_two_blank_lines() {
    assert_eq!(DensityPreset::Spacious.blank_lines(), 2);
}

#[test]
fn layout_resolve_from_none_uses_all_defaults() {
    let lp = LayoutPrefs::resolve_from(None);
    assert_eq!(lp, LayoutPrefs::default());
}

#[test]
fn resolve_from_compact_density() {
    let cfg = UiConfig {
        list_pane_percent: None,
        list_density: Some(DensityPreset::Compact),
        context_wrap: None,
    };
    let lp = LayoutPrefs::resolve_from(Some(&cfg));
    assert_eq!(lp.list_density, 0);
    assert_eq!(lp.list_pane_percent, 50);
    assert!(!lp.context_wrap);
}

#[test]
fn resolve_from_comfortable_density() {
    let cfg = UiConfig {
        list_pane_percent: None,
        list_density: Some(DensityPreset::Comfortable),
        context_wrap: None,
    };
    let lp = LayoutPrefs::resolve_from(Some(&cfg));
    assert_eq!(lp.list_density, 1);
}

#[test]
fn resolve_from_spacious_density() {
    let cfg = UiConfig {
        list_pane_percent: None,
        list_density: Some(DensityPreset::Spacious),
        context_wrap: None,
    };
    let lp = LayoutPrefs::resolve_from(Some(&cfg));
    assert_eq!(lp.list_density, 2);
}

#[test]
fn resolve_from_pane_percent_accepted() {
    let cfg = UiConfig {
        list_pane_percent: Some(65),
        list_density: None,
        context_wrap: None,
    };
    let lp = LayoutPrefs::resolve_from(Some(&cfg));
    assert_eq!(lp.list_pane_percent, 65);
}

#[test]
fn resolve_from_pane_percent_clamps_low_to_20() {
    let cfg = UiConfig {
        list_pane_percent: Some(5),
        list_density: None,
        context_wrap: None,
    };
    let lp = LayoutPrefs::resolve_from(Some(&cfg));
    assert_eq!(lp.list_pane_percent, 20);
}

#[test]
fn resolve_from_pane_percent_clamps_high_to_80() {
    let cfg = UiConfig {
        list_pane_percent: Some(95),
        list_density: None,
        context_wrap: None,
    };
    let lp = LayoutPrefs::resolve_from(Some(&cfg));
    assert_eq!(lp.list_pane_percent, 80);
}

#[test]
fn resolve_from_context_wrap_false() {
    let cfg = UiConfig {
        list_pane_percent: None,
        list_density: None,
        context_wrap: Some(false),
    };
    let lp = LayoutPrefs::resolve_from(Some(&cfg));
    assert!(!lp.context_wrap);
}

#[test]
fn resolve_from_context_wrap_true() {
    let cfg = UiConfig {
        list_pane_percent: None,
        list_density: None,
        context_wrap: Some(true),
    };
    let lp = LayoutPrefs::resolve_from(Some(&cfg));
    assert!(lp.context_wrap);
}

#[test]
fn priority_sort_rank_orders_by_importance() {
    assert_eq!(priority_sort_rank("Highest"), 0);
    assert_eq!(priority_sort_rank("High"), 1);
    assert_eq!(priority_sort_rank("Medium"), 2);
    assert_eq!(priority_sort_rank("Low"), 3);
    assert_eq!(priority_sort_rank("Lowest"), 4);
    assert_eq!(priority_sort_rank("(no priority)"), 5);
}

#[test]
fn malformed_hex_is_no_colour() {
    for s in ["#+f+f+f", "#++f", "#-1-1-1", "#12345", "#1234567", "#", "# 12", "#ééé", "#gg0000"] {
        assert_eq!(parse_color(s), None, "{s}");
    }
    assert_eq!(parse_color("#aBc"), Some(Color::Rgb(0xaa, 0xbb, 0xcc)));
}

#[test]
fn colour_names_are_those_of_ratatui() {
    let plain = [
        "reset", "black", "red", "green", "yellow", "blue", "magenta", "cyan", "gray", "grey",
        "silver", "white", "orange", "dark", "light",
    ];
    let mut names: Vec<String> = Vec::new();
    for name in plain {
        names.push(name.to_string());
        names.push(name.to_uppercase());
        for prefix in ["light", "bright", "dark", "Light", "BRIGHT"] {
            for joint in ["", " ", "-", "_"] {
                names.push(format!("{prefix}{joint}{name}"));
            }
        }
    }
    for name in names {
        let expected: Result<ratatui::style::Color, _> = name.parse();
        let got = parse_color(&name).map(|c| format!("{c:?}"));
        assert_eq!(got, expected.ok().map(|c| format!("{c:?}")), "{name}");
    }
}
