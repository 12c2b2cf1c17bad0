//! What the screen shows and where.

use taski_tui::app::App;
use taski_tui::context::{draw_context_pane, expand_tabs};
use taski_tui::grouping::StatusFilter;
use taski_tui::help::help_popup;
use taski_tui::layout::{Rect, popup_area};
use taski_tui::rows::row_to_item;
use taski_tui::screen::{Body, draw, lay_out};
use taski_tui::spans::Span;
use taski_tui::task::{NoteContent, Status, Task};
use taski_tui::theme::{Color, LayoutPrefs, Theme};

fn task(id: i64, raw: &str, line: usize, note: &str) -> Task {
    Task {
        id,
        note_path: note.to_string(),
        line_number: line,
        indent: 0,
        text: format!("task {id}"),
        status: Status::from_checkbox_char(raw),
        raw_checkbox_char: raw.to_string(),
        due_date: None,
        scheduled_date: None,
        tags: Vec::new(),
        priority: None,
    }
}

fn app_of(tasks: Vec<Task>) -> App {
    let mut app = App::new("2026-06-20".to_string());
    app.filter = StatusFilter::All;
    app.refresh("2026-06-20".to_string(), tasks);
    app.expand_all();
    app
}

fn area(width: u16, height: u16) -> Rect {
    Rect { x: 0, y: 0, width, height }
}

fn text(line: &[Span]) -> String {
    line.iter().map(|s| s.text.as_str()).collect()
}

#[test]
fn regions_fill_the_screen() {
    let mut app = app_of(vec![task(1, " ", 1, "a.md")]);
    for height in 3..60u16 {
        for notice in [false, true] {
            app.notice = if notice { Some("look".to_string()) } else { None };
            let a = Rect { x: 3, y: 5, width: 50, height };
            let g = lay_out(&app, a);
            let below = if notice { 2 } else { 1 };
            assert_eq!(g.list, Rect { height: height - below, ..a });
            assert_eq!(g.footer, Rect { y: 5 + height - 1, height: 1, ..a });
            let expected = if notice { Some(Rect { y: 5 + height - 2, height: 1, ..a }) } else { None };
            assert_eq!(g.notice, expected);
            assert_eq!(g.context, None, "too narrow for the pane");
        }
    }
}

#[test]
fn the_pane_shares_the_width() {
    let mut app = app_of(vec![task(1, " ", 1, "a.md")]);
    for width in 60..200u16 {
        for percent in (20..=80u16).step_by(5) {
            app.layout.list_pane_percent = percent;
            let a = Rect { x: 7, y: 1, width, height: 10 };
            let g = lay_out(&app, a);
            let list = ((width as u32 * (100 - percent as u32) + 50) / 100) as u16;
            assert_eq!(g.list, Rect { width: list, height: 9, ..a }, "{width} {percent}");
            assert_eq!(
                g.context,
                Some(Rect { x: 7 + list, width: width - list, height: 9, ..a }),
                "{width} {percent}"
            );
        }
    }
}

#[test]
fn the_configured_share_is_that_of_the_context_pane() {
    let mut app = app_of(vec![task(1, " ", 1, "a.md")]);
    app.layout.list_pane_percent = 30;
    let g = lay_out(&app, area(100, 24));
    assert_eq!(g.context, Some(Rect { x: 70, y: 0, width: 30, height: 23 }));
    assert_eq!(g.list, Rect { x: 0, y: 0, width: 70, height: 23 });
}

#[test]
fn a_low_screen_keeps_a_row_of_the_list_then_the_notice() {
    let mut app = app_of(vec![task(1, " ", 1, "a.md")]);
    // Every offset is a split of its own.
    for y in 0..400u16 {
        for (notice, height, list, told, foot) in [
            (false, 0, 0, 0, 0),
            (false, 1, 1, 0, 0),
            (false, 2, 1, 0, 1),
            (true, 0, 0, 0, 0),
            (true, 1, 1, 0, 0),
            (true, 2, 1, 1, 0),
            (true, 3, 1, 1, 1),
        ] {
            app.notice = if notice { Some("look".to_string()) } else { None };
            let a = Rect { x: 1, y, width: 40, height };
            let g = lay_out(&app, a);
            assert_eq!(g.list, Rect { height: list, ..a });
            let expected = if notice { Some(Rect { y: y + list, height: told, ..a }) } else { None };
            assert_eq!(g.notice, expected, "{y} {height}");
            assert_eq!(g.footer, Rect { y: y + list + told, height: foot, ..a });
        }
    }
}

#[test]
fn an_area_ends_where_the_coordinates_do() {
    let app = app_of(vec![task(1, " ", 1, "a.md")]);
    let a = Rect { x: 65435, y: 65530, width: 400, height: 60 };
    let g = lay_out(&app, a);
    assert_eq!(g.list, Rect { x: 65435, y: 65530, width: 50, height: 4 });
    assert_eq!(g.context, Some(Rect { x: 65485, y: 65530, width: 50, height: 4 }));
    assert_eq!(g.footer, Rect { x: 65435, y: 65534, width: 400, height: 1 });
    assert_eq!(popup_area(a, 50, 100), Rect { x: 65460, y: 65530, width: 50, height: 5 });
}

#[test]
fn the_highlight_is_on_the_row_under_the_cursor() {
    let mut app = app_of(vec![
        task(1, " ", 1, "a.md"),
        task(2, " ", 1, "b.md"),
        task(3, " ", 1, "c.md"),
    ]);
    for density in 0..3u8 {
        app.layout.list_density = density;
        for i in 0..app.rows.len() {
            app.state.select(Some(i));
            let expected = row_to_item(&app.rows[i], &app.today, &app.theme, app.group_by);
            match draw(&app, area(80, 24)).body {
                Body::Items { items, selected, .. } => {
                    let n = selected.unwrap();
                    assert_eq!(format!("{:?}", items[n]), format!("{expected:?}"), "{density} {i}");
                    let headers = i / 2;
                    assert_eq!(n, i + density as usize * headers);
                }
                Body::Message(_) => panic!("expected rows"),
            }
        }
    }
}

#[test]
fn a_screen_too_low_still_lays_out() {
    let mut app = app_of(vec![task(1, " ", 1, "a.md")]);
    app.notice = Some("look".to_string());
    app.show_help = true;
    for height in 0..4 {
        for width in [0, 1, 59, 60, 200] {
            let screen = draw(&app, area(width, height));
            assert_eq!(screen.footer_area.width, width);
            assert_eq!(screen.context.is_some(), width >= 60);
            assert_eq!(screen.help.unwrap().title, " Keybindings ");
        }
    }
}

#[test]
fn the_popup_is_centred() {
    for width in 0..150u16 {
        for height in [0, 1, 24, 40, 77] {
            let a = Rect { x: 2, y: 3, width, height };
            let at = |size: u16, percent: u32| ((size as u32 * percent + 50) / 100) as u16;
            let p = popup_area(a, 70, 95);
            assert_eq!(p.x, 2 + at(width, 15));
            assert_eq!(p.width, at(width, 85) - at(width, 15));
            assert_eq!(p.y, 3 + at(height, 2));
            assert_eq!(p.height, at(height, 97) - at(height, 2));
        }
    }
    assert_eq!(popup_area(area(100, 40), 100, 100), area(100, 40));
}

#[test]
fn an_empty_list_says_why() {
    let message = |app: &App| match draw(app, area(80, 24)).body {
        Body::Message(m) => m,
        Body::Items { .. } => panic!("expected no rows"),
    };
    let mut app = app_of(Vec::new());
    assert!(message(&app).starts_with("No tasks — run"));
    app = app_of(vec![task(1, "/", 1, "a.md")]);
    app.filter = StatusFilter::Done;
    app.rebuild();
    assert_eq!(message(&app), "No done tasks. Press `f` to change the filter.");
    app.toggle_overdue();
    assert!(message(&app).starts_with("No overdue tasks"));
    app.toggle_today();
    assert!(message(&app).starts_with("No tasks scheduled or due today."));
    app.push_file_search_char('z');
    assert_eq!(message(&app), "No tasks match the current search.");
    let mut app = app_of(vec![task(1, "x", 1, "a.md")]);
    app.filter = StatusFilter::Open;
    app.rebuild();
    assert_eq!(message(&app), "No open tasks. Press `f` to change the filter.");
}

#[test]
fn the_title_tells_what_narrows_the_list() {
    let mut app = app_of(vec![task(1, " ", 1, "a.md"), task(2, "x", 2, "a.md")]);
    assert_eq!(
        text(&draw(&app, area(80, 24)).title),
        " Taski — filter: all  ·  group: folder+note   1 open of 2 total   ·   1 notes "
    );
    app.toggle_today();
    app.toggle_overdue();
    app.push_search_char('q');
    app.push_file_search_char('w');
    assert_eq!(
        text(&draw(&app, area(80, 24)).title),
        " Taski — filter: all  ·  group: folder+note  ·  today  ·  search: q  ·  file: w  ·  overdue   1 open of 2 total   ·   0 notes "
    );
}

#[test]
fn rows_show_status_dates_and_indent() {
    let mut t = task(1, "/", 1, "Work/a.md");
    t.indent = 2;
    t.due_date = Some("2026-06-19".to_string());
    t.scheduled_date = Some("2026-06-20".to_string());
    let mut app = app_of(vec![t, task(2, "x", 2, "Work/a.md")]);
    app.theme.bold = true;
    let items = match draw(&app, area(80, 24)).body {
        Body::Items { items, selected, highlight } => {
            assert_eq!(selected, Some(0));
            assert!(highlight.modifier.reversed);
            items
        }
        Body::Message(_) => panic!("expected rows"),
    };
    assert_eq!(text(&items[0].line), "▾ Work/a.md   1 open · 2 total");
    assert_eq!(items[0].line[1].text, "Work/");
    assert_eq!(items[0].line[1].style.fg, Some(Color::DarkGray));
    assert!(items[0].line[2].style.modifier.bold);
    assert_eq!(text(&items[1].line), "      [/] task 1  · 2026-06-19  ⏳ 2026-06-20");
    assert_eq!(items[1].line[1].style.fg, Some(Color::Cyan), "in progress");
    let today = &items[1].line[6];
    assert_eq!(today.style.fg, Some(Color::LightCyan));
    assert!(today.style.modifier.bold);
    assert!(items[2].style.modifier.crossed_out && items[2].style.modifier.dim, "done is struck");
    assert_eq!(items[2].line[1].style.fg, Some(Color::Green));
}

#[test]
fn groups_are_set_apart_by_density() {
    let mut app = app_of(vec![task(1, " ", 1, "a.md"), task(2, " ", 1, "b.md")]);
    for (density, expected) in [(0u8, 4usize), (1, 5), (2, 6)] {
        app.layout.list_density = density;
        match draw(&app, area(80, 24)).body {
            Body::Items { items, .. } => {
                assert_eq!(items.len(), expected);
                assert_eq!(text(&items[0].line), "▾ a.md   1 open · 1 total");
                assert!(items[2..2 + density as usize].iter().all(|i| i.line.is_empty()));
            }
            Body::Message(_) => panic!("expected rows"),
        }
    }
}

#[test]
fn the_footer_follows_the_mode() {
    let footer = |app: &App, width: u16| text(&draw(app, area(width, 24)).footer);
    let mut app = app_of(vec![task(1, " ", 1, "a.md")]);
    assert!(footer(&app, 80).contains("help"));
    assert!(draw(&app, area(80, 24)).footer_style.modifier.dim);
    app.start_search();
    app.push_search_char('é');
    assert_eq!(footer(&app, 80), " /é█");
    assert_eq!(footer(&app, 7), " /é█", "two bytes fit beside four columns");
    assert_eq!(footer(&app, 6), " /é", "no room for the cursor");
    app.clear_search();
    app.start_file_search();
    assert_eq!(footer(&app, 80), " File: /█");
    app.clear_file_search();
    app.start_quick_add();
    app.push_quick_add_char('m');
    assert_eq!(footer(&app, 80), " + to task-inbox.md  m█");
    assert_eq!(footer(&app, 13), " + to task-inbox.md  m");
    app.clear_quick_add();
    app.state.select(Some(1));
    app.start_add_note();
    assert_eq!(footer(&app, 80), " note  █");
    app.clear_add_note();
    app.start_move();
    assert!(footer(&app, 80).starts_with(" MOVE    j/k move"));
    assert!(!draw(&app, area(80, 24)).footer_style.modifier.dim);
}

#[test]
fn a_notice_is_shown_where_there_is_one() {
    let mut app = app_of(vec![task(1, " ", 1, "a.md")]);
    assert!(draw(&app, area(80, 24)).notice.is_none());
    app.notice = Some("look".to_string());
    let screen = draw(&app, area(80, 24));
    let (place, line) = screen.notice.unwrap();
    assert_eq!(place, Rect { x: 0, y: 22, width: 80, height: 1 });
    assert_eq!(text(&line), " ⚠  look");
}

fn pane(content: Option<&str>, target: Option<usize>, scroll: i32, height: u16) -> Vec<String> {
    let note = content.map(|c| NoteContent { content: c.to_string() });
    let p = draw_context_pane(
        area(40, height),
        Some("a.md"),
        note.as_ref(),
        target,
        scroll,
        &Theme::default(),
        &LayoutPrefs::default(),
    );
    assert_eq!(text(&p.title), " Context — a.md ");
    p.lines.iter().map(|l| text(l)).collect()
}

#[test]
fn the_pane_shows_the_note_around_the_task() {
    let note = "one\ntwo\n\tthree\nfour\nfive\nsix\nseven\neight\nnine\nten";
    assert_eq!(pane(None, Some(1), 0, 10), vec![" Context not available for this note."]);
    assert_eq!(pane(Some(""), Some(1), 0, 10), vec![" (empty note)"]);
    assert_eq!(
        pane(Some(note), Some(3), 0, 5),
        vec![" 2   two", " 3 ▶     three", " 4   four"],
        "the border takes two rows"
    );
    assert_eq!(pane(Some(note), Some(3), 2, 5), vec![" 4   four", " 5   five", " 6   six"]);
    assert_eq!(pane(Some(note), Some(3), i32::MAX, 5), vec![" 8   eight", " 9   nine", "10   ten"]);
    assert_eq!(pane(Some(note), Some(3), i32::MIN, 5)[0], " 1   one");
    assert_eq!(pane(Some(note), Some(99), 0, 5)[2], "10 ▶ ten", "a stale line is the last");
    assert_eq!(pane(Some(note), None, 0, 4), vec![" 1   one", " 2   two"]);
    assert!(pane(Some(note), Some(3), 0, 2).is_empty());
    assert!(pane(Some(note), Some(3), 0, 0).is_empty());
}

#[test]
fn tabs_end_at_stops() {
    for s in ["", "\t", "a\tb\t", "é\t⏳\tx", "\t\t\t", "abcd\te"] {
        let r = expand_tabs(s);
        assert!(!r.contains('\t'));
        if s.ends_with('\t') {
            assert_eq!(r.chars().count() % 4, 0, "{s:?}");
        }
    }
}

#[test]
fn the_overlay_is_filled_like_the_screen() {
    let mut app = app_of(vec![task(1, " ", 1, "a.md")]);
    app.show_help = true;
    assert_eq!(draw(&app, area(80, 24)).help.unwrap().fill, None);
    app.theme.background = Color::Rgb(26, 27, 38);
    let screen = draw(&app, area(80, 24));
    let overlay = screen.help.unwrap();
    assert_eq!(overlay.fill, Some(Color::Rgb(26, 27, 38)));
    assert_eq!(overlay.fill, screen.background);
    assert_eq!(overlay.area, popup_area(area(80, 24), 70, 95));
    assert_eq!(overlay.lines.len(), 36);
}

#[test]
fn help_lists_every_key() {
    let lines: Vec<String> = help_popup(&Theme::default()).iter().map(|l| text(l)).collect();
    assert_eq!(lines.len(), 36);
    assert_eq!(lines[0], "Navigation");
    assert_eq!(lines[1], " j/k ↑/↓           Move selection up/down");
    assert_eq!(lines[33], " q / Esc / Ctrl-C  Quit");
    assert_eq!(lines[35], " ? / Esc / q to close");
}
