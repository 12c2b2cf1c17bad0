//! The gestures that change the state alone.

use taski_tui::app::App;
use taski_tui::grouping::{GroupBy, StatusFilter};
use taski_tui::listing::DisplayRow;
use taski_tui::model::ToggleMode;
use taski_tui::task::{Priority, Status, Task};

fn task(id: i64, raw: &str, line: usize, note: &str) -> Task {
    Task {
        id,
        note_path: note.to_string(),
        line_number: line,
        indent: 0,
        text: format!("task {id}"),
        status: Status::from_checkbox_char(raw),
        raw_checkbox_char: raw.to_string(),
        due_date: None,
        scheduled_date: None,
        tags: Vec::new(),
        priority: None,
    }
}

fn task_with_due(id: i64, raw: &str, line: usize, note: &str, due: &str) -> Task {
    let mut t = task(id, raw, line, note);
    t.due_date = Some(due.to_string());
    t
}

fn task_with_scheduled(id: i64, raw: &str, line: usize, note: &str, sched: &str) -> Task {
    let mut t = task(id, raw, line, note);
    t.scheduled_date = Some(sched.to_string());
    t
}

fn task_with_tags(id: i64, raw: &str, line: usize, note: &str, tags: &[&str]) -> Task {
    let mut t = task(id, raw, line, note);
    t.tags = tags.iter().map(|s| s.to_string()).collect();
    t
}

fn task_with_priority(id: i64, raw: &str, line: usize, note: &str, p: Priority) -> Task {
    let mut t = task(id, raw, line, note);
    t.priority = Some(p);
    t
}

fn header(row: &DisplayRow) -> (&str, usize, usize, bool) {
    match row {
        DisplayRow::Header {
            group_key,
            open_count,
            total_count,
            collapsed,
        } => (group_key, *open_count, *total_count, *collapsed),
        _ => panic!("expected a header row"),
    }
}

fn new_app() -> App {
    App::new("2026-06-25".to_string())
}

/// A state with `n` open tasks (lines 1..=n) in one note, the group unfolded and the given row under
/// the cursor. Row 0 is the header.
fn app_with_expanded_note(note: &str, n: usize, select_task_idx: usize) -> App {
    let mut app = new_app();
    app.tasks = (1..=n).map(|i| task(i as i64, " ", i, note)).collect();
    app.rebuild();
    app.expand_all();
    app.state.select(Some(select_task_idx));
    app
}

/// The ids of the task rows, top to bottom.
fn task_row_ids(app: &App) -> Vec<i64> {
    app.rows
        .iter()
        .filter_map(|r| match r {
            DisplayRow::Task { task } => Some(task.id),
            _ => None,
        })
        .collect()
}

#[test]
fn move_task_bubbles_and_clamps() {
    let mut app = app_with_expanded_note("inbox.md", 3, 1);
    app.start_move();
    assert!(app.moving, "entered move mode on a flat single-note group");
    assert_eq!(task_row_ids(&app), vec![1, 2, 3]);

    app.move_task(-1);
    assert_eq!(task_row_ids(&app), vec![1, 2, 3]);
    assert_eq!(app.state.selected(), Some(1));

    app.move_task(1);
    assert_eq!(task_row_ids(&app), vec![2, 1, 3]);
    assert_eq!(app.state.selected(), Some(2));

    app.move_task(1);
    assert_eq!(task_row_ids(&app), vec![2, 3, 1]);
    app.move_task(1);
    assert_eq!(task_row_ids(&app), vec![2, 3, 1], "clamped at the bottom");
}

#[test]
fn cancel_move_restores_original_order() {
    let mut app = app_with_expanded_note("inbox.md", 3, 1);
    app.start_move();
    app.move_task(1);
    app.move_task(1);
    assert_eq!(task_row_ids(&app), vec![2, 3, 1]);

    app.cancel_move();
    assert!(!app.moving, "cancel exits move mode");
    assert_eq!(task_row_ids(&app), vec![1, 2, 3], "original order restored");
    assert_eq!(app.state.selected(), Some(1));
}

#[test]
fn start_move_refused_on_note_with_subtasks() {
    let mut app = new_app();
    let mut child = task(2, " ", 2, "inbox.md");
    child.indent = 4;
    app.tasks = vec![task(1, " ", 1, "inbox.md"), child];
    app.rebuild();
    app.expand_all();
    app.state.select(Some(1));

    app.start_move();
    assert!(
        !app.moving,
        "flat-only: a note with subtasks refuses move mode"
    );
    assert!(app.notice.is_some(), "a notice explains the refusal");
}

#[test]
fn start_move_noop_on_header() {
    let mut app = app_with_expanded_note("inbox.md", 2, 0);
    app.start_move();
    assert!(!app.moving, "no move mode when the cursor is on a header");
}

#[test]
fn selected_task_resolves_to_underlying_task() {
    let mut app = new_app();
    app.tasks = vec![
        task(1, " ", 1, "alpha.md"),
        task(2, " ", 2, "alpha.md"),
        task(3, " ", 1, "beta.md"),
    ];
    app.expanded.insert("alpha.md".to_string());
    app.rebuild();
    app.state.select(Some(2));
    assert_eq!(app.selected_task().map(|t| t.id), Some(2));
    app.state.select(Some(3));
    assert!(app.selected_task().is_none());
}

#[test]
fn collapse_lands_selection_on_group_header() {
    let mut app = new_app();
    app.tasks = vec![
        task(1, " ", 1, "alpha.md"),
        task(2, " ", 2, "alpha.md"),
        task(3, " ", 1, "beta.md"),
    ];
    app.expanded.insert("alpha.md".to_string());
    app.rebuild();
    app.state.select(Some(2));
    app.toggle_at_cursor(ToggleMode::Collapse);
    assert_eq!(app.rows.len(), 2);
    assert_eq!(app.state.selected(), Some(0));
    assert!(matches!(app.rows[0], DisplayRow::Header { .. }));
}

#[test]
fn cycle_filter_keeps_cursor_in_note() {
    let mut app = new_app();
    app.tasks = vec![task(1, " ", 1, "alpha.md"), task(2, "x", 2, "alpha.md")];
    app.expanded.insert("alpha.md".to_string());
    app.rebuild();
    assert_eq!(app.filter, StatusFilter::Open);
    app.state.select(Some(1));
    assert_eq!(app.selected_task().map(|t| t.id), Some(1));

    app.cycle_filter();
    assert_eq!(app.filter, StatusFilter::Done);
    assert_eq!(app.state.selected(), Some(0));
    assert!(matches!(app.rows[0], DisplayRow::Header { .. }));

    app.cycle_filter();
    assert_eq!(app.filter, StatusFilter::All);
    assert_eq!(app.state.selected(), Some(0));
}

#[test]
fn toggle_header_flips_its_group_only() {
    let mut app = new_app();
    app.tasks = vec![task(1, " ", 1, "alpha.md"), task(2, " ", 1, "beta.md")];
    app.rebuild();
    app.state.select(Some(0));
    app.toggle_at_cursor(ToggleMode::Toggle);
    assert_eq!(app.rows.len(), 3, "alpha now shows its task row");
    assert!(matches!(app.rows[1], DisplayRow::Task { .. }));
    assert_eq!(
        app.state.selected(),
        Some(0),
        "cursor stays on alpha header"
    );
    assert!(matches!(app.rows[2], DisplayRow::Header { collapsed, .. } if collapsed));
}

#[test]
fn expand_all_and_collapse_all() {
    let mut app = new_app();
    app.tasks = vec![task(1, " ", 1, "alpha.md"), task(2, " ", 1, "beta.md")];
    app.rebuild();
    assert_eq!(app.rows.len(), 2, "collapsed by default");

    app.expand_all();
    assert_eq!(app.rows.len(), 4, "two headers + two task rows");

    app.collapse_all();
    assert_eq!(app.rows.len(), 2, "back to two headers");
}

#[test]
fn scroll_context_adjusts_and_resets_on_navigation() {
    let mut app = new_app();
    app.tasks = vec![task(1, " ", 1, "alpha.md"), task(2, " ", 2, "alpha.md")];
    app.expanded.insert("alpha.md".to_string());
    app.filter = StatusFilter::All;
    app.rebuild();
    app.state.select(Some(1));

    app.scroll_context(3);
    assert_eq!(app.ctx_scroll, 3);
    app.scroll_context(-1);
    assert_eq!(app.ctx_scroll, 2);

    app.ctx_scroll = i32::MAX;
    app.scroll_context(1);
    assert_eq!(app.ctx_scroll, i32::MAX);
    app.ctx_scroll = i32::MIN;
    app.scroll_context(-1);
    assert_eq!(app.ctx_scroll, i32::MIN);

    for reset_in in ["move", "filter", "collapse", "expand"] {
        app.ctx_scroll = 5;
        match reset_in {
            "move" => app.move_selection(-1),
            "filter" => app.cycle_filter(),
            "collapse" => app.collapse_all(),
            "expand" => app.expand_all(),
            _ => unreachable!(),
        }
        assert_eq!(app.ctx_scroll, 0, "{reset_in} should recenter the pane");
    }
}

#[test]
fn toggle_pane_flips_visibility() {
    let mut app = new_app();
    assert!(app.pane_visible, "pane is visible by default");
    app.toggle_pane();
    assert!(!app.pane_visible);
    app.toggle_pane();
    assert!(app.pane_visible);
}

#[test]
fn toggle_today_off_shows_all_tasks() {
    let mut app = new_app();
    app.today = "2026-06-20".to_string();
    app.filter = StatusFilter::All;
    app.tasks = vec![
        task_with_scheduled(1, " ", 1, "alpha.md", "2026-06-20"),
        task(2, " ", 1, "beta.md"),
    ];
    app.expanded.insert("alpha.md".to_string());
    app.expanded.insert("beta.md".to_string());
    app.rebuild();
    assert!(!app.today_only);
    let off_count = app.rows.len();

    app.toggle_today();
    assert!(app.today_only);
    let today_rows: Vec<_> = app
        .rows
        .iter()
        .filter(|r| matches!(r, DisplayRow::Task { .. }))
        .collect();
    assert_eq!(today_rows.len(), 1);
    assert!(matches!(&today_rows[0], DisplayRow::Task { task } if task.id == 1));

    app.toggle_today();
    assert!(!app.today_only);
    assert_eq!(app.rows.len(), off_count);
}

#[test]
fn toggle_overdue_flips_state_and_rebuilds() {
    let mut app = new_app();
    app.today = "2026-06-20".to_string();
    app.filter = StatusFilter::All;
    app.tasks = vec![
        task_with_due(1, " ", 1, "alpha.md", "2026-06-18"),
        task_with_due(2, " ", 1, "beta.md", "2026-06-22"),
    ];
    app.expanded.insert("alpha.md".to_string());
    app.expanded.insert("beta.md".to_string());
    app.rebuild();
    assert!(!app.overdue_only);
    let off_count = app.rows.len();

    app.toggle_overdue();
    assert!(app.overdue_only);
    let overdue_rows: Vec<_> = app
        .rows
        .iter()
        .filter(|r| matches!(r, DisplayRow::Task { .. }))
        .collect();
    assert_eq!(overdue_rows.len(), 1);
    assert!(matches!(
        &overdue_rows[0],
        DisplayRow::Task { task } if task.id == 1
    ));

    app.toggle_overdue();
    assert!(!app.overdue_only);
    assert_eq!(app.rows.len(), off_count);
}

#[test]
fn clear_search_restores_full_list() {
    let mut app = new_app();
    let with_text = |id: i64, text: &str| -> Task {
        let mut t = task(id, " ", id as usize, "alpha.md");
        t.text = text.to_string();
        t
    };
    app.tasks = vec![
        with_text(1, "deploy the migration"),
        with_text(2, "write documentation"),
    ];
    app.filter = StatusFilter::All;
    app.expanded.insert("alpha.md".to_string());
    app.rebuild();
    assert_eq!(app.rows.len(), 3, "full list: header + two tasks");

    app.search_query = "deploy".to_string();
    app.rebuild();
    assert_eq!(app.rows.len(), 2, "filtered: header + one task");

    app.clear_search();
    assert!(!app.searching);
    assert!(app.search_query.is_empty());
    assert_eq!(app.rows.len(), 3, "full list restored after clear");
}

#[test]
fn clear_file_search_restores_full_list() {
    let mut app = new_app();
    let with_text = |id: i64, text: &str, path: &str| -> Task {
        let mut t = task(id, " ", id as usize, path);
        t.text = text.to_string();
        t
    };
    app.tasks = vec![
        with_text(1, "deploy the migration", "alpha.md"),
        with_text(2, "write documentation", "beta.md"),
    ];
    app.filter = StatusFilter::All;
    app.expanded.insert("alpha.md".to_string());
    app.expanded.insert("beta.md".to_string());
    app.rebuild();
    assert_eq!(app.rows.len(), 4, "full list: two headers + two tasks");

    app.file_query = "alpha".to_string();
    app.rebuild();
    assert_eq!(app.rows.len(), 2, "filtered: alpha header + its task");

    app.clear_file_search();
    assert!(!app.file_searching);
    assert!(app.file_query.is_empty());
    assert_eq!(app.rows.len(), 4, "full list restored after clear");
}

#[test]
fn cycle_group_by_advances_axis() {
    let mut app = new_app();
    app.tasks = vec![task_with_tags(1, " ", 1, "a.md", &["work"])];
    app.rebuild();
    assert_eq!(app.group_by, GroupBy::FolderNote);
    assert_eq!(header(&app.rows[0]).0, "a.md");

    app.cycle_group_by();
    assert_eq!(app.group_by, GroupBy::Note);
    assert_eq!(header(&app.rows[0]).0, "a.md");

    app.cycle_group_by();
    assert_eq!(app.group_by, GroupBy::Tag);
    assert_eq!(header(&app.rows[0]).0, "work");
}

#[test]
fn cycle_group_by_wraps_around() {
    let mut app = new_app();
    app.group_by = GroupBy::Folder;
    app.tasks = vec![task(1, " ", 1, "a.md")];
    app.rebuild();
    app.cycle_group_by();
    assert_eq!(app.group_by, GroupBy::FolderNote);
}

#[test]
fn cycle_group_by_does_not_clear_expanded() {
    let mut app = new_app();
    app.tasks = vec![task(1, " ", 1, "sub/a.md")];
    app.expanded.insert("sub/a.md".to_string());
    app.rebuild();
    assert!(app.expanded.contains("sub/a.md"));

    app.cycle_group_by();
    assert!(app.expanded.contains("sub/a.md"));
    assert!(matches!(app.rows[0], DisplayRow::Header { collapsed, .. } if collapsed));
}

#[test]
fn toggle_collapse_from_task_under_tag_axis() {
    let mut app = new_app();
    app.tasks = vec![task_with_tags(1, " ", 1, "a.md", &["work"])];
    app.group_by = GroupBy::Tag;
    app.rebuild();
    app.expanded.insert("work".to_string());
    app.rebuild();
    assert_eq!(app.rows.len(), 2);

    app.state.select(Some(1));
    app.toggle_at_cursor(ToggleMode::Collapse);
    assert!(
        !app.expanded.contains("work"),
        "tag group should be collapsed"
    );
    assert_eq!(app.rows.len(), 1, "only header remains");
}

#[test]
fn toggle_collapse_from_task_under_folder_axis() {
    let mut app = new_app();
    app.tasks = vec![task(1, " ", 1, "projects/a.md")];
    app.group_by = GroupBy::Folder;
    app.rebuild();
    app.expanded.insert("projects".to_string());
    app.rebuild();
    assert_eq!(app.rows.len(), 2);

    app.state.select(Some(1));
    app.toggle_at_cursor(ToggleMode::Collapse);
    assert!(!app.expanded.contains("projects"));
}

#[test]
fn toggle_expand_header_under_tag_axis() {
    let mut app = new_app();
    app.tasks = vec![task_with_tags(1, " ", 1, "a.md", &["work"])];
    app.group_by = GroupBy::Tag;
    app.rebuild();
    assert_eq!(app.rows.len(), 1);

    app.state.select(Some(0));
    app.toggle_at_cursor(ToggleMode::Expand);
    assert!(app.expanded.contains("work"));
    assert_eq!(app.rows.len(), 2, "header + task");
}

#[test]
fn expand_all_under_tag_axis() {
    let mut app = new_app();
    app.tasks = vec![
        task_with_tags(1, " ", 1, "a.md", &["alpha"]),
        task_with_tags(2, " ", 1, "b.md", &["beta"]),
    ];
    app.group_by = GroupBy::Tag;
    app.rebuild();
    assert_eq!(app.rows.len(), 2, "two collapsed tag-headers");

    app.expand_all();
    assert_eq!(app.rows.len(), 4, "two headers + two task rows");
    assert!(app.expanded.contains("alpha"));
    assert!(app.expanded.contains("beta"));
}

#[test]
fn collapse_all_under_priority_axis() {
    let mut app = new_app();
    app.tasks = vec![
        task_with_priority(1, " ", 1, "a.md", Priority::High),
        task_with_priority(2, " ", 1, "b.md", Priority::Low),
    ];
    app.group_by = GroupBy::Priority;
    app.rebuild();
    app.expand_all();
    assert_eq!(app.rows.len(), 4);

    app.collapse_all();
    assert_eq!(app.rows.len(), 2, "back to two headers");
    assert!(app.expanded.is_empty());
}

#[test]
fn app_default_group_by_is_folder_note() {
    let app = new_app();
    assert_eq!(app.group_by, GroupBy::FolderNote);
}

#[test]
fn toggle_help_flips_flag() {
    let mut app = new_app();
    assert!(!app.show_help, "help is hidden by default");
    app.toggle_help();
    assert!(app.show_help);
    app.toggle_help();
    assert!(!app.show_help, "toggling again hides it");
}
