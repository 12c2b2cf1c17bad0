//! The rows of the list, and the cursor among them.

use taski_tui::grouping::{GroupBy, StatusFilter, group_keys, priority_group_label};
use taski_tui::listing::{DisplayRow, KeySet, ListState, build_view, reconcile_view_selection};
use taski_tui::task::{Priority, Status, Task};

fn task(id: i64, raw: &str, line: usize, note: &str) -> Task {
    Task {
        id,
        note_path: note.to_string(),
        line_number: line,
        indent: 0,
        text: format!("task {id}"),
        status: Status::from_checkbox_char(raw),
        raw_checkbox_char: raw.to_string(),
        due_date: None,
        scheduled_date: None,
        tags: Vec::new(),
        priority: None,
    }
}

fn task_with_due(id: i64, raw: &str, line: usize, note: &str, due: &str) -> Task {
    let mut t = task(id, raw, line, note);
    t.due_date = Some(due.to_string());
    t
}

fn task_with_scheduled(id: i64, raw: &str, line: usize, note: &str, sched: &str) -> Task {
    let mut t = task(id, raw, line, note);
    t.scheduled_date = Some(sched.to_string());
    t
}

fn task_with_tags(id: i64, raw: &str, line: usize, note: &str, tags: &[&str]) -> Task {
    let mut t = task(id, raw, line, note);
    t.tags = tags.iter().map(|s| s.to_string()).collect();
    t
}

fn task_with_priority(id: i64, raw: &str, line: usize, note: &str, p: Priority) -> Task {
    let mut t = task(id, raw, line, note);
    t.priority = Some(p);
    t
}

fn header(row: &DisplayRow) -> (&str, usize, usize, bool) {
    match row {
        DisplayRow::Header {
            group_key,
            open_count,
            total_count,
            collapsed,
        } => (group_key, *open_count, *total_count, *collapsed),
        _ => panic!("expected a header row"),
    }
}

fn keys(names: &[&str]) -> KeySet {
    let mut set = KeySet::new();
    for name in names {
        set.insert(name.to_string());
    }
    set
}

#[test]
fn build_view_groups_by_note_with_counts() {
    let tasks = vec![
        task(1, " ", 1, "alpha.md"),
        task(2, "x", 2, "alpha.md"),
        task(3, " ", 1, "beta.md"),
    ];
    let expanded = KeySet::new();
    let rows = build_view(
        &tasks,
        StatusFilter::All,
        &expanded,
        false,
        "",
        "",
        "",
        false,
        GroupBy::FolderNote,
    );
    assert_eq!(rows.len(), 2);
    let (note, open, total, collapsed) = header(&rows[0]);
    assert_eq!(note, "alpha.md");
    assert_eq!(open, 1);
    assert_eq!(total, 2);
    assert!(collapsed, "groups default to collapsed");
    let (note, open, total, _) = header(&rows[1]);
    assert_eq!(note, "beta.md");
    assert_eq!(open, 1);
    assert_eq!(total, 1);
}

#[test]
fn build_view_expanded_emits_task_rows_in_line_order() {
    let tasks = vec![task(1, " ", 1, "alpha.md"), task(2, "x", 2, "alpha.md")];
    let expanded = keys(&["alpha.md"]);
    let rows = build_view(
        &tasks,
        StatusFilter::All,
        &expanded,
        false,
        "",
        "",
        "",
        false,
        GroupBy::FolderNote,
    );
    assert_eq!(rows.len(), 3, "header + two tasks");
    assert!(matches!(rows[0], DisplayRow::Header { .. }));
    assert!(matches!(&rows[1], DisplayRow::Task { task } if task.id == 1));
    assert!(matches!(&rows[2], DisplayRow::Task { task } if task.id == 2));
}

#[test]
fn build_view_open_filter_hides_done_tasks() {
    let tasks = vec![task(1, " ", 1, "alpha.md"), task(2, "x", 2, "alpha.md")];
    let expanded = keys(&["alpha.md"]);
    let rows = build_view(
        &tasks,
        StatusFilter::Open,
        &expanded,
        false,
        "",
        "",
        "",
        false,
        GroupBy::FolderNote,
    );
    assert_eq!(rows.len(), 2, "header + only the open task");
    assert!(matches!(&rows[1], DisplayRow::Task { task } if task.id == 1));
}

#[test]
fn build_view_hides_group_with_no_matching_tasks() {
    let tasks = vec![
        task(1, " ", 1, "alpha.md"),
        task(2, "x", 1, "beta.md"),
    ];
    let expanded = KeySet::new();
    let rows = build_view(
        &tasks,
        StatusFilter::Open,
        &expanded,
        false,
        "",
        "",
        "",
        false,
        GroupBy::FolderNote,
    );
    assert_eq!(rows.len(), 1);
    assert_eq!(header(&rows[0]).0, "alpha.md");
}

#[test]
fn build_view_open_filter_includes_in_progress() {
    let expanded = KeySet::new();

    let in_progress = vec![task(1, "/", 1, "alpha.md")];
    let rows = build_view(
        &in_progress,
        StatusFilter::Open,
        &expanded,
        false,
        "",
        "",
        "",
        false,
        GroupBy::FolderNote,
    );
    assert!(
        !rows.is_empty(),
        "in-progress task is visible under Open filter"
    );
    let h = header(&rows[0]);
    assert_eq!(h.1, 1, "open_count includes the in-progress task");
    assert_eq!(h.2, 1);

    let done = vec![task(2, "x", 1, "alpha.md")];
    let rows = build_view(
        &done,
        StatusFilter::Open,
        &expanded,
        false,
        "",
        "",
        "",
        false,
        GroupBy::FolderNote,
    );
    assert!(rows.is_empty(), "done-only group is hidden under Open");
}

#[test]
fn build_view_preserves_due_date_on_task_row() {
    let tasks = vec![task_with_due(1, " ", 1, "alpha.md", "2026-07-01")];
    let expanded = keys(&["alpha.md"]);
    let rows = build_view(
        &tasks,
        StatusFilter::All,
        &expanded,
        false,
        "",
        "",
        "",
        false,
        GroupBy::FolderNote,
    );
    match &rows[1] {
        DisplayRow::Task { task } => {
            assert_eq!(task.due_date.as_deref(), Some("2026-07-01"));
        }
        _ => panic!("expected a task row"),
    }
}

#[test]
fn reconcile_view_selection_clears_when_empty() {
    let mut state = ListState::default();
    state.select(Some(2));
    reconcile_view_selection(&[], None, None, Some(2), &mut state);
    assert_eq!(state.selected(), None);
}

#[test]
fn reconcile_view_selection_picks_first_when_was_none() {
    let rows = vec![DisplayRow::Header {
        group_key: "a.md".to_string(),
        open_count: 1,
        total_count: 1,
        collapsed: true,
    }];
    let mut state = ListState::default();
    reconcile_view_selection(&rows, None, None, None, &mut state);
    assert_eq!(state.selected(), Some(0));
}

#[test]
fn reconcile_view_selection_follows_visible_task() {
    let rows1 = vec![
        DisplayRow::Header {
            group_key: "a.md".to_string(),
            open_count: 2,
            total_count: 2,
            collapsed: false,
        },
        DisplayRow::Task {
            task: Box::new(task(10, " ", 1, "a.md")),
        },
        DisplayRow::Task {
            task: Box::new(task(11, " ", 2, "a.md")),
        },
    ];
    let mut state = ListState::default();
    state.select(Some(2));

    let rows2 = vec![
        DisplayRow::Header {
            group_key: "a.md".to_string(),
            open_count: 1,
            total_count: 1,
            collapsed: false,
        },
        DisplayRow::Task {
            task: Box::new(task(11, " ", 2, "a.md")),
        },
    ];
    reconcile_view_selection(&rows2, Some("a.md"), Some(11), Some(2), &mut state);
    assert_eq!(
        state.selected(),
        Some(1),
        "should follow task 11 to its new index"
    );
    let _ = rows1;
}

#[test]
fn today_only_keeps_only_scheduled_today_tasks() {
    let tasks = vec![
        task_with_scheduled(1, " ", 1, "alpha.md", "2026-06-20"),
        task_with_scheduled(2, " ", 1, "beta.md", "2026-06-21"),
        task(3, " ", 1, "gamma.md"),
    ];
    let expanded = KeySet::new();
    let rows = build_view(
        &tasks,
        StatusFilter::All,
        &expanded,
        true,
        "2026-06-20",
        "",
        "",
        false,
        GroupBy::FolderNote,
    );
    assert_eq!(rows.len(), 1);
    assert_eq!(header(&rows[0]).0, "alpha.md");
}

#[test]
fn today_only_composes_with_status_filter() {
    let tasks = vec![
        task_with_scheduled(1, " ", 1, "alpha.md", "2026-06-20"),
        task_with_scheduled(2, "x", 2, "alpha.md", "2026-06-20"),
    ];
    let expanded = keys(&["alpha.md"]);
    let rows = build_view(
        &tasks,
        StatusFilter::Open,
        &expanded,
        true,
        "2026-06-20",
        "",
        "",
        false,
        GroupBy::FolderNote,
    );
    assert_eq!(rows.len(), 2, "header + one task");
    assert!(matches!(&rows[1], DisplayRow::Task { task } if task.id == 1));
    let rows = build_view(
        &tasks,
        StatusFilter::All,
        &expanded,
        true,
        "2026-06-20",
        "",
        "",
        false,
        GroupBy::FolderNote,
    );
    assert_eq!(rows.len(), 3, "header + two tasks");
}

#[test]
fn today_only_hides_group_with_no_today_task() {
    let tasks = vec![
        task_with_scheduled(1, " ", 1, "alpha.md", "2026-06-20"),
        task(2, " ", 1, "beta.md"),
    ];
    let expanded = KeySet::new();
    let rows = build_view(
        &tasks,
        StatusFilter::All,
        &expanded,
        true,
        "2026-06-20",
        "",
        "",
        false,
        GroupBy::FolderNote,
    );
    assert_eq!(rows.len(), 1);
    assert_eq!(header(&rows[0]).0, "alpha.md");
}

#[test]
fn today_only_also_keeps_due_today_tasks() {
    let tasks = vec![
        task_with_due(1, " ", 1, "alpha.md", "2026-06-20"),
        task_with_due(2, " ", 1, "beta.md", "2026-06-21"),
        task_with_due(3, " ", 1, "gamma.md", "2026-06-19"),
        task(4, " ", 1, "delta.md"),
    ];
    let expanded = KeySet::new();
    let rows = build_view(
        &tasks,
        StatusFilter::All,
        &expanded,
        true,
        "2026-06-20",
        "",
        "",
        false,
        GroupBy::FolderNote,
    );
    assert_eq!(rows.len(), 1);
    assert_eq!(header(&rows[0]).0, "alpha.md");
}

#[test]
fn today_only_keeps_both_scheduled_today_and_due_today() {
    let tasks = vec![
        task_with_scheduled(1, " ", 1, "alpha.md", "2026-06-20"),
        task_with_due(2, " ", 2, "alpha.md", "2026-06-20"),
        task(3, " ", 3, "alpha.md"),
    ];
    let expanded = keys(&["alpha.md"]);
    let rows = build_view(
        &tasks,
        StatusFilter::All,
        &expanded,
        true,
        "2026-06-20",
        "",
        "",
        false,
        GroupBy::FolderNote,
    );
    assert_eq!(rows.len(), 3, "header + the two today tasks");
    let ids: Vec<i64> = rows
        .iter()
        .filter_map(|r| match r {
            DisplayRow::Task { task } => Some(task.id),
            _ => None,
        })
        .collect();
    assert_eq!(ids, vec![1, 2]);
}

#[test]
fn today_only_single_task_with_both_dates_appears_once() {
    let mut t = task_with_scheduled(1, " ", 1, "alpha.md", "2026-06-20");
    t.due_date = Some("2026-06-20".to_string());
    let tasks = vec![t, task(2, " ", 2, "alpha.md")];
    let expanded = keys(&["alpha.md"]);
    let rows = build_view(
        &tasks,
        StatusFilter::All,
        &expanded,
        true,
        "2026-06-20",
        "",
        "",
        false,
        GroupBy::FolderNote,
    );
    assert_eq!(rows.len(), 2);
    let ids: Vec<i64> = rows
        .iter()
        .filter_map(|r| match r {
            DisplayRow::Task { task } => Some(task.id),
            _ => None,
        })
        .collect();
    assert_eq!(ids, vec![1]);
}

#[test]
fn overdue_only_keeps_past_due_tasks() {
    let tasks = vec![
        task_with_due(1, " ", 1, "alpha.md", "2026-06-18"),
        task_with_due(2, " ", 1, "beta.md", "2026-06-20"),
        task_with_due(3, " ", 1, "gamma.md", "2026-06-22"),
    ];
    let expanded = KeySet::new();
    let rows = build_view(
        &tasks,
        StatusFilter::All,
        &expanded,
        false,
        "2026-06-20",
        "",
        "",
        true,
        GroupBy::FolderNote,
    );
    assert_eq!(rows.len(), 1);
    assert_eq!(header(&rows[0]).0, "alpha.md");
}

#[test]
fn overdue_only_excludes_future_today_and_no_due() {
    let tasks = vec![
        task_with_due(1, " ", 1, "alpha.md", "2026-06-20"),
        task_with_due(2, " ", 1, "beta.md", "2026-06-22"),
        task(3, " ", 1, "gamma.md"),
    ];
    let expanded = KeySet::new();
    let rows = build_view(
        &tasks,
        StatusFilter::All,
        &expanded,
        false,
        "2026-06-20",
        "",
        "",
        true,
        GroupBy::FolderNote,
    );
    assert!(rows.is_empty(), "none are past-due");
}

#[test]
fn overdue_only_off_shows_all() {
    let tasks = vec![
        task_with_due(1, " ", 1, "alpha.md", "2026-06-18"),
        task_with_due(2, " ", 1, "beta.md", "2026-06-22"),
        task(3, " ", 1, "gamma.md"),
    ];
    let expanded = KeySet::new();
    let rows = build_view(
        &tasks,
        StatusFilter::All,
        &expanded,
        false,
        "2026-06-20",
        "",
        "",
        false,
        GroupBy::FolderNote,
    );
    assert_eq!(rows.len(), 3, "all three note headers visible");
}

#[test]
fn overdue_only_composes_with_status_filter() {
    let tasks = vec![
        task_with_due(1, " ", 1, "alpha.md", "2026-06-18"),
        task_with_due(2, "x", 2, "alpha.md", "2026-06-18"),
    ];
    let expanded = keys(&["alpha.md"]);

    let rows = build_view(
        &tasks,
        StatusFilter::Open,
        &expanded,
        false,
        "2026-06-20",
        "",
        "",
        true,
        GroupBy::FolderNote,
    );
    assert_eq!(rows.len(), 2, "header + one open past-due task");
    assert!(matches!(&rows[1], DisplayRow::Task { task } if task.id == 1));

    let rows = build_view(
        &tasks,
        StatusFilter::Done,
        &expanded,
        false,
        "2026-06-20",
        "",
        "",
        true,
        GroupBy::FolderNote,
    );
    assert_eq!(rows.len(), 2, "header + one done past-due task");
    assert!(matches!(&rows[1], DisplayRow::Task { task } if task.id == 2));
}

#[test]
fn overdue_only_orthogonal_to_today_filter() {
    let mut t = task_with_due(1, " ", 1, "alpha.md", "2026-06-18");
    t.scheduled_date = Some("2026-06-20".to_string());
    let tasks = vec![
        t,
        task_with_due(2, " ", 2, "alpha.md", "2026-06-18"),
        task_with_scheduled(3, " ", 3, "alpha.md", "2026-06-20"),
    ];
    let expanded = keys(&["alpha.md"]);

    let rows = build_view(
        &tasks,
        StatusFilter::All,
        &expanded,
        true,
        "2026-06-20",
        "",
        "",
        true,
        GroupBy::FolderNote,
    );
    assert_eq!(rows.len(), 2, "header + one task matching both filters");
    assert!(matches!(&rows[1], DisplayRow::Task { task } if task.id == 1));
}

#[test]
fn build_view_search_filters_by_text_substring() {
    let with_text = |id: i64, text: &str| -> Task {
        let mut t = task(id, " ", id as usize, "alpha.md");
        t.text = text.to_string();
        t
    };
    let tasks = vec![
        with_text(1, "deploy the database migration"),
        with_text(2, "write documentation for the API"),
        with_text(3, "review deployment checklist"),
    ];
    let expanded = keys(&["alpha.md"]);

    let rows = build_view(
        &tasks,
        StatusFilter::All,
        &expanded,
        false,
        "",
        "deploy",
        "",
        false,
        GroupBy::FolderNote,
    );
    assert_eq!(rows.len(), 3, "header + two matching tasks");
    let task_ids: Vec<i64> = rows
        .iter()
        .filter_map(|r| match r {
            DisplayRow::Task { task } => Some(task.id),
            _ => None,
        })
        .collect();
    assert_eq!(task_ids, vec![1, 3], "tasks 1 and 3 should match 'deploy'");
}

#[test]
fn build_view_search_case_insensitive() {
    let with_text = |id: i64, text: &str| -> Task {
        let mut t = task(id, " ", id as usize, "alpha.md");
        t.text = text.to_string();
        t
    };
    let tasks = vec![
        with_text(1, "Deploy the database"),
        with_text(2, "write documentation"),
    ];
    let expanded = keys(&["alpha.md"]);

    let rows = build_view(
        &tasks,
        StatusFilter::All,
        &expanded,
        false,
        "",
        "DEPLOY",
        "",
        false,
        GroupBy::FolderNote,
    );
    assert_eq!(rows.len(), 2, "header + one matching task");
}

#[test]
fn build_view_file_search_matches_note_path() {
    let tasks = vec![
        task(1, " ", 1, "deployment-notes.md"),
        task(2, " ", 2, "daily.md"),
    ];
    let expanded = KeySet::new();
    let rows = build_view(
        &tasks,
        StatusFilter::All,
        &expanded,
        false,
        "",
        "",
        "deploy",
        false,
        GroupBy::FolderNote,
    );
    assert_eq!(
        rows.len(),
        1,
        "only the deployment-notes.md group should match"
    );
    assert_eq!(
        header(&rows[0]).0,
        "deployment-notes.md",
        "should match by note_path"
    );
}

#[test]
fn build_view_empty_search_shows_all() {
    let tasks = vec![task(1, " ", 1, "alpha.md"), task(2, " ", 2, "alpha.md")];
    let expanded = keys(&["alpha.md"]);
    let rows = build_view(
        &tasks,
        StatusFilter::All,
        &expanded,
        false,
        "",
        "",
        "",
        false,
        GroupBy::FolderNote,
    );
    assert_eq!(rows.len(), 3, "header + two tasks — no filtering");
}

#[test]
fn build_view_search_composes_with_status_filter() {
    let with_text = |id: i64, text: &str, raw: &str| -> Task {
        let mut t = task(id, raw, id as usize, "alpha.md");
        t.text = text.to_string();
        t
    };
    let tasks = vec![
        with_text(1, "deploy the migration", " "),
        with_text(2, "deploy the rollback plan", "x"),
    ];
    let expanded = keys(&["alpha.md"]);

    let rows = build_view(
        &tasks,
        StatusFilter::Open,
        &expanded,
        false,
        "",
        "deploy",
        "",
        false,
        GroupBy::FolderNote,
    );
    assert_eq!(rows.len(), 2, "header + one task (open)");
    assert!(matches!(&rows[1], DisplayRow::Task { task } if task.id == 1));
}

#[test]
fn build_view_search_composes_with_today_filter() {
    let with_text = |id: i64, text: &str, sched: Option<&str>| -> Task {
        let mut t = task(id, " ", id as usize, "alpha.md");
        t.text = text.to_string();
        t.scheduled_date = sched.map(|s| s.to_string());
        t
    };
    let tasks = vec![
        with_text(1, "deploy the migration", Some("2026-06-20")),
        with_text(2, "write documentation", Some("2026-06-20")),
        with_text(3, "review deploy checklist", Some("2026-06-21")),
    ];
    let expanded = keys(&["alpha.md"]);

    let rows = build_view(
        &tasks,
        StatusFilter::All,
        &expanded,
        true,
        "2026-06-20",
        "deploy",
        "",
        false,
        GroupBy::FolderNote,
    );
    assert_eq!(rows.len(), 2, "header + one task (today + search)");
    assert!(matches!(&rows[1], DisplayRow::Task { task } if task.id == 1));
}

#[test]
fn build_view_file_search_case_insensitive() {
    let tasks = vec![
        task(1, " ", 1, "Deployment-Notes.md"),
        task(2, " ", 2, "daily.md"),
    ];
    let expanded = KeySet::new();
    let rows = build_view(
        &tasks,
        StatusFilter::All,
        &expanded,
        false,
        "",
        "",
        "DEPLOYMENT",
        false,
        GroupBy::FolderNote,
    );
    assert_eq!(
        rows.len(),
        1,
        "only the Deployment-Notes.md group should match"
    );
}

#[test]
fn build_view_file_search_narrows_within_text_search() {
    let with_text = |id: i64, text: &str, path: &str| -> Task {
        let mut t = task(id, " ", id as usize, path);
        t.text = text.to_string();
        t
    };
    let tasks = vec![
        with_text(1, "common task", "alpha.md"),
        with_text(2, "common task", "beta.md"),
    ];
    let expanded = keys(&["alpha.md", "beta.md"]);
    let rows = build_view(
        &tasks,
        StatusFilter::All,
        &expanded,
        false,
        "",
        "common",
        "alpha",
        false,
        GroupBy::FolderNote,
    );
    assert_eq!(rows.len(), 2, "alpha header + its task");
}

#[test]
fn build_view_file_search_composes_with_status_filter() {
    let tasks = vec![
        task(1, " ", 1, "alpha.md"),
        task(2, " ", 2, "beta.md"),
        task(3, "x", 3, "beta.md"),
    ];
    let expanded = keys(&["beta.md"]);
    let rows = build_view(
        &tasks,
        StatusFilter::Open,
        &expanded,
        false,
        "",
        "",
        "beta",
        false,
        GroupBy::FolderNote,
    );
    assert_eq!(rows.len(), 2, "beta header + one open task");
    assert!(matches!(&rows[1], DisplayRow::Task { task } if task.id == 2));
}

#[test]
fn build_view_triple_compose_file_text_status() {
    let alpha_task = |id: i64, text: &str, raw: &str| -> Task {
        let mut t = task(id, raw, id as usize, "alpha.md");
        t.text = text.to_string();
        t
    };
    let tasks = vec![
        alpha_task(1, "deploy the migration", " "),
        alpha_task(2, "deploy the rollback", "x"),
        alpha_task(3, "write documentation", " "),
    ];
    let rows = build_view(
        &tasks,
        StatusFilter::Open,
        &keys(&["alpha.md"]),
        false,
        "",
        "deploy",
        "alpha",
        false,
        GroupBy::FolderNote,
    );
    assert_eq!(rows.len(), 2, "header + one task");
    assert!(matches!(&rows[1], DisplayRow::Task { task } if task.id == 1));
}

#[test]
fn group_keys_note_axis_returns_note_path() {
    let t = task(1, " ", 1, "dir/note.md");
    let keys = group_keys(&t, GroupBy::FolderNote);
    assert_eq!(keys, vec!["dir/note.md"]);
}

#[test]
fn group_keys_tag_axis_fans_out() {
    let t = task_with_tags(1, " ", 1, "n.md", &["work", "urgent"]);
    let keys = group_keys(&t, GroupBy::Tag);
    assert_eq!(keys, vec!["work", "urgent"]);
}

#[test]
fn group_keys_tag_axis_untagged_bucket() {
    let t = task(1, " ", 1, "n.md");
    let keys = group_keys(&t, GroupBy::Tag);
    assert_eq!(keys, vec!["(untagged)"]);
}

#[test]
fn group_keys_priority_axis() {
    let t = task_with_priority(1, " ", 1, "n.md", Priority::High);
    let keys = group_keys(&t, GroupBy::Priority);
    assert_eq!(keys, vec!["High"]);
}

#[test]
fn group_keys_priority_axis_no_priority() {
    let t = task(1, " ", 1, "n.md");
    let keys = group_keys(&t, GroupBy::Priority);
    assert_eq!(keys, vec!["(no priority)"]);
}

#[test]
fn group_keys_folder_axis_nested() {
    let t = task(1, " ", 1, "projects/work/note.md");
    let keys = group_keys(&t, GroupBy::Folder);
    assert_eq!(keys, vec!["projects/work"]);
}

#[test]
fn group_keys_folder_axis_root() {
    let t = task(1, " ", 1, "note.md");
    let keys = group_keys(&t, GroupBy::Folder);
    assert_eq!(keys, vec!["(root)"]);
}

#[test]
fn priority_group_label_maps_all_variants() {
    assert_eq!(priority_group_label(Some(&Priority::Highest)), "Highest");
    assert_eq!(priority_group_label(Some(&Priority::High)), "High");
    assert_eq!(priority_group_label(Some(&Priority::Medium)), "Medium");
    assert_eq!(priority_group_label(Some(&Priority::Low)), "Low");
    assert_eq!(priority_group_label(Some(&Priority::Lowest)), "Lowest");
    assert_eq!(
        priority_group_label(Some(&Priority::Other("??".to_string()))),
        "(no priority)"
    );
    assert_eq!(priority_group_label(None), "(no priority)");
}

#[test]
fn group_by_cycles_through_all_axes() {
    assert_eq!(GroupBy::FolderNote.next(), GroupBy::Note);
    assert_eq!(GroupBy::Note.next(), GroupBy::Tag);
    assert_eq!(GroupBy::Tag.next(), GroupBy::Priority);
    assert_eq!(GroupBy::Priority.next(), GroupBy::Folder);
    assert_eq!(GroupBy::Folder.next(), GroupBy::FolderNote);
}

#[test]
fn group_by_labels() {
    assert_eq!(GroupBy::FolderNote.label(), "folder+note");
    assert_eq!(GroupBy::Note.label(), "note");
    assert_eq!(GroupBy::Tag.label(), "tag");
    assert_eq!(GroupBy::Priority.label(), "priority");
    assert_eq!(GroupBy::Folder.label(), "folder");
}

#[test]
fn build_view_tag_axis_groups_by_tag() {
    let tasks = vec![
        task_with_tags(1, " ", 1, "a.md", &["zebra"]),
        task_with_tags(2, " ", 1, "b.md", &["alpha"]),
        task_with_tags(3, " ", 2, "a.md", &["zebra"]),
    ];
    let expanded = KeySet::new();
    let rows = build_view(
        &tasks,
        StatusFilter::All,
        &expanded,
        false,
        "",
        "",
        "",
        false,
        GroupBy::Tag,
    );
    assert_eq!(rows.len(), 2, "two collapsed tag-headers");
    let (key, _, _, _) = header(&rows[0]);
    assert_eq!(key, "alpha");
    let (key, _, total, _) = header(&rows[1]);
    assert_eq!(key, "zebra");
    assert_eq!(total, 2);
}

#[test]
fn build_view_tag_axis_fan_out_multiple_tags() {
    let tasks = vec![task_with_tags(1, " ", 1, "a.md", &["work", "urgent"])];
    let expanded = keys(&["work", "urgent"]);
    let rows = build_view(
        &tasks,
        StatusFilter::All,
        &expanded,
        false,
        "",
        "",
        "",
        false,
        GroupBy::Tag,
    );
    assert_eq!(rows.len(), 4, "2 headers + 2 task rows (same task in both)");
    assert_eq!(header(&rows[0]).0, "urgent");
    assert!(matches!(&rows[1], DisplayRow::Task { task } if task.id == 1));
    assert_eq!(header(&rows[2]).0, "work");
    assert!(matches!(&rows[3], DisplayRow::Task { task } if task.id == 1));
}

#[test]
fn build_view_tag_axis_untagged_bucket() {
    let tasks = vec![
        task(1, " ", 1, "a.md"),
    ];
    let expanded = KeySet::new();
    let rows = build_view(
        &tasks,
        StatusFilter::All,
        &expanded,
        false,
        "",
        "",
        "",
        false,
        GroupBy::Tag,
    );
    assert_eq!(rows.len(), 1);
    assert_eq!(header(&rows[0]).0, "(untagged)");
}

#[test]
fn build_view_priority_axis_sorted_by_importance() {
    let tasks = vec![
        task_with_priority(3, " ", 1, "c.md", Priority::Low),
        task_with_priority(1, " ", 1, "a.md", Priority::Highest),
        task_with_priority(2, " ", 1, "b.md", Priority::Medium),
    ];
    let expanded = KeySet::new();
    let rows = build_view(
        &tasks,
        StatusFilter::All,
        &expanded,
        false,
        "",
        "",
        "",
        false,
        GroupBy::Priority,
    );
    assert_eq!(rows.len(), 3);
    assert_eq!(header(&rows[0]).0, "Highest");
    assert_eq!(header(&rows[1]).0, "Medium");
    assert_eq!(header(&rows[2]).0, "Low");
}

#[test]
fn build_view_priority_axis_no_priority_at_end() {
    let tasks = vec![
        task(1, " ", 1, "a.md"),
        task_with_priority(2, " ", 1, "b.md", Priority::High),
    ];
    let expanded = KeySet::new();
    let rows = build_view(
        &tasks,
        StatusFilter::All,
        &expanded,
        false,
        "",
        "",
        "",
        false,
        GroupBy::Priority,
    );
    assert_eq!(rows.len(), 2);
    assert_eq!(header(&rows[0]).0, "High");
    assert_eq!(header(&rows[1]).0, "(no priority)");
}

#[test]
fn build_view_folder_axis_groups_by_directory() {
    let tasks = vec![
        task(1, " ", 1, "note.md"),
        task(2, " ", 1, "projects/a.md"),
        task(3, " ", 1, "projects/b.md"),
    ];
    let expanded = KeySet::new();
    let rows = build_view(
        &tasks,
        StatusFilter::All,
        &expanded,
        false,
        "",
        "",
        "",
        false,
        GroupBy::Folder,
    );
    assert_eq!(rows.len(), 2);
    assert_eq!(header(&rows[0]).0, "(root)");
    let (key, _, total, _) = header(&rows[1]);
    assert_eq!(key, "projects");
    assert_eq!(total, 2);
}

#[test]
fn build_view_folder_axis_nested_dirs() {
    let tasks = vec![task(1, " ", 1, "a/b/c.md"), task(2, " ", 1, "a/d.md")];
    let expanded = KeySet::new();
    let rows = build_view(
        &tasks,
        StatusFilter::All,
        &expanded,
        false,
        "",
        "",
        "",
        false,
        GroupBy::Folder,
    );
    assert_eq!(rows.len(), 2);
    assert_eq!(header(&rows[0]).0, "a");
    assert_eq!(header(&rows[1]).0, "a/b");
}

#[test]
fn build_view_tag_axis_expanded_shows_tasks() {
    let tasks = vec![
        task_with_tags(1, " ", 1, "a.md", &["work"]),
        task_with_tags(2, " ", 2, "b.md", &["work"]),
    ];
    let expanded = keys(&["work"]);
    let rows = build_view(
        &tasks,
        StatusFilter::All,
        &expanded,
        false,
        "",
        "",
        "",
        false,
        GroupBy::Tag,
    );
    assert_eq!(rows.len(), 3, "header + two tasks");
    assert!(matches!(&rows[1], DisplayRow::Task { task } if task.id == 1));
    assert!(matches!(&rows[2], DisplayRow::Task { task } if task.id == 2));
}

#[test]
fn build_view_tag_axis_status_filter() {
    let tasks = vec![
        task_with_tags(1, " ", 1, "a.md", &["work"]),
        task_with_tags(2, "x", 2, "b.md", &["work"]),
    ];
    let expanded = keys(&["work"]);
    let rows = build_view(
        &tasks,
        StatusFilter::Open,
        &expanded,
        false,
        "",
        "",
        "",
        false,
        GroupBy::Tag,
    );
    assert_eq!(rows.len(), 2, "header + only the open task");
    assert!(matches!(&rows[1], DisplayRow::Task { task } if task.id == 1));
}

#[test]
fn build_view_tag_axis_hides_empty_group() {
    let tasks = vec![
        task_with_tags(1, " ", 1, "a.md", &["work"]),
        task_with_tags(2, "x", 1, "b.md", &["done-only"]),
    ];
    let expanded = KeySet::new();
    let rows = build_view(
        &tasks,
        StatusFilter::Open,
        &expanded,
        false,
        "",
        "",
        "",
        false,
        GroupBy::Tag,
    );
    assert_eq!(rows.len(), 1);
    assert_eq!(header(&rows[0]).0, "work");
}

#[test]
fn build_view_tag_axis_counts_from_full_bucket() {
    let tasks = vec![
        task_with_tags(1, " ", 1, "a.md", &["work"]),
        task_with_tags(2, "x", 2, "b.md", &["work"]),
    ];
    let expanded = KeySet::new();
    let rows = build_view(
        &tasks,
        StatusFilter::All,
        &expanded,
        false,
        "",
        "",
        "",
        false,
        GroupBy::Tag,
    );
    let (_, open, total, _) = header(&rows[0]);
    assert_eq!(open, 1);
    assert_eq!(total, 2);
}

#[test]
fn note_axis_merges_same_filename_across_folders() {
    let tasks = vec![
        task(1, " ", 1, "Work/standup.md"),
        task(2, " ", 1, "Personal/standup.md"),
    ];
    let fk1 = group_keys(&tasks[0], GroupBy::FolderNote);
    let fk2 = group_keys(&tasks[1], GroupBy::FolderNote);
    assert_ne!(fk1, fk2);
    assert_eq!(group_keys(&tasks[0], GroupBy::Note), vec!["standup.md"]);
    assert_eq!(group_keys(&tasks[1], GroupBy::Note), vec!["standup.md"]);

    let rows = build_view(
        &tasks,
        StatusFilter::All,
        &KeySet::new(),
        false,
        "",
        "",
        "",
        false,
        GroupBy::Note,
    );
    let headers: Vec<_> = rows
        .iter()
        .filter(|r| matches!(r, DisplayRow::Header { .. }))
        .collect();
    assert_eq!(headers.len(), 1);
    let (key, _open, total, _collapsed) = header(headers[0]);
    assert_eq!(key, "standup.md");
    assert_eq!(total, 2);
}

#[test]
fn build_view_tag_axis_fan_out_counts() {
    let tasks = vec![
        task_with_tags(1, " ", 1, "a.md", &["work", "urgent"]),
        task_with_tags(2, "x", 2, "b.md", &["work"]),
    ];
    let expanded = KeySet::new();
    let rows = build_view(
        &tasks,
        StatusFilter::All,
        &expanded,
        false,
        "",
        "",
        "",
        false,
        GroupBy::Tag,
    );
    assert_eq!(rows.len(), 2);
    let (key, open, total, _) = header(&rows[0]);
    assert_eq!(key, "urgent");
    assert_eq!(open, 1);
    assert_eq!(total, 1);
    let (key, open, total, _) = header(&rows[1]);
    assert_eq!(key, "work");
    assert_eq!(open, 1);
    assert_eq!(total, 2);
}

#[test]
fn build_view_folder_axis_with_status_filter() {
    let tasks = vec![
        task(1, " ", 1, "projects/a.md"),
        task(2, "x", 2, "projects/b.md"),
    ];
    let expanded = keys(&["projects"]);
    let rows = build_view(
        &tasks,
        StatusFilter::Open,
        &expanded,
        false,
        "",
        "",
        "",
        false,
        GroupBy::Folder,
    );
    assert_eq!(rows.len(), 2, "header + only the open task");
    assert_eq!(header(&rows[0]).0, "projects");
    assert!(matches!(&rows[1], DisplayRow::Task { task } if task.id == 1));
}

#[test]
fn build_view_preserves_task_indent() {
    let mut t1 = task(1, " ", 1, "a.md");
    t1.indent = 0;
    let mut t2 = task(2, " ", 2, "a.md");
    t2.indent = 2;
    let mut t3 = task(3, " ", 3, "a.md");
    t3.indent = 4;
    let tasks = vec![t1, t2, t3];
    let expanded = keys(&["a.md"]);

    let rows = build_view(
        &tasks,
        StatusFilter::All,
        &expanded,
        false,
        "",
        "",
        "",
        false,
        GroupBy::FolderNote,
    );
    assert_eq!(rows.len(), 4, "header + three tasks");
    let indents: Vec<usize> = rows
        .iter()
        .filter_map(|r| match r {
            DisplayRow::Task { task } => Some(task.indent),
            _ => None,
        })
        .collect();
    assert_eq!(indents, vec![0, 2, 4]);
}

#[test]
fn build_view_priority_axis_with_search() {
    let t1 = {
        let mut t = task_with_priority(1, " ", 1, "a.md", Priority::High);
        t.text = "deploy server".to_string();
        t
    };
    let t2 = {
        let mut t = task_with_priority(2, " ", 2, "b.md", Priority::Low);
        t.text = "write docs".to_string();
        t
    };
    let tasks = vec![t1, t2];

    let expanded = KeySet::new();
    let rows = build_view(
        &tasks,
        StatusFilter::All,
        &expanded,
        false,
        "",
        "deploy",
        "",
        false,
        GroupBy::Priority,
    );
    assert_eq!(rows.len(), 1);
    assert_eq!(header(&rows[0]).0, "High");
}
