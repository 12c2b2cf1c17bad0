//! Keys, mode by mode, and what holds after any of them.

use taski_tui::actions::{Link, Request, render_failure_notice};
use taski_tui::app::App;
use taski_tui::grouping::{GroupBy, StatusFilter};
use taski_tui::keys::{Effect, KeyCode, KeyEvent, Mode};
use taski_tui::listing::DisplayRow;
use taski_tui::task::{PendingAction, Status, Task};

fn task(id: i64, raw: &str, line: usize, note: &str) -> Task {
    Task {
        id,
        note_path: note.to_string(),
        line_number: line,
        indent: 0,
        text: format!("task {id}"),
        status: Status::from_checkbox_char(raw),
        raw_checkbox_char: raw.to_string(),
        due_date: None,
        scheduled_date: None,
        tags: Vec::new(),
        priority: None,
    }
}

fn three_notes() -> Vec<Task> {
    let mut tagged = task(4, " ", 4, "b.md");
    tagged.tags = vec!["x".to_string(), "y".to_string(), "x".to_string()];
    vec![
        task(1, " ", 1, "a.md"),
        task(2, "x", 2, "a.md"),
        task(3, "/", 3, "a.md"),
        tagged,
        task(5, "-", 5, "b.md"),
        task(6, " ", 6, "dir/c.md"),
    ]
}

/// The three notes, all unfolded, every status shown.
fn browsing() -> App {
    let mut app = App::new("2026-06-20".to_string());
    app.filter = StatusFilter::All;
    app.refresh("2026-06-20".to_string(), three_notes());
    app.expand_all();
    app
}

fn press(app: &mut App, code: KeyCode) -> Effect {
    app.handle_key(KeyEvent { code, ctrl: false, press: true })
}

fn ctrl_c(app: &mut App) -> Effect {
    app.handle_key(KeyEvent { code: KeyCode::Char('c'), ctrl: true, press: true })
}

fn ids(app: &App) -> Vec<i64> {
    app.rows
        .iter()
        .filter_map(|r| match r {
            DisplayRow::Task { task } => Some(task.id),
            _ => None,
        })
        .collect()
}

fn modes_on(app: &App) -> usize {
    [
        app.searching,
        app.file_searching,
        app.quick_adding,
        app.adding_note,
        app.moving,
        app.show_help,
    ]
    .iter()
    .filter(|on| **on)
    .count()
}

#[test]
fn the_list_quits_on_q_esc_and_ctrl_c() {
    for code in [KeyCode::Char('q'), KeyCode::Esc] {
        assert!(matches!(press(&mut browsing(), code), Effect::Quit));
    }
    assert!(matches!(ctrl_c(&mut browsing()), Effect::Quit));
    assert!(matches!(press(&mut browsing(), KeyCode::Char('c')), Effect::Nothing));
}

#[test]
fn ctrl_c_quits_from_any_state() {
    for keys in ["/", "/ab", "F", "Fx", "a", "amilk", "?", "m", ""] {
        let mut app = browsing();
        app.state.select(Some(1));
        for c in keys.chars() {
            press(&mut app, KeyCode::Char(c));
        }
        let before = format!("{app:?}");
        assert!(matches!(ctrl_c(&mut app), Effect::Quit), "{keys:?}");
        assert_eq!(format!("{app:?}"), before, "{keys:?}");
    }
    let mut app = browsing();
    app.state.select(Some(1));
    press(&mut app, KeyCode::Char('n'));
    assert_eq!(app.mode(), Mode::Note);
    assert!(matches!(ctrl_c(&mut app), Effect::Quit));
    assert_eq!(app.note_query, "");
    assert!(matches!(press(&mut app, KeyCode::Char('c')), Effect::Nothing));
    assert_eq!(app.note_query, "c");
}

#[test]
fn folding_lands_on_the_folded_header_on_every_axis() {
    let mut app = App::new("2026-06-20".to_string());
    app.group_by = GroupBy::Folder;
    app.tasks = vec![
        task(1, " ", 1, "p/a.md"),
        task(2, " ", 2, "p/a.md"),
        task(3, " ", 1, "q/b.md"),
    ];
    app.expanded.insert("p".to_string());
    app.rebuild();
    app.state.select(Some(2));
    press(&mut app, KeyCode::Left);
    assert_eq!(app.rows.len(), 2);
    assert!(!app.expanded.contains("p"));
    assert_eq!(app.state.selected(), Some(0));
    assert!(matches!(&app.rows[0], DisplayRow::Header { collapsed: true, .. }));

    for _ in 0..5 {
        press(&mut app, KeyCode::Char('G'));
        press(&mut app, KeyCode::Tab);
        for i in 0..app.rows.len() {
            press(&mut app, KeyCode::Tab);
            app.state.select(Some(i));
            let header = (0..=i)
                .rev()
                .find_map(|j| match &app.rows[j] {
                    DisplayRow::Header { group_key, .. } => Some(group_key.clone()),
                    _ => None,
                })
                .unwrap();
            let fold = if i % 2 == 0 { KeyCode::Left } else { KeyCode::BackTab };
            press(&mut app, fold);
            match &app.rows[app.state.selected().unwrap()] {
                DisplayRow::Header { group_key, collapsed, .. } => {
                    assert_eq!(*group_key, header);
                    assert!(*collapsed);
                }
                _ => panic!("expected a header"),
            }
        }
    }
}

#[test]
fn move_and_archive_are_refused_off_a_task() {
    for key in ['m', 'A'] {
        let mut app = browsing();
        app.state.select(Some(0));
        assert!(matches!(press(&mut app, KeyCode::Char(key)), Effect::Nothing));
        assert!(!app.moving);
        assert!(app.notice.as_deref().unwrap().contains("needs a task under the cursor"));
        let mut empty = App::new("2026-06-20".to_string());
        press(&mut empty, KeyCode::Char(key));
        assert!(!empty.moving);
        assert!(empty.notice.is_some());
    }
}

#[test]
fn every_gesture_has_its_own_retry_key() {
    let notice = |action_type: &str, new_char: &str| {
        render_failure_notice(&PendingAction {
            id: 1,
            action_type: action_type.to_string(),
            note_path: "n.md".to_string(),
            new_char: new_char.to_string(),
            state: "failed".to_string(),
            error: None,
        })
    };
    assert_eq!(
        notice("reorder", ""),
        "Move not applied — it could not be applied (n.md). Press m to try again."
    );
    for (action_type, new_char, key) in [
        ("checkbox", "x", "Space"),
        ("checkbox", " ", "Space"),
        ("checkbox", "-", "d"),
        ("checkbox", "/", "i"),
        ("set_scheduled", "", "t"),
        ("toggle_bullet", "", "b"),
        ("quick_add", "", "a"),
        ("quick_add_undo", "", "u"),
        ("add_note", "", "n"),
        ("reorder", "", "m"),
        ("archive", "", "A"),
    ] {
        assert!(notice(action_type, new_char).ends_with(&format!("Press {key} to try again.")));
    }
}

#[test]
fn help_swallows_every_other_key() {
    let mut app = browsing();
    press(&mut app, KeyCode::Char('?'));
    assert_eq!(app.mode(), Mode::Help);
    for code in [KeyCode::Char('j'), KeyCode::Char(' '), KeyCode::Enter, KeyCode::Tab] {
        let rows = app.rows.len();
        assert!(matches!(press(&mut app, code), Effect::Nothing));
        assert!(app.show_help);
        assert_eq!(app.rows.len(), rows);
    }
    assert!(matches!(press(&mut app, KeyCode::Char('q')), Effect::Nothing), "q closes, not quits");
    assert!(!app.show_help);
    press(&mut app, KeyCode::Char('?'));
    assert!(matches!(ctrl_c(&mut app), Effect::Quit));
}

#[test]
fn a_release_does_nothing() {
    let mut app = browsing();
    let effect = app.handle_key(KeyEvent { code: KeyCode::Char('q'), ctrl: false, press: false });
    assert!(matches!(effect, Effect::Nothing));
}

#[test]
fn the_search_prompt_takes_the_keys() {
    let mut app = browsing();
    press(&mut app, KeyCode::Char('/'));
    for c in "TASK q".chars() {
        assert!(matches!(press(&mut app, KeyCode::Char(c)), Effect::Nothing));
    }
    assert_eq!(app.search_query, "TASK q");
    assert!(app.rows.is_empty());
    press(&mut app, KeyCode::Backspace);
    press(&mut app, KeyCode::Backspace);
    assert_eq!(app.search_query, "TASK");
    assert_eq!(ids(&app), vec![1, 2, 3, 4, 5, 6], "the query ignores case");
    press(&mut app, KeyCode::Char(' '));
    press(&mut app, KeyCode::Char('6'));
    press(&mut app, KeyCode::Enter);
    assert_eq!(app.mode(), Mode::List);
    assert_eq!(ids(&app), vec![6], "the query stays applied");
    press(&mut app, KeyCode::Char('/'));
    assert_eq!(app.search_query, "TASK 6", "the query is there to be edited");
    press(&mut app, KeyCode::Esc);
    assert_eq!(app.search_query, "");
    assert_eq!(ids(&app), vec![1, 2, 3, 4, 5, 6]);
}

#[test]
fn searching_ignores_case_beyond_ascii() {
    let mut app = browsing();
    app.tasks[0].text = "Ärger im Büro".to_string();
    press(&mut app, KeyCode::Char('/'));
    for c in "ÄRGER IM BÜ".chars() {
        press(&mut app, KeyCode::Char(c));
    }
    assert_eq!(ids(&app), vec![1]);
}

#[test]
fn the_file_prompt_takes_the_keys() {
    let mut app = browsing();
    press(&mut app, KeyCode::Char('F'));
    for c in "DIR/".chars() {
        press(&mut app, KeyCode::Char(c));
    }
    assert_eq!(ids(&app), vec![6]);
    press(&mut app, KeyCode::Backspace);
    assert_eq!(app.file_query, "DIR");
    press(&mut app, KeyCode::Enter);
    assert_eq!(ids(&app), vec![6]);
    press(&mut app, KeyCode::Char('F'));
    press(&mut app, KeyCode::Esc);
    assert_eq!(ids(&app).len(), 6);
    press(&mut app, KeyCode::Backspace);
    assert_eq!(app.file_query, "");
}

#[test]
fn quick_add_submits_trimmed_text() {
    let mut app = browsing();
    app.inbox_path = "in.md".to_string();
    press(&mut app, KeyCode::Char('a'));
    for c in "  buy milk! ".chars() {
        press(&mut app, KeyCode::Char(c));
    }
    press(&mut app, KeyCode::Backspace);
    press(&mut app, KeyCode::Backspace);
    match press(&mut app, KeyCode::Enter) {
        Effect::Submit(s) => {
            assert!(matches!(
                &s.request,
                Request::QuickAdd { inbox_path, text } if inbox_path == "in.md" && text == "buy milk"
            ));
            app.settle(s, Some(1));
        }
        _ => panic!("expected a submission"),
    }
    assert_eq!(app.mode(), Mode::List);
    assert_eq!(app.quick_add_query, "");
    match press(&mut app, KeyCode::Char('u')) {
        Effect::Submit(s) => assert!(matches!(
            &s.request,
            Request::QuickAddUndo { inbox_path, text } if inbox_path == "in.md" && text == "buy milk"
        )),
        _ => panic!("expected a submission"),
    }
    press(&mut app, KeyCode::Char('a'));
    press(&mut app, KeyCode::Char('x'));
    assert!(matches!(press(&mut app, KeyCode::Esc), Effect::Nothing));
    assert_eq!(app.quick_add_query, "");
    press(&mut app, KeyCode::Char('a'));
    assert!(matches!(press(&mut app, KeyCode::Enter), Effect::Nothing), "nothing typed");
    assert_eq!(app.mode(), Mode::List);
}

#[test]
fn a_note_goes_to_the_task_under_the_cursor() {
    let mut app = browsing();
    app.state.select(Some(0));
    press(&mut app, KeyCode::Char('n'));
    assert_eq!(app.mode(), Mode::List, "a header takes no note");
    app.state.select(Some(2));
    press(&mut app, KeyCode::Char('n'));
    for c in " why? ".chars() {
        press(&mut app, KeyCode::Char(c));
    }
    match press(&mut app, KeyCode::Enter) {
        Effect::Submit(s) => {
            assert!(matches!(
                &s.request,
                Request::AddNote { task_id: 2, note_path, line_number: 2, text }
                    if note_path == "a.md" && text == "why?"
            ));
            assert!(s.undo.is_none());
        }
        _ => panic!("expected a submission"),
    }
    press(&mut app, KeyCode::Char('n'));
    press(&mut app, KeyCode::Char('z'));
    press(&mut app, KeyCode::Backspace);
    assert!(matches!(press(&mut app, KeyCode::Enter), Effect::Nothing));
    press(&mut app, KeyCode::Char('n'));
    press(&mut app, KeyCode::Esc);
    assert_eq!(app.mode(), Mode::List);
}

#[test]
fn task_gestures_ask_for_the_task_under_the_cursor() {
    let mut app = browsing();
    for (row, id, raw) in [(1usize, 1i64, " "), (2, 2, "x"), (3, 3, "/")] {
        app.state.select(Some(row));
        for (key, target) in [
            (' ', if raw == " " { "x" } else { " " }),
            ('d', "-"),
            ('i', if raw == "/" { " " } else { "/" }),
        ] {
            match press(&mut app, KeyCode::Char(key)) {
                Effect::Submit(s) => match s.request {
                    Request::Checkbox { task_id, expected_char, new_char, .. } => {
                        assert_eq!(task_id, id);
                        assert_eq!(expected_char, raw);
                        assert_eq!(new_char, target);
                    }
                    _ => panic!("expected a checkbox request"),
                },
                _ => panic!("expected a submission"),
            }
        }
        match press(&mut app, KeyCode::Char('b')) {
            Effect::Submit(s) => {
                assert!(matches!(s.request, Request::ToggleBullet { task_id, .. } if task_id == id));
                app.settle(s, Some(id));
            }
            _ => panic!("expected a submission"),
        }
        match press(&mut app, KeyCode::Char('u')) {
            Effect::Submit(s) => {
                assert!(matches!(s.request, Request::ToggleBullet { task_id, .. } if task_id == id));
            }
            _ => panic!("expected a submission"),
        }
    }
    app.state.select(Some(0));
    for key in [' ', 'd', 'i', 'b', 't'] {
        assert!(matches!(press(&mut app, KeyCode::Char(key)), Effect::Nothing), "{key} on a header");
    }
}

#[test]
fn nothing_to_take_back_submits_nothing() {
    assert!(matches!(press(&mut browsing(), KeyCode::Char('u')), Effect::Nothing));
}

#[test]
fn moving_by_keys_places_or_restores() {
    let mut app = browsing();
    app.state.select(Some(1));
    press(&mut app, KeyCode::Char('m'));
    assert_eq!(app.mode(), Mode::Moving);
    press(&mut app, KeyCode::Char('j'));
    press(&mut app, KeyCode::Down);
    press(&mut app, KeyCode::Up);
    assert_eq!(ids(&app), vec![2, 1, 3, 4, 5, 6]);
    assert!(!app.refresh_due(Some(100_000)), "no refresh while a task is moved");
    assert!(matches!(press(&mut app, KeyCode::Char('q')), Effect::Nothing));
    match press(&mut app, KeyCode::Enter) {
        Effect::Submit(s) => match s.request {
            Request::Reorder { task_id, note_path, line_number, lines } => {
                assert_eq!((task_id, line_number), (1, 1));
                assert_eq!(note_path, "a.md");
                assert_eq!(lines, vec![2, 1, 3]);
            }
            _ => panic!("expected a reorder"),
        },
        _ => panic!("expected a submission"),
    }
    assert!(app.refresh_due(Some(750)));
    assert!(!app.refresh_due(Some(749)));
    assert!(app.refresh_due(None));

    let mut app = browsing();
    app.state.select(Some(3));
    press(&mut app, KeyCode::Char('m'));
    press(&mut app, KeyCode::Char('k'));
    press(&mut app, KeyCode::Char('k'));
    press(&mut app, KeyCode::Char('k'));
    assert_eq!(ids(&app), vec![3, 1, 2, 4, 5, 6]);
    press(&mut app, KeyCode::Esc);
    assert_eq!(ids(&app), vec![1, 2, 3, 4, 5, 6]);
    assert_eq!(app.state.selected(), Some(3));

    let mut app = browsing();
    app.state.select(Some(1));
    press(&mut app, KeyCode::Char('m'));
    assert!(matches!(ctrl_c(&mut app), Effect::Quit));
    assert!(matches!(press(&mut app, KeyCode::Enter), Effect::Nothing), "an unmoved task");
}

#[test]
fn moving_swallows_what_is_not_a_move() {
    let mut app = browsing();
    app.state.select(Some(1));
    press(&mut app, KeyCode::Char('m'));
    for code in [
        KeyCode::Char(' '),
        KeyCode::Char('A'),
        KeyCode::Char('q'),
        KeyCode::Char('o'),
        KeyCode::Tab,
        KeyCode::Left,
        KeyCode::Backspace,
    ] {
        assert!(matches!(press(&mut app, code), Effect::Nothing));
        assert!(app.moving);
        assert_eq!(ids(&app), vec![1, 2, 3, 4, 5, 6]);
    }
    press(&mut app, KeyCode::Char('j'));
    press(&mut app, KeyCode::Char('k'));
    assert!(matches!(press(&mut app, KeyCode::Enter), Effect::Nothing), "back where it was");
}

#[test]
fn only_flips_bullets_and_adds_are_taken_back() {
    let mut app = browsing();
    app.state.select(Some(1));
    if let Effect::Submit(s) = press(&mut app, KeyCode::Char('d')) {
        app.settle(s, Some(1));
    }
    if let Effect::Submit(s) = press(&mut app, KeyCode::Char('t')) {
        app.settle(s, Some(2));
    }
    if let Effect::Submit(s) = press(&mut app, KeyCode::Char('A')) {
        app.settle(s, Some(3));
    }
    app.state.select(Some(7));
    for id in [4, 5] {
        match press(&mut app, KeyCode::Char('u')) {
            Effect::Submit(s) => {
                assert!(matches!(
                    &s.request,
                    Request::Checkbox { task_id: 1, expected_char, new_char, .. }
                        if expected_char == "-" && new_char == " "
                ));
                app.settle(s, Some(id));
            }
            _ => panic!("expected a submission"),
        }
    }
    assert_eq!(app.pending_session_actions, vec![1, 2, 3, 4, 5]);
}

#[test]
fn dates_are_compared_as_days() {
    let mut app = browsing();
    let dates = ["2025-12-31", "2026-01-01", "2026-06-19", "2026-06-20", "2026-06-21", "2026-10-01"];
    for (i, date) in dates.iter().enumerate() {
        app.tasks[i].due_date = Some(date.to_string());
    }
    press(&mut app, KeyCode::Char('O'));
    assert_eq!(ids(&app), vec![1, 2, 3]);
}

#[test]
fn moving_is_refused_across_notes() {
    let mut app = browsing();
    app.group_by = GroupBy::Priority;
    app.rebuild();
    app.expand_all();
    app.state.select(Some(1));
    press(&mut app, KeyCode::Char('m'));
    assert!(!app.moving);
    assert!(app.notice.as_deref().unwrap().contains("within a single note"));
}

#[test]
fn cancelling_restores_a_task_that_stands_twice_in_its_group() {
    let mut app = browsing();
    app.group_by = GroupBy::Tag;
    app.rebuild();
    app.collapse_all();
    let at = app
        .rows
        .iter()
        .position(|r| matches!(r, DisplayRow::Header { group_key, .. } if group_key == "x"))
        .unwrap();
    app.state.select(Some(at));
    press(&mut app, KeyCode::Enter);
    assert_eq!(ids(&app), vec![4, 4], "a tag given twice shows its task twice");
    app.state.select(Some(at + 1));
    press(&mut app, KeyCode::Char('m'));
    press(&mut app, KeyCode::Char('j'));
    press(&mut app, KeyCode::Esc);
    assert_eq!(ids(&app), vec![4, 4]);
}

#[test]
fn the_archive_takes_closed_tasks_top_to_bottom() {
    let mut app = App::new("2026-06-20".to_string());
    app.filter = StatusFilter::All;
    app.archive_path = "old.md".to_string();
    let tasks = vec![
        task(1, "-", 9, "a.md"),
        task(2, "x", 2, "a.md"),
        task(3, " ", 3, "a.md"),
        task(4, "X", 5, "a.md"),
        task(5, "x", 1, "b.md"),
    ];
    app.refresh("2026-06-20".to_string(), tasks);
    app.expand_all();
    app.state.select(Some(1));
    match press(&mut app, KeyCode::Char('A')) {
        Effect::Submit(s) => {
            match &s.request {
                Request::Archive { task_id, note_path, line_number, archive_path, lines } => {
                    assert_eq!((*task_id, *line_number), (2, 2));
                    assert_eq!(note_path, "a.md");
                    assert_eq!(archive_path, "old.md");
                    assert_eq!(lines, &vec![2, 5, 9]);
                }
                _ => panic!("expected an archive request"),
            }
            app.settle(s, Some(7));
        }
        _ => panic!("expected a submission"),
    }
    assert_eq!(app.notice.as_deref(), Some("Archiving 3 completed task(s) → old.md"));
    assert!(app.last_action.is_none());

    app.archive_path = "a.md".to_string();
    assert!(matches!(press(&mut app, KeyCode::Char('A')), Effect::Nothing));
    assert_eq!(app.notice.as_deref(), Some("Archive path cannot be the source note"));
}

#[test]
fn links_need_a_vault_and_a_task() {
    let mut app = browsing();
    app.state.select(Some(6));
    assert!(matches!(press(&mut app, KeyCode::Char('o')), Effect::Open(Link::UnknownVault)));
    app.vault_name = Some("My Vault".to_string());
    app.state.select(Some(0));
    assert!(matches!(press(&mut app, KeyCode::Char('o')), Effect::Open(Link::NothingSelected)));
    app.state.select(Some(8));
    match press(&mut app, KeyCode::Char('o')) {
        Effect::Open(Link::Url(url)) => {
            assert_eq!(url, "obsidian://open?vault=My%20Vault&file=dir%2Fc.md")
        }
        _ => panic!("expected a link"),
    }
    app.use_advanced_uri = true;
    match press(&mut app, KeyCode::Char('o')) {
        Effect::Open(Link::Url(url)) => {
            assert_eq!(url, "obsidian://advanced-uri?vault=My%20Vault&filepath=dir%2Fc.md&line=6")
        }
        _ => panic!("expected a link"),
    }
}

#[test]
fn a_failed_enqueue_changes_nothing() {
    let mut app = browsing();
    app.notice = Some("earlier".to_string());
    app.state.select(Some(1));
    match press(&mut app, KeyCode::Char(' ')) {
        Effect::Submit(s) => app.settle(s, None),
        _ => panic!("expected a submission"),
    }
    assert_eq!(app.notice.as_deref(), Some("earlier"));
    assert!(app.last_action.is_none());
    assert!(!app.awaits_resolution());
}

#[test]
fn no_more_than_the_newest_actions_are_tracked() {
    let mut app = browsing();
    for id in 1..=100 {
        app.track_enqueued(Some(id));
    }
    let expected: Vec<i64> = (37..=100).collect();
    assert_eq!(app.pending_session_actions, expected);
}

#[test]
fn the_newest_own_failure_is_told() {
    let resolved = |id: i64, state: &str, note: &str| PendingAction {
        id,
        action_type: "checkbox".to_string(),
        note_path: note.to_string(),
        new_char: "x".to_string(),
        state: state.to_string(),
        error: None,
    };
    let mut app = browsing();
    for id in [1, 2, 3, 4] {
        app.track_enqueued(Some(id));
    }
    app.poll_action_resolutions(&vec![
        resolved(9, "failed", "foreign.md"),
        resolved(4, "done", "four.md"),
        resolved(3, "failed", "three.md"),
        resolved(1, "failed", "one.md"),
    ]);
    assert_eq!(
        app.notice.as_deref(),
        Some("Toggle not applied — it could not be applied (three.md). Press Space to try again.")
    );
    assert_eq!(app.pending_session_actions, vec![2]);
}

#[test]
fn views_toggle_back() {
    let mut app = browsing();
    let before = ids(&app);
    for key in ['T', 'O'] {
        press(&mut app, KeyCode::Char(key));
        assert_ne!(ids(&app), before);
        press(&mut app, KeyCode::Char(key));
        assert_eq!(ids(&app), before);
    }
    for _ in 0..3 {
        press(&mut app, KeyCode::Char('f'));
    }
    assert_eq!(app.filter, StatusFilter::All);
    for _ in 0..5 {
        press(&mut app, KeyCode::Char('G'));
    }
    assert_eq!(app.group_by, GroupBy::FolderNote);
    assert_eq!(ids(&app), before, "what was unfolded is found unfolded");
    press(&mut app, KeyCode::BackTab);
    assert!(ids(&app).is_empty());
    press(&mut app, KeyCode::Tab);
    assert_eq!(ids(&app), before);
    press(&mut app, KeyCode::Char('p'));
    assert!(!app.pane_visible);
    press(&mut app, KeyCode::Char('J'));
    press(&mut app, KeyCode::Char('J'));
    press(&mut app, KeyCode::Char('K'));
    assert_eq!(app.ctx_scroll, 1);
}

#[test]
fn folding_by_keys() {
    let mut app = browsing();
    app.state.select(Some(2));
    press(&mut app, KeyCode::Right);
    assert_eq!(app.state.selected(), Some(2), "unfolding means nothing on a task");
    press(&mut app, KeyCode::Left);
    assert_eq!(app.state.selected(), Some(0), "folding from inside lands on the header");
    assert_eq!(ids(&app), vec![4, 5, 6]);
    press(&mut app, KeyCode::Right);
    assert_eq!(ids(&app).len(), 6);
    press(&mut app, KeyCode::Enter);
    assert_eq!(ids(&app), vec![4, 5, 6]);
    press(&mut app, KeyCode::Down);
    press(&mut app, KeyCode::Up);
    press(&mut app, KeyCode::Up);
    assert_eq!(app.state.selected(), Some(0), "the cursor stops at the top");
}

/// Whatever is typed, the cursor is on a row, at most one mode is on, and folding shows no task
/// twice in its note.
#[test]
fn any_keys_keep_the_state_sound() {
    let codes = [
        KeyCode::Char('j'),
        KeyCode::Char('k'),
        KeyCode::Char(' '),
        KeyCode::Char('f'),
        KeyCode::Char('G'),
        KeyCode::Char('T'),
        KeyCode::Char('O'),
        KeyCode::Char('/'),
        KeyCode::Char('F'),
        KeyCode::Char('a'),
        KeyCode::Char('n'),
        KeyCode::Char('m'),
        KeyCode::Char('A'),
        KeyCode::Char('u'),
        KeyCode::Char('?'),
        KeyCode::Char('J'),
        KeyCode::Char('p'),
        KeyCode::Enter,
        KeyCode::Esc,
        KeyCode::Backspace,
        KeyCode::Left,
        KeyCode::Right,
        KeyCode::Up,
        KeyCode::Down,
        KeyCode::Tab,
        KeyCode::BackTab,
        KeyCode::Other,
    ];
    let mut seed: u64 = 12345;
    let mut app = browsing();
    for step in 0..20_000 {
        seed = seed.wrapping_mul(6364136223846793005).wrapping_add(1442695040888963407);
        let code = codes[(seed >> 33) as usize % codes.len()];
        match press(&mut app, code) {
            Effect::Submit(s) => app.settle(s, if step % 3 == 0 { None } else { Some(step) }),
            Effect::Quit => app = browsing(),
            _ => {}
        }
        if app.refresh_due(Some(if step % 7 == 0 { 1000 } else { 0 })) {
            app.refresh("2026-06-20".to_string(), three_notes());
        }
        match app.state.selected() {
            Some(i) => assert!(i < app.rows.len()),
            None => assert!(app.rows.is_empty()),
        }
        assert!(modes_on(&app) <= 1);
        assert!(app.pending_session_actions.len() <= 64);
        if app.refresh_due(None) {
            let before = app.rows.len();
            app.rebuild();
            assert_eq!(app.rows.len(), before, "the rows are those the state asks for");
        }
    }
}
