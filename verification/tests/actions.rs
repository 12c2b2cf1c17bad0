//! Checkbox targets, failure wording, the context window and tab stops.

use taski_tui::actions::{
    cancel_target_char, friendly_failure_reason, in_progress_target_char, toggle_target_char,
};
use taski_tui::context::{context_view, expand_tabs};
use taski_tui::keys::{KeyCode, help_dismisses_on};

#[test]
fn toggle_target_char_maps_open_done_and_resets_others() {
    assert_eq!(toggle_target_char(" "), "x");
    assert_eq!(toggle_target_char("x"), " ");
    assert_eq!(toggle_target_char("X"), " ");
    assert_eq!(toggle_target_char("/"), " ");
    assert_eq!(toggle_target_char(">"), " ");
}

#[test]
fn cancel_target_char_maps_others_to_cancelled_and_reopens_cancelled() {
    assert_eq!(cancel_target_char(" "), "-");
    assert_eq!(cancel_target_char("x"), "-");
    assert_eq!(cancel_target_char("X"), "-");
    assert_eq!(cancel_target_char("/"), "-");
    assert_eq!(cancel_target_char(">"), "-");
    assert_eq!(cancel_target_char("-"), " ");

    for raw in [" ", "x", "X", "/", ">", "-", "!", "_"] {
        assert_ne!(
            toggle_target_char(raw),
            "-",
            "toggle_target_char must never target the cancel char (would break \
             render_failure_notice's new_char == \"-\" seam); raw={raw:?}"
        );
    }

    for raw in [" ", "x", "X", "/", ">", "-", "!", "_"] {
        assert_ne!(
            toggle_target_char(raw),
            "/",
            "toggle_target_char must never target the in-progress char (would \
             break render_failure_notice's new_char == \"/\" seam); raw={raw:?}"
        );
    }
}

#[test]
fn in_progress_target_char_maps_others_to_in_progress_and_reopens_in_progress() {
    assert_eq!(in_progress_target_char(" "), "/");
    assert_eq!(in_progress_target_char("x"), "/");
    assert_eq!(in_progress_target_char("X"), "/");
    assert_eq!(in_progress_target_char("-"), "/");
    assert_eq!(in_progress_target_char(">"), "/");
    assert_eq!(in_progress_target_char("/"), " ");
}

#[test]
fn friendly_failure_reason_maps_each_category() {
    assert_eq!(
        friendly_failure_reason("note changed externally since scan; action not applied"),
        "this note changed in Obsidian",
    );
    assert_eq!(
        friendly_failure_reason("task no longer in index (or note gone); action not applied"),
        ["this", " task is no longer in the note"].concat(),
    );
    assert_eq!(
        friendly_failure_reason(
            "checkbox line no longer matches expected bytes; action not applied"
        ),
        "the checkbox line changed",
    );
    assert_eq!(
        friendly_failure_reason("invalid new_char; action not applied"),
        "the request was not valid",
    );
    assert_eq!(
        friendly_failure_reason(
            "scheduled date is malformed or unparseable; action not applied"
        ),
        "the scheduled date on this line couldn't be parsed",
    );
    assert_eq!(
        friendly_failure_reason("existing ✅ is malformed or unparseable; toggle not applied"),
        "the done date on this line couldn't be parsed",
    );
    assert_eq!(
        friendly_failure_reason("existing ❌ is malformed or unparseable; cancel not applied"),
        "the cancelled date on this line couldn't be parsed",
    );
    assert_eq!(
        friendly_failure_reason("  something unusual happened  "),
        "something unusual happened"
    );
    assert_eq!(friendly_failure_reason(""), "it could not be applied");
    assert_eq!(friendly_failure_reason("   "), "it could not be applied");
}

#[test]
fn context_view_centers_and_clamps() {
    let (start, count, hl) = context_view(20, Some(10), 5);
    assert_eq!(start, 8, "window = [8..12], target centered at offset 2");
    assert_eq!(count, 5);
    assert_eq!(hl, Some(2));

    let (start, count, hl) = context_view(20, Some(2), 5);
    assert_eq!(start, 1);
    assert_eq!(count, 5);
    assert_eq!(hl, Some(1));

    let (start, count, hl) = context_view(20, Some(19), 5);
    assert_eq!(start, 16, "max_start = 20 - 5 + 1 = 16");
    assert_eq!(count, 5);
    assert_eq!(hl, Some(3));

    let (start, count, hl) = context_view(3, Some(2), 10);
    assert_eq!(start, 1);
    assert_eq!(count, 3);
    assert_eq!(hl, Some(1));

    let (start, count, hl) = context_view(5, Some(99), 3);
    assert_eq!(start, 3, "max_start = 5 - 3 + 1 = 3");
    assert_eq!(count, 3);
    assert_eq!(hl, Some(2), "clamped target 5 - start 3 = offset 2");
}

#[test]
fn context_view_no_target_starts_at_top() {
    let (start, count, hl) = context_view(20, None, 5);
    assert_eq!(start, 1);
    assert_eq!(count, 5);
    assert_eq!(hl, None);
}

#[test]
fn context_view_empty_degenerates() {
    assert_eq!(context_view(0, Some(1), 5), (1, 0, None));
    assert_eq!(context_view(5, Some(1), 0), (1, 0, None));
}

#[test]
fn expand_tabs_advances_to_tab_stops() {
    assert_eq!(expand_tabs("- [ ] plain task"), "- [ ] plain task");
    assert_eq!(expand_tabs("\t- [ ] subtask"), "    - [ ] subtask");
    assert_eq!(expand_tabs("\t\t- [ ] deep"), "        - [ ] deep");
    assert_eq!(expand_tabs("  \t- [ ] mixed"), "    - [ ] mixed");
    assert_eq!(expand_tabs("text1\trest"), "text1   rest");
    assert_eq!(expand_tabs(""), "");
}

#[test]
fn help_dismiss_keys() {
    assert!(help_dismisses_on(KeyCode::Char('?')));
    assert!(help_dismisses_on(KeyCode::Esc));
    assert!(help_dismisses_on(KeyCode::Char('q')));
    assert!(!help_dismisses_on(KeyCode::Char('j')));
    assert!(!help_dismisses_on(KeyCode::Char(' ')));
    assert!(!help_dismisses_on(KeyCode::Enter));
    assert!(
        !help_dismisses_on(KeyCode::Char('c')),
        "Ctrl-C quits, not dismisses"
    );
}
