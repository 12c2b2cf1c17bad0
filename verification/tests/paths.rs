use taski_tui::paths::{filename_of, folder_of, obsidian_url, percent_encode_query, split_note_header};

#[test]
fn obsidian_url_native_mode() {
    assert_eq!(
        obsidian_url("My Vault", "Inbox/note.md", 5, false),
        "obsidian://open?vault=My%20Vault&file=Inbox%2Fnote.md"
    );
}

#[test]
fn obsidian_url_advanced_mode() {
    assert_eq!(
        obsidian_url("My Vault", "Inbox/note.md", 5, true),
        "obsidian://advanced-uri?vault=My%20Vault&filepath=Inbox%2Fnote.md&line=5"
    );
}

#[test]
fn percent_encode_query_special_chars() {
    assert_eq!(
        percent_encode_query("No#te^naïve.md"),
        "No%23te%5Ena%C3%AFve.md"
    );
}

#[test]
fn obsidian_url_minimal_well_formed() {
    let url = obsidian_url("v", "f.md", 1, false);
    assert_eq!(url, "obsidian://open?vault=v&file=f.md");
}

/// The directory prefix keeps its trailing `/`; a root-level note has none.
#[test]
fn split_note_header_cases() {
    assert_eq!(
        split_note_header("Projects/Work/standup.md"),
        (Some("Projects/Work/"), "standup.md")
    );
    assert_eq!(
        split_note_header("inbox/today.md"),
        (Some("inbox/"), "today.md")
    );
    // Root-level note: no prefix.
    assert_eq!(split_note_header("standup.md"), (None, "standup.md"));
    // Trailing slash: empty filename, whole thing is prefix.
    assert_eq!(split_note_header("a/b/"), (Some("a/b/"), ""));
}

/// `folder_of` extracts parent dirs and returns `(root)` for top-level notes.
#[test]
fn folder_of_handles_various_paths() {
    assert_eq!(folder_of("note.md"), "(root)");
    assert_eq!(folder_of("dir/note.md"), "dir");
    assert_eq!(folder_of("a/b/c/note.md"), "a/b/c");
}

/// `folder_of` agrees with the standard library's notion of a parent path.
#[test]
fn folder_of_agrees_with_parent_paths() {
    for path in [
        "", "/", "//", ".", "./", "/.", "..", "../n.md", "a", "a/", "a//", "a/b", "a//b", "a/./b",
        "a/b/.", "a/b/./", "./a", "././a", "/a", "//a", "/a/b", "a/..", "a/../b.md", "a/.b", "a/b.",
        ".//.", "é/ü.md", "a/b/c//d.md", "...", "a/...", "/../a",
    ] {
        let expected = std::path::Path::new(path)
            .parent()
            .and_then(|p| p.to_str())
            .filter(|s| !s.is_empty())
            .unwrap_or("(root)");
        assert_eq!(folder_of(path), expected, "{path:?}");
    }
}

/// `filename_of` strips directories; root notes return themselves.
#[test]
fn filename_of_strips_directories() {
    assert_eq!(filename_of("Projects/Work/standup.md"), "standup.md");
    assert_eq!(filename_of("inbox.md"), "inbox.md");
}
