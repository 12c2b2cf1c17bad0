//! Text functions, held against the standard library.

use taski_tui::paths::{base_name_of, folder_of};
use taski_tui::text::{
    chars_before, chars_of, contains, contains_char, decimal, is_white_space, lines_of, pad_left,
    pad_right, same_text, trim,
};

const SAMPLES: [&str; 14] = [
    "",
    " ",
    "a",
    "A",
    "abc",
    "abd",
    "  padded  ",
    "\u{a0}no-break\u{2003}",
    "line1\nline2",
    "line1\r\nline2\r\n",
    "\n\n",
    "tail\r",
    "naïve ⏳ text",
    "2026-06-20",
];

#[test]
fn white_space_is_the_standard_white_space() {
    for n in 0..=0x10ffffu32 {
        if let Some(c) = char::from_u32(n) {
            assert_eq!(is_white_space(c), c.is_whitespace(), "{n:#x}");
        }
    }
}

#[test]
fn trimming_is_standard_trimming() {
    for s in SAMPLES {
        assert_eq!(trim(s), s.trim(), "{s:?}");
    }
}

#[test]
fn lines_are_standard_lines() {
    for s in SAMPLES {
        let expected: Vec<&str> = s.lines().collect();
        assert_eq!(lines_of(s), expected, "{s:?}");
    }
}

#[test]
fn searching_and_ordering_are_standard() {
    for a in SAMPLES {
        for b in SAMPLES {
            assert_eq!(contains(a, b), a.contains(b), "{a:?} {b:?}");
            assert_eq!(same_text(a, b), a == b);
            assert_eq!(chars_before(&chars_of(a), &chars_of(b)), a < b, "{a:?} {b:?}");
        }
        assert_eq!(contains_char(a, 'a'), a.contains('a'));
    }
}

#[test]
fn numbers_and_padding_are_standard() {
    for n in [0usize, 1, 9, 10, 99, 100, 12345, usize::MAX] {
        assert_eq!(decimal(n), n.to_string());
    }
    assert_eq!(pad_left("7", 3), "  7");
    assert_eq!(pad_left("1234", 3), "1234");
    assert_eq!(pad_right("j/k ↑/↓", 16), format!("{:<16}", "j/k ↑/↓"));
    assert_eq!(pad_right("toolong", 3), "toolong");
}

/// Every string of up to six characters over a few that matter to paths.
fn path_samples() -> Vec<String> {
    let mut all: Vec<String> = vec![String::new()];
    let mut last: Vec<String> = all.clone();
    for _ in 0..6 {
        let mut next: Vec<String> = Vec::new();
        for s in &last {
            for c in ['a', '.', '/', 'é'] {
                next.push(format!("{s}{c}"));
            }
        }
        all.extend(next.iter().cloned());
        last = next;
    }
    all
}

#[test]
fn folders_and_names_are_those_of_standard_paths() {
    for s in path_samples() {
        let path = std::path::Path::new(&s);
        let parent = path.parent().and_then(|p| p.to_str()).filter(|p| !p.is_empty());
        assert_eq!(folder_of(&s), parent.unwrap_or("(root)"), "{s:?}");
        let name = path.file_name().and_then(|n| n.to_str());
        assert_eq!(base_name_of(&s).as_deref(), name, "{s:?}");
    }
}
