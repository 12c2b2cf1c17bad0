//! How the rows of the list look.

use vstd::prelude::*;
use vstd::string::*;
use crate::grouping::GroupBy;
use crate::listing::{DisplayRow, RowView, opt_nat, row_views};
use crate::paths::{note_header_parts, split_note_header};
use crate::spans::{LineView, Span, Style, coloured, emphasised, line_view, marked, no_spans,
    push_raw, push_span, raw_span, span, struck, unstyled};
use crate::task::{Status, StatusView, Task, TaskView};
use crate::text::{decimal, digits, push_spaces, same_text, spaces};
use crate::theme::{Color, Theme, emphasis};

verus! {

/// A row as it is drawn.
#[derive(Debug)]
pub struct ListItem {
    pub line: Vec<Span>,
    /// The style of the whole row, under that of its spans.
    pub style: Style,
}

/// What a [`ListItem`] is.
#[verifier::ext_equal]
pub struct ItemView {
    pub line: LineView,
    pub style: Style,
}

impl View for ListItem {
    type V = ItemView;

    open spec fn view(&self) -> ItemView {
        ItemView { line: line_view(self.line@), style: self.style }
    }
}

/// What a list of items is.
pub open spec fn item_views(items: Seq<ListItem>) -> Seq<ItemView> {
    items.map_values(|i: ListItem| i@)
}

/// The colour of a checkbox.
pub open spec fn checkbox_color(status: StatusView, theme: Theme) -> Color {
    match status {
        StatusView::Open => theme.warning,
        StatusView::Done => theme.success,
        StatusView::InProgress => theme.accent,
        StatusView::Other(_) => theme.muted,
    }
}

/// The style of a checkbox, by status.
pub fn checkbox_style(status: &Status, theme: &Theme) -> (r: Style)
    ensures
        r == coloured(checkbox_color(status@, *theme)),
{
    match status {
        Status::Open => Style::fg(theme.warning),
        Status::Done => Style::fg(theme.success),
        Status::InProgress => Style::fg(theme.accent),
        Status::Other(_) => Style::fg(theme.muted),
    }
}

/// The name of a group in its header. Under the folder+note axis the directory has a colour of its
/// own, so that the file name stands out.
pub open spec fn header_name(key: Seq<char>, theme: Theme, axis: GroupBy) -> LineView {
    match (axis, note_header_parts(key)) {
        (GroupBy::FolderNote, (Some(prefix), name)) => seq![
            span(prefix, coloured(theme.path_prefix)),
            span(name, marked(emphasis(theme))),
        ],
        _ => seq![span(key, marked(emphasis(theme)))],
    }
}

/// The header of a group: a fold marker, its name and its counts.
pub open spec fn header_line(
    key: Seq<char>,
    open: nat,
    total: nat,
    collapsed: bool,
    theme: Theme,
    axis: GroupBy,
) -> LineView {
    let marker = if collapsed {
        "▸ "@
    } else {
        "▾ "@
    };
    seq![span(marker, emphasised(theme.accent, theme))] + header_name(key, theme, axis) + seq![
        raw_span("   "@),
        span(
            digits(open) + " open · "@ + digits(total) + " total"@,
            coloured(theme.muted),
        ),
    ]
}

/// The due date of a task.
pub open spec fn due_spans(due: Option<Seq<char>>, theme: Theme) -> LineView {
    match due {
        Some(d) => seq![raw_span("  "@), span("· "@ + d, coloured(theme.warning))],
        None => seq![],
    }
}

/// The scheduled date of a task; today's stands out.
pub open spec fn scheduled_spans(date: Option<Seq<char>>, today: Seq<char>, theme: Theme) -> LineView {
    match date {
        Some(d) => seq![
            raw_span("  "@),
            span(
                "⏳ "@ + d,
                if d == today {
                    emphasised(theme.accent_bright, theme)
                } else {
                    coloured(theme.scheduled)
                },
            ),
        ],
        None => seq![],
    }
}

/// A task: indented as in its note, its checkbox coloured by status, its text and its dates.
pub open spec fn task_line(t: TaskView, today: Seq<char>, theme: Theme) -> LineView {
    seq![
        raw_span(spaces((4 + t.indent) as nat)),
        span("["@ + t.raw_checkbox_char + "]"@, coloured(checkbox_color(t.status, theme))),
        raw_span(" "@ + t.text),
    ] + due_spans(t.due_date, theme) + scheduled_spans(t.scheduled_date, today, theme)
}

/// A row as it is drawn. Done tasks are struck through.
pub open spec fn row_item(r: RowView, today: Seq<char>, theme: Theme, axis: GroupBy) -> ItemView {
    match r {
        RowView::Header { group_key, open_count, total_count, collapsed } => ItemView {
            line: header_line(group_key, open_count, total_count, collapsed, theme, axis),
            style: unstyled(),
        },
        RowView::Task { task } => ItemView {
            line: task_line(task, today, theme),
            style: if task.status is Done {
                marked(struck())
            } else {
                unstyled()
            },
        },
    }
}

fn push_header_name(line: &mut Vec<Span>, key: &String, theme: &Theme, axis: GroupBy)
    ensures
        line_view(final(line)@) == line_view(old(line)@) + header_name(key@, *theme, axis),
{
    let plain = Style::of(theme.bold_modifier());
    if axis == GroupBy::FolderNote {
        if let (Some(prefix), name) = split_note_header(key.as_str()) {
            push_span(line, prefix.to_owned(), Style::fg(theme.path_prefix));
            push_span(line, name.to_owned(), plain);
            assert(line_view(line@) =~= line_view(old(line)@) + header_name(key@, *theme, axis));
            return;
        }
    }
    push_span(line, key.clone(), plain);
    assert(line_view(line@) =~= line_view(old(line)@) + header_name(key@, *theme, axis));
}

fn header_of(
    key: &String,
    open_count: usize,
    total_count: usize,
    collapsed: bool,
    theme: &Theme,
    axis: GroupBy,
) -> (r: Vec<Span>)
    ensures
        line_view(r@) == header_line(
            key@,
            open_count as nat,
            total_count as nat,
            collapsed,
            *theme,
            axis,
        ),
{
    let marker = if collapsed {
        "▸ "
    } else {
        "▾ "
    };
    let mut line = no_spans();
    push_span(&mut line, marker.to_owned(), Style::strong(theme.accent, theme));
    push_header_name(&mut line, key, theme, axis);
    push_raw(&mut line, "   ");
    let mut counts = decimal(open_count);
    counts.append(" open · ");
    counts.append(decimal(total_count).as_str());
    counts.append(" total");
    push_span(&mut line, counts, Style::fg(theme.muted));
    assert(line_view(line@) =~= header_line(
        key@,
        open_count as nat,
        total_count as nat,
        collapsed,
        *theme,
        axis,
    ));
    line
}

fn task_of(task: &Task, today: &str, theme: &Theme) -> (r: Vec<Span>)
    ensures
        line_view(r@) == task_line(task@, today@, *theme),
{
    let mut line = no_spans();
    let mut indent = String::new();
    push_spaces(&mut indent, 4);
    push_spaces(&mut indent, task.indent);
    assert(indent@ =~= spaces((4 + task.indent) as nat));
    push_raw(&mut line, indent.as_str());
    let mut checkbox = "[".to_owned();
    checkbox.append(task.raw_checkbox_char.as_str());
    checkbox.append("]");
    push_span(&mut line, checkbox, checkbox_style(&task.status, theme));
    let mut words = " ".to_owned();
    words.append(task.text.as_str());
    push_raw(&mut line, words.as_str());
    let ghost base = line_view(line@);
    if let Some(due) = &task.due_date {
        push_raw(&mut line, "  ");
        let mut text = "· ".to_owned();
        text.append(due.as_str());
        push_span(&mut line, text, Style::fg(theme.warning));
    }
    assert(line_view(line@) =~= base + due_spans(task@.due_date, *theme));
    let ghost with_due = line_view(line@);
    if let Some(date) = &task.scheduled_date {
        let style = if same_text(date.as_str(), today) {
            Style::strong(theme.accent_bright, theme)
        } else {
            Style::fg(theme.scheduled)
        };
        push_raw(&mut line, "  ");
        let mut text = "⏳ ".to_owned();
        text.append(date.as_str());
        push_span(&mut line, text, style);
    }
    assert(line_view(line@) =~= with_due + scheduled_spans(task@.scheduled_date, today@, *theme));
    assert(line_view(line@) =~= task_line(task@, today@, *theme));
    line
}

/// A row as it is drawn.
pub fn row_to_item(row: &DisplayRow, today: &str, theme: &Theme, group_by: GroupBy) -> (r: ListItem)
    ensures
        r@ == row_item(row@, today@, *theme, group_by),
{
    match row {
        DisplayRow::Header { group_key, open_count, total_count, collapsed } => ListItem {
            line: header_of(group_key, *open_count, *total_count, *collapsed, theme, group_by),
            style: Style::new(),
        },
        DisplayRow::Task { task } => ListItem {
            line: task_of(task, today, theme),
            style: match task.status {
                Status::Done => Style::strike(),
                _ => Style::new(),
            },
        },
    }
}

/// The items of the list: its rows, and `gap` empty ones before every header but the first row.
pub open spec fn list_items(
    rows: Seq<RowView>,
    today: Seq<char>,
    theme: Theme,
    axis: GroupBy,
    gap: nat,
) -> Seq<ItemView>
    decreases rows.len(),
{
    if rows.len() == 0 {
        seq![]
    } else {
        let before = list_items(rows.drop_last(), today, theme, axis, gap);
        let blanks = if rows.last() is Header && rows.len() > 1 {
            blank_items(gap)
        } else {
            seq![]
        };
        (before + blanks).push(row_item(rows.last(), today, theme, axis))
    }
}

/// Empty items.
pub open spec fn blank_items(n: nat) -> Seq<ItemView> {
    Seq::new(n, |i: int| ItemView { line: Seq::empty(), style: unstyled() })
}

fn push_blanks(items: &mut Vec<ListItem>, n: u8)
    ensures
        item_views(final(items)@) == item_views(old(items)@) + blank_items(n as nat),
{
    let ghost before = item_views(items@);
    let mut i: u8 = 0;
    assert(item_views(items@) =~= before + blank_items(0));
    while i < n
        invariant
            i <= n,
            item_views(items@) =~= before + blank_items(i as nat),
        decreases n - i,
    {
        let ghost had = items@;
        items.push(ListItem { line: no_spans(), style: Style::new() });
        assert(item_views(items@) =~= item_views(had).push(items@.last()@));
        i += 1;
    }
}

/// How many of the rows are headers.
pub open spec fn count_headers(rows: Seq<RowView>) -> nat
    decreases rows.len(),
{
    if rows.len() == 0 {
        0
    } else {
        count_headers(rows.drop_last()) + if rows.last() is Header {
            1nat
        } else {
            0nat
        }
    }
}

/// Where the item of the row `i` stands among the items: after the rows before it and the empty items
/// before every header from the second row to this one.
pub open spec fn item_index(rows: Seq<RowView>, gap: nat, i: int) -> nat {
    (i + gap * count_headers(rows.subrange(1, i + 1))) as nat
}

proof fn items_are_as_many(
    rows: Seq<RowView>,
    today: Seq<char>,
    theme: Theme,
    axis: GroupBy,
    gap: nat,
)
    requires
        rows.len() > 0,
    ensures
        list_items(rows, today, theme, axis, gap).len() == rows.len() + gap * count_headers(
            rows.skip(1),
        ),
    decreases rows.len(),
{
    reveal_with_fuel(list_items, 2);
    let tail = rows.skip(1);
    if rows.len() == 1 {
        assert(tail =~= Seq::<RowView>::empty());
        assert(gap * 0 == 0) by (nonlinear_arith);
    } else {
        items_are_as_many(rows.drop_last(), today, theme, axis, gap);
        assert(tail.drop_last() =~= rows.drop_last().skip(1));
        let n = count_headers(tail.drop_last());
        assert(gap * (n + 1) == gap * n + gap) by (nonlinear_arith);
    }
}

/// The items of the first rows are the first items.
pub(crate) proof fn items_begin_alike(
    rows: Seq<RowView>,
    today: Seq<char>,
    theme: Theme,
    axis: GroupBy,
    gap: nat,
    i: int,
)
    requires
        0 <= i <= rows.len(),
    ensures
        ({
            let part = list_items(rows.take(i), today, theme, axis, gap);
            let all = list_items(rows, today, theme, axis, gap);
            part.len() <= all.len() && forall|k: int|
                0 <= k < part.len() ==> #[trigger] part[k] == all[k]
        }),
    decreases rows.len(),
{
    if i == rows.len() {
        assert(rows.take(i) =~= rows);
    } else {
        items_begin_alike(rows.drop_last(), today, theme, axis, gap, i);
        assert(rows.drop_last().take(i) =~= rows.take(i));
    }
}

/// At its place among the items every row has its own.
pub proof fn row_is_at_its_item(
    rows: Seq<RowView>,
    today: Seq<char>,
    theme: Theme,
    axis: GroupBy,
    gap: nat,
    i: int,
)
    requires
        0 <= i < rows.len(),
    ensures
        ({
            let items = list_items(rows, today, theme, axis, gap);
            let n = item_index(rows, gap, i);
            &&& n < items.len()
            &&& items[n as int] == row_item(rows[i], today, theme, axis)
            &&& n + 1 == list_items(rows.take(i + 1), today, theme, axis, gap).len()
        }),
{
    let part = rows.take(i + 1);
    items_are_as_many(part, today, theme, axis, gap);
    items_begin_alike(rows, today, theme, axis, gap, i + 1);
    assert(part.skip(1) =~= rows.subrange(1, i + 1));
    assert(part.last() == rows[i]);
    let shown = list_items(part, today, theme, axis, gap);
    let n = item_index(rows, gap, i);
    assert(0 <= gap * count_headers(rows.subrange(1, i + 1))) by (nonlinear_arith);
    assert(n + 1 == shown.len());
    assert(shown.last() == row_item(rows[i], today, theme, axis));
    assert(shown[n as int] == list_items(rows, today, theme, axis, gap)[n as int]);
}

/// The items of the list, and the place among them of the item of the row `cursor`.
pub fn items_of(
    rows: &Vec<DisplayRow>,
    today: &str,
    theme: &Theme,
    group_by: GroupBy,
    gap: u8,
    cursor: Option<usize>,
) -> (r: (Vec<ListItem>, Option<usize>))
    ensures
        item_views(r.0@) == list_items(row_views(rows@), today@, *theme, group_by, gap as nat),
        opt_nat(r.1) == (match cursor {
            Some(c) => if c < rows@.len() {
                Some(item_index(row_views(rows@), gap as nat, c as int))
            } else {
                None
            },
            None => None,
        }),
{
    let ghost rv = row_views(rows@);
    let mut items: Vec<ListItem> = Vec::new();
    let mut selected: Option<usize> = None;
    let mut i: usize = 0;
    assert(rv.take(0) =~= Seq::<RowView>::empty());
    assert(item_views(items@) =~= Seq::<ItemView>::empty());
    while i < rows.len()
        invariant
            rv == row_views(rows@),
            i <= rows@.len(),
            item_views(items@) == list_items(
                rv.take(i as int),
                today@,
                *theme,
                group_by,
                gap as nat,
            ),
            opt_nat(selected) == (match cursor {
                Some(c) => if c < i {
                    Some(item_index(rv, gap as nat, c as int))
                } else {
                    None
                },
                None => None,
            }),
        decreases rows@.len() - i,
    {
        assert(rv.take(i + 1).drop_last() =~= rv.take(i as int));
        assert(rv[i as int] == rows@[i as int]@);
        let ghost before = item_views(items@);
        if i > 0 && matches!(rows[i], DisplayRow::Header { .. }) {
            push_blanks(&mut items, gap);
        } else {
            assert(before + Seq::<ItemView>::empty() =~= before);
        }
        let ghost had = items@;
        let place: usize = items.len();
        items.push(row_to_item(&rows[i], today, theme, group_by));
        assert(item_views(items@) =~= item_views(had).push(items@.last()@));
        proof {
            row_is_at_its_item(rv, today@, *theme, group_by, gap as nat, i as int);
        }
        if let Some(c) = cursor {
            if c == i {
                selected = Some(place);
            }
        }
        i += 1;
    }
    assert(rv.take(i as int) =~= rv);
    (items, selected)
}

}
