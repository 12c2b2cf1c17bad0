//! What the rows of the list are.

use vstd::prelude::*;
use crate::grouping::{FilterView, GroupBy, StatusFilter, filter_admits, is_overdue, key_before,
    keys_of, open_like, passes};
use crate::listing::{Entry, RowView, ascending, contains_after_push, count_open, entries,
    first_row, first_row_is_first, group_rows, groups_are_the_keys_in_order, header_row,
    is_header_row, key_order, members, row_note, rows_of_groups, task_entries, task_rows,
    view_rows, visible};
use crate::model::{AppView, ToggleMode, active_filters, all_collapsed, all_expanded, cursor_group,
    cursor_row, fold_target, folded, header_above, header_keys, on_header, recentred, wanted_rows};
use crate::task::TaskView;
use crate::text::{text_before, text_before_irreflexive};

verus! {

// ---------------------------------------------------------------------------
// Members of groups.
// ---------------------------------------------------------------------------

proof fn joined<A>(s: Seq<A>, t: Seq<A>, x: A)
    ensures
        (s + t).contains(x) <==> s.contains(x) || t.contains(x),
{
    if s.contains(x) {
        let j = choose|j: int| 0 <= j < s.len() && s[j] == x;
        assert((s + t)[j] == x);
    }
    if t.contains(x) {
        let j = choose|j: int| 0 <= j < t.len() && t[j] == x;
        assert((s + t)[s.len() + j] == x);
    }
    if (s + t).contains(x) {
        let j = choose|j: int| 0 <= j < (s + t).len() && (s + t)[j] == x;
        if j < s.len() {
            assert(s[j] == x);
        } else {
            assert(t[j - s.len()] == x);
        }
    }
}

proof fn members_hold(es: Seq<Entry>, key: Seq<char>, t: TaskView)
    ensures
        members(es, key).contains(t) <==> es.contains((key, t)),
    decreases es.len(),
{
    if es.len() > 0 {
        let front = es.drop_last();
        members_hold(front, key, t);
        assert(es =~= front.push(es.last()));
        contains_after_push(front, es.last(), (key, t));
        contains_after_push(members(front, key), es.last().1, t);
    }
}

proof fn entries_hold(tasks: Seq<TaskView>, axis: GroupBy, key: Seq<char>, t: TaskView)
    ensures
        entries(tasks, axis).contains((key, t)) <==> tasks.contains(t) && keys_of(t, axis).contains(
            key,
        ),
    decreases tasks.len(),
{
    if tasks.len() > 0 {
        let front = tasks.drop_last();
        let last = tasks.last();
        entries_hold(front, axis, key, t);
        assert(tasks =~= front.push(last));
        contains_after_push(front, last, t);
        joined(entries(front, axis), task_entries(last, axis), (key, t));
        let te = task_entries(last, axis);
        if te.contains((key, t)) {
            let j = choose|j: int| 0 <= j < te.len() && te[j] == (key, t);
            assert(keys_of(last, axis)[j] == key);
        }
        if t == last && keys_of(last, axis).contains(key) {
            let j = choose|j: int| 0 <= j < keys_of(last, axis).len() && keys_of(last, axis)[j] == key;
            assert(te[j] == (key, t));
        }
    }
}

proof fn visible_hold(ts: Seq<TaskView>, f: FilterView, t: TaskView)
    ensures
        visible(ts, f).contains(t) <==> ts.contains(t) && passes(t, f),
    decreases ts.len(),
{
    if ts.len() > 0 {
        let front = ts.drop_last();
        visible_hold(front, f, t);
        assert(ts =~= front.push(ts.last()));
        contains_after_push(front, ts.last(), t);
        contains_after_push(visible(front, f), ts.last(), t);
    }
}

/// The tasks a group shows: those of its tasks that pass the filters.
pub open spec fn shown_in(
    tasks: Seq<TaskView>,
    f: FilterView,
    axis: GroupBy,
    key: Seq<char>,
) -> Seq<TaskView> {
    visible(members(entries(tasks, axis), key), f)
}

/// A group shows exactly the tasks that have its key and pass the filters.
pub proof fn groups_show_what_passes(
    tasks: Seq<TaskView>,
    f: FilterView,
    axis: GroupBy,
    key: Seq<char>,
    t: TaskView,
)
    ensures
        shown_in(tasks, f, axis, key).contains(t) <==> tasks.contains(t) && keys_of(t, axis).contains(
            key,
        ) && passes(t, f),
{
    entries_hold(tasks, axis, key, t);
    members_hold(entries(tasks, axis), key, t);
    visible_hold(members(entries(tasks, axis), key), f, t);
}

// ---------------------------------------------------------------------------
// Rows of groups.
// ---------------------------------------------------------------------------

proof fn above_in_front(front: Seq<RowView>, back: Seq<RowView>, i: nat)
    requires
        i <= front.len(),
    ensures
        header_above(front + back, i) == header_above(front, i),
    decreases i,
{
    if i > 0 {
        assert((front + back)[i - 1] == front[i - 1]);
        above_in_front(front, back, (i - 1) as nat);
    }
}

proof fn above_in_block(front: Seq<RowView>, head: RowView, ts: Seq<TaskView>, j: nat)
    requires
        head is Header,
        j <= ts.len(),
    ensures
        header_above(front + (seq![head] + task_rows(ts)), front.len() + 1 + j) == Some(row_note(head)),
    decreases j,
{
    let all = front + (seq![head] + task_rows(ts));
    if j == 0 {
        assert(all[front.len() as int] == head);
    } else {
        assert(all[front.len() as int + j as int] == task_rows(ts)[j - 1]);
        above_in_block(front, head, ts, (j - 1) as nat);
    }
}

/// What a row of the groups `order` is.
spec fn is_row_of(
    rows: Seq<RowView>,
    i: int,
    order: Seq<Seq<char>>,
    es: Seq<Entry>,
    f: FilterView,
    expanded: Set<Seq<char>>,
) -> bool {
    match rows[i] {
        RowView::Header { group_key, .. } => {
            &&& order.contains(group_key)
            &&& rows[i] == header_row(group_key, members(es, group_key), expanded)
            &&& visible(members(es, group_key), f).len() > 0
        },
        RowView::Task { task } => match header_above(rows, i as nat) {
            Some(key) => {
                &&& order.contains(key)
                &&& expanded.contains(key)
                &&& visible(members(es, key), f).contains(task)
            },
            None => false,
        },
    }
}

proof fn rows_are_sound(
    order: Seq<Seq<char>>,
    es: Seq<Entry>,
    f: FilterView,
    expanded: Set<Seq<char>>,
)
    ensures
        forall|i: int|
            0 <= i < rows_of_groups(order, es, f, expanded).len() ==> #[trigger] is_row_of(
                rows_of_groups(order, es, f, expanded),
                i,
                order,
                es,
                f,
                expanded,
            ),
    decreases order.len(),
{
    let rows = rows_of_groups(order, es, f, expanded);
    if order.len() > 0 {
        let before = order.drop_last();
        let key = order.last();
        let ts = members(es, key);
        let front = rows_of_groups(before, es, f, expanded);
        let block = group_rows(key, ts, f, expanded);
        rows_are_sound(before, es, f, expanded);
        assert(rows == front + block);
        assert(order =~= before.push(key));
        assert forall|i: int| 0 <= i < rows.len() implies #[trigger] is_row_of(
            rows,
            i,
            order,
            es,
            f,
            expanded,
        ) by {
            if i < front.len() {
                assert(is_row_of(front, i, before, es, f, expanded));
                assert(rows[i] == front[i]);
                above_in_front(front, block, i as nat);
                match front[i] {
                    RowView::Header { group_key, .. } => {
                        contains_after_push(before, key, group_key);
                    },
                    RowView::Task { task } => {
                        contains_after_push(before, key, header_above(front, i as nat)->0);
                    },
                }
            } else {
                let vis = visible(ts, f);
                let head = header_row(key, ts, expanded);
                let j = i - front.len();
                assert(rows[i] == block[j]);
                contains_after_push(before, key, key);
                if j == 0 {
                    assert(block[0] == head);
                } else {
                    assert(block == seq![head] + task_rows(vis));
                    assert(block[j] == task_rows(vis)[j - 1]);
                    above_in_block(front, head, vis, (j - 1) as nat);
                    assert(vis.contains(vis[j - 1]));
                }
            }
        }
    }
}

proof fn rows_are_complete(
    order: Seq<Seq<char>>,
    es: Seq<Entry>,
    f: FilterView,
    expanded: Set<Seq<char>>,
    key: Seq<char>,
)
    requires
        order.contains(key),
        visible(members(es, key), f).len() > 0,
    ensures
        rows_of_groups(order, es, f, expanded).contains(
            header_row(key, members(es, key), expanded),
        ),
        expanded.contains(key) ==> forall|t: TaskView| #[trigger]
            visible(members(es, key), f).contains(t) ==> rows_of_groups(
                order,
                es,
                f,
                expanded,
            ).contains(RowView::Task { task: t }),
    decreases order.len(),
{
    let rows = rows_of_groups(order, es, f, expanded);
    let before = order.drop_last();
    let last = order.last();
    let front = rows_of_groups(before, es, f, expanded);
    let block = group_rows(last, members(es, last), f, expanded);
    let head = header_row(key, members(es, key), expanded);
    let vis = visible(members(es, key), f);
    assert(order =~= before.push(last));
    contains_after_push(before, last, key);
    joined(front, block, head);
    if last == key {
        assert(block[0] == head);
        assert forall|t: TaskView| expanded.contains(key) && #[trigger] vis.contains(t) implies rows.contains(
            RowView::Task { task: t },
        ) by {
            let j = choose|j: int| 0 <= j < vis.len() && vis[j] == t;
            assert(block[j + 1] == task_rows(vis)[j]);
            assert(block.contains(RowView::Task { task: t }));
            joined(front, block, RowView::Task { task: t });
        }
    } else {
        rows_are_complete(before, es, f, expanded, key);
        assert forall|t: TaskView| expanded.contains(key) && #[trigger] vis.contains(t) implies rows.contains(
            RowView::Task { task: t },
        ) by {
            joined(front, block, RowView::Task { task: t });
        }
    }
}

proof fn headers_ascend(
    order: Seq<Seq<char>>,
    es: Seq<Entry>,
    f: FilterView,
    expanded: Set<Seq<char>>,
    axis: GroupBy,
)
    requires
        ascending(order, axis),
    ensures
        forall|i: int, j: int|
            0 <= i < j < rows_of_groups(order, es, f, expanded).len() && (
            #[trigger] rows_of_groups(order, es, f, expanded)[i]) is Header && (
            #[trigger] rows_of_groups(order, es, f, expanded)[j]) is Header ==> key_before(
                row_note(rows_of_groups(order, es, f, expanded)[i]),
                row_note(rows_of_groups(order, es, f, expanded)[j]),
                axis,
            ),
        rows_of_groups(order, es, f, expanded).len() > 0 ==> rows_of_groups(
            order,
            es,
            f,
            expanded,
        )[0] is Header,
    decreases order.len(),
{
    let rows = rows_of_groups(order, es, f, expanded);
    if order.len() > 0 {
        let before = order.drop_last();
        let key = order.last();
        let front = rows_of_groups(before, es, f, expanded);
        let block = group_rows(key, members(es, key), f, expanded);
        assert(ascending(before, axis)) by {
            assert forall|i: int, j: int| 0 <= i < j < before.len() implies key_before(
                #[trigger] before[i],
                #[trigger] before[j],
                axis,
            ) by {
                assert(before[i] == order[i]);
                assert(before[j] == order[j]);
            }
        }
        headers_ascend(before, es, f, expanded, axis);
        rows_are_sound(before, es, f, expanded);
        assert forall|i: int, j: int|
            0 <= i < j < rows.len() && (#[trigger] rows[i]) is Header && (#[trigger] rows[j]) is Header implies key_before(
            row_note(rows[i]),
            row_note(rows[j]),
            axis,
        ) by {
            if j < front.len() {
                assert(rows[i] == front[i]);
                assert(rows[j] == front[j]);
            } else {
                assert(rows[j] == block[j - front.len()]);
                assert(j == front.len());
                assert(rows[i] == front[i]);
                assert(is_row_of(front, i, before, es, f, expanded));
                let k = choose|k: int| 0 <= k < before.len() && before[k] == row_note(front[i]);
                assert(order[k] == before[k]);
                assert(key_before(order[k], order[order.len() - 1], axis));
            }
        }
        if front.len() > 0 {
            assert(rows[0] == front[0]);
        }
    }
}

// ---------------------------------------------------------------------------
// The laws.
// ---------------------------------------------------------------------------

/// Nothing is shown that is filtered out or folded away: a task row is a task of the index that
/// passes every filter, under the header of one of its groups, which is unfolded.
pub proof fn shown_tasks_pass(
    tasks: Seq<TaskView>,
    f: FilterView,
    expanded: Set<Seq<char>>,
    axis: GroupBy,
    i: int,
    t: TaskView,
)
    requires
        0 <= i < view_rows(tasks, f, expanded, axis).len(),
        view_rows(tasks, f, expanded, axis)[i] == (RowView::Task { task: t }),
    ensures
        tasks.contains(t),
        passes(t, f),
        header_above(view_rows(tasks, f, expanded, axis), i as nat) matches Some(key) && keys_of(
            t,
            axis,
        ).contains(key) && expanded.contains(key),
{
    let es = entries(tasks, axis);
    let order = key_order(es, axis);
    let rows = view_rows(tasks, f, expanded, axis);
    rows_are_sound(order, es, f, expanded);
    assert(is_row_of(rows, i, order, es, f, expanded));
    groups_show_what_passes(tasks, f, axis, header_above(rows, i as nat)->0, t);
}

/// Nothing that passes is left out: it has a row in each of its unfolded groups, and each of its
/// groups has a header.
pub proof fn passing_tasks_are_shown(
    tasks: Seq<TaskView>,
    f: FilterView,
    expanded: Set<Seq<char>>,
    axis: GroupBy,
    t: TaskView,
    key: Seq<char>,
)
    requires
        tasks.contains(t),
        passes(t, f),
        keys_of(t, axis).contains(key),
    ensures
        expanded.contains(key) ==> view_rows(tasks, f, expanded, axis).contains(
            RowView::Task { task: t },
        ),
        view_rows(tasks, f, expanded, axis).contains(
            header_row(key, members(entries(tasks, axis), key), expanded),
        ),
{
    let es = entries(tasks, axis);
    groups_show_what_passes(tasks, f, axis, key, t);
    entries_hold(tasks, axis, key, t);
    members_hold(es, key, t);
    groups_are_the_keys_in_order(es, axis);
    assert(visible(members(es, key), f).contains(t));
    rows_are_complete(key_order(es, axis), es, f, expanded, key);
}

/// A header stands for a group of which some task is shown, says whether the group is folded, and
/// counts all its tasks, whatever is filtered.
pub proof fn headers_count_everything(
    tasks: Seq<TaskView>,
    f: FilterView,
    expanded: Set<Seq<char>>,
    axis: GroupBy,
    i: int,
)
    requires
        0 <= i < view_rows(tasks, f, expanded, axis).len(),
        view_rows(tasks, f, expanded, axis)[i] is Header,
    ensures
        ({
            let row = view_rows(tasks, f, expanded, axis)[i];
            let key = row_note(row);
            let all = members(entries(tasks, axis), key);
            &&& row == (RowView::Header {
                group_key: key,
                open_count: count_open(all),
                total_count: all.len(),
                collapsed: !expanded.contains(key),
            })
            &&& shown_in(tasks, f, axis, key).len() > 0
        }),
{
    let es = entries(tasks, axis);
    rows_are_sound(key_order(es, axis), es, f, expanded);
    assert(is_row_of(view_rows(tasks, f, expanded, axis), i, key_order(es, axis), es, f, expanded));
}

/// Headers stand in the order of their keys, so no group has two; and the list begins with one.
pub proof fn headers_stand_in_order(
    tasks: Seq<TaskView>,
    f: FilterView,
    expanded: Set<Seq<char>>,
    axis: GroupBy,
)
    ensures
        forall|i: int, j: int|
            0 <= i < j < view_rows(tasks, f, expanded, axis).len() && (
            #[trigger] view_rows(tasks, f, expanded, axis)[i]) is Header && (
            #[trigger] view_rows(tasks, f, expanded, axis)[j]) is Header ==> key_before(
                row_note(view_rows(tasks, f, expanded, axis)[i]),
                row_note(view_rows(tasks, f, expanded, axis)[j]),
                axis,
            ),
        view_rows(tasks, f, expanded, axis).len() > 0 ==> view_rows(
            tasks,
            f,
            expanded,
            axis,
        )[0] is Header,
{
    let es = entries(tasks, axis);
    groups_are_the_keys_in_order(es, axis);
    headers_ascend(key_order(es, axis), es, f, expanded, axis);
}

/// The filters compose: a task passes all of them where it passes each alone.
pub proof fn filters_compose(t: TaskView, f: FilterView)
    ensures
        passes(t, f) <==> filter_admits(f.status, t.status) && passes(
            t,
            FilterView { status: StatusFilter::All, search: seq![], file: seq![], overdue_only: false, ..f },
        ) && passes(
            t,
            FilterView { status: StatusFilter::All, today_only: false, file: seq![], overdue_only: false, ..f },
        ) && passes(
            t,
            FilterView { status: StatusFilter::All, today_only: false, search: seq![], overdue_only: false, ..f },
        ) && passes(
            t,
            FilterView { status: StatusFilter::All, today_only: false, search: seq![], file: seq![], ..f },
        ),
{
}

/// With every filter off all tasks pass.
pub proof fn no_filter_hides_nothing(t: TaskView, f: FilterView)
    requires
        f.status == StatusFilter::All,
        !f.today_only,
        !f.overdue_only,
        f.search.len() == 0,
        f.file.len() == 0,
    ensures
        passes(t, f),
{
}

/// A task counts as open exactly where the open filter lets it through.
pub proof fn open_filter_agrees_with_counts(t: TaskView)
    ensures
        open_like(t.status) <==> filter_admits(StatusFilter::Open, t.status),
{
}

/// No task is both overdue and due today, and none without a due date is overdue.
pub proof fn overdue_is_before_today(t: TaskView, today: Seq<char>)
    ensures
        t.due_date is None ==> !is_overdue(t, today),
        t.due_date == Some(today) ==> !is_overdue(t, today),
{
    text_before_irreflexive(today);
}

/// The value of a decimal digit.
pub open spec fn digit_value(c: char) -> int {
    c as int - 48
}

/// Whether a text is a date as `YYYY-MM-DD`.
pub open spec fn is_date(s: Seq<char>) -> bool {
    &&& s.len() == 10
    &&& s[4] == '-' && s[7] == '-'
    &&& forall|i: int| 0 <= i < 10 && i != 4 && i != 7 ==> '0' <= #[trigger] s[i] && s[i] <= '9'
}

/// The year, the month and the day of a date, as a number that grows with the date.
pub open spec fn date_number(s: Seq<char>) -> int {
    let year = 1000 * digit_value(s[0]) + 100 * digit_value(s[1]) + 10 * digit_value(s[2])
        + digit_value(s[3]);
    let month = 10 * digit_value(s[5]) + digit_value(s[6]);
    let day = 10 * digit_value(s[8]) + digit_value(s[9]);
    10000 * year + 100 * month + day
}

/// Where two texts that agree so far differ next decides their order.
proof fn order_is_decided(a: Seq<char>, b: Seq<char>, k: int)
    requires
        0 <= k < a.len(),
        a.len() == b.len(),
        forall|i: int| 0 <= i < k ==> a[i] == b[i],
        a[k] != b[k],
    ensures
        text_before(a, b) == (a[k] < b[k]),
    decreases a.len(),
{
    if k > 0 {
        order_is_decided(a.drop_first(), b.drop_first(), k - 1);
    }
}

/// Dates are ordered as texts just as they are in time, so a task is overdue exactly where its due
/// date is an earlier day.
pub proof fn dates_order_as_texts(t: TaskView, due: Seq<char>, today: Seq<char>)
    requires
        is_date(due),
        is_date(today),
        t.due_date == Some(due),
    ensures
        is_overdue(t, today) <==> date_number(due) < date_number(today),
{
    if due == today {
        text_before_irreflexive(due);
    } else {
        let k = first_difference(due, today);
        order_is_decided(due, today, k);
        assert(k != 4 && k != 7);
    }
}

/// The first place where two texts of one length differ.
proof fn first_difference(a: Seq<char>, b: Seq<char>) -> (k: int)
    requires
        a.len() == b.len(),
        a != b,
    ensures
        0 <= k < a.len(),
        a[k] != b[k],
        forall|i: int| 0 <= i < k ==> a[i] == b[i],
    decreases a.len(),
{
    if a.len() == 0 {
        assert(a =~= b);
        0
    } else if a[0] != b[0] {
        0
    } else {
        if a.drop_first() == b.drop_first() {
            assert(a =~= seq![a[0]] + a.drop_first());
            assert(b =~= seq![b[0]] + b.drop_first());
        }
        let k = first_difference(a.drop_first(), b.drop_first());
        assert forall|i: int| 0 <= i < k + 1 implies a[i] == b[i] by {
            if i > 0 {
                assert(a.drop_first()[i - 1] == b.drop_first()[i - 1]);
            }
        }
        k + 1
    }
}

/// Every task stands in a group, and only under the tag axis in more than one.
pub proof fn every_task_has_a_group(t: TaskView, axis: GroupBy)
    ensures
        keys_of(t, axis).len() >= 1,
        axis != GroupBy::Tag ==> keys_of(t, axis).len() == 1,
{
}

// ---------------------------------------------------------------------------
// Folding.
// ---------------------------------------------------------------------------

proof fn header_keys_hold(rows: Seq<RowView>, key: Seq<char>)
    ensures
        header_keys(rows).contains(key) <==> exists|i: int|
            0 <= i < rows.len() && (#[trigger] rows[i]) is Header && row_note(rows[i]) == key,
    decreases rows.len(),
{
    if rows.len() > 0 {
        let front = rows.drop_last();
        header_keys_hold(front, key);
        if header_keys(front).contains(key) {
            let i = choose|i: int|
                0 <= i < front.len() && (#[trigger] front[i]) is Header && row_note(front[i]) == key;
            assert(rows[i] == front[i]);
        }
        if exists|i: int| 0 <= i < rows.len() && (#[trigger] rows[i]) is Header && row_note(rows[i]) == key {
            let i = choose|i: int|
                0 <= i < rows.len() && (#[trigger] rows[i]) is Header && row_note(rows[i]) == key;
            if i < front.len() {
                assert(front[i] == rows[i]);
            }
        }
        assert(rows[rows.len() - 1] == rows.last());
    }
}

/// Which groups have a header does not depend on which are unfolded.
proof fn headers_survive_folding(
    tasks: Seq<TaskView>,
    f: FilterView,
    expanded: Set<Seq<char>>,
    other: Set<Seq<char>>,
    axis: GroupBy,
    i: int,
)
    requires
        0 <= i < view_rows(tasks, f, expanded, axis).len(),
        view_rows(tasks, f, expanded, axis)[i] is Header,
    ensures
        ({
            let key = row_note(view_rows(tasks, f, expanded, axis)[i]);
            view_rows(tasks, f, other, axis).contains(
                header_row(key, members(entries(tasks, axis), key), other),
            )
        }),
{
    let key = row_note(view_rows(tasks, f, expanded, axis)[i]);
    headers_count_everything(tasks, f, expanded, axis, i);
    let shown = shown_in(tasks, f, axis, key);
    assert(shown.contains(shown[0]));
    groups_show_what_passes(tasks, f, axis, key, shown[0]);
    passing_tasks_are_shown(tasks, f, other, axis, shown[0], key);
}

/// Folding every group leaves nothing but folded headers.
pub proof fn collapsing_all_leaves_headers(a: AppView, i: int)
    requires
        0 <= i < all_collapsed(a).rows.len(),
    ensures
        all_collapsed(a).rows[i] matches RowView::Header { collapsed, .. } && collapsed,
{
    let none = Set::<Seq<char>>::empty();
    match all_collapsed(a).rows[i] {
        RowView::Header { .. } => {
            headers_count_everything(a.tasks, active_filters(a), none, a.group_by, i);
        },
        RowView::Task { task } => {
            shown_tasks_pass(a.tasks, active_filters(a), none, a.group_by, i, task);
        },
    }
}

/// Unfolding every group leaves no folded header.
pub proof fn expanding_all_unfolds(a: AppView, i: int)
    requires
        a.rows == wanted_rows(a),
        0 <= i < all_expanded(a).rows.len(),
        all_expanded(a).rows[i] is Header,
    ensures
        all_expanded(a).rows[i] matches RowView::Header { collapsed, .. } && !collapsed,
{
    let f = active_filters(a);
    let all = a.expanded.union(header_keys(a.rows));
    let key = row_note(all_expanded(a).rows[i]);
    headers_count_everything(a.tasks, f, all, a.group_by, i);
    headers_survive_folding(a.tasks, f, all, a.expanded, a.group_by, i);
    let head = header_row(key, members(entries(a.tasks, a.group_by), key), a.expanded);
    let j = choose|j: int| 0 <= j < a.rows.len() && a.rows[j] == head;
    assert(a.rows[j] is Header);
    header_keys_hold(a.rows, key);
}

/// A fold key changes its own group alone: every other header is folded or not as before.
pub proof fn folding_changes_one_group(a: AppView, mode: ToggleMode, i: int)
    requires
        fold_target(a, mode) is Some,
        0 <= i < folded(a, mode).rows.len(),
    ensures
        ({
            let (key, want) = fold_target(a, mode)->0;
            folded(a, mode).rows[i] matches RowView::Header { group_key, collapsed, .. }
                ==> if group_key == key {
                collapsed == !want
            } else {
                collapsed == !a.expanded.contains(group_key)
            }
        }),
{
    let (key, want) = fold_target(a, mode)->0;
    let expanded = if want {
        a.expanded.insert(key)
    } else {
        a.expanded.remove(key)
    };
    if folded(a, mode).rows[i] is Header {
        headers_count_everything(a.tasks, active_filters(a), expanded, a.group_by, i);
    }
}

/// A header of the folded or unfolded group is found, and the cursor is on it.
proof fn header_takes_the_cursor(a: AppView, expanded: Set<Seq<char>>, key: Seq<char>)
    requires
        header_keys(a.rows) == header_keys(wanted_rows(a)),
        header_keys(a.rows).contains(key),
    ensures
        ({
            let b = recentred(AppView { expanded, ..a });
            cursor_row(on_header(b, key)) matches Some(RowView::Header { group_key, collapsed, .. })
                && group_key == key && collapsed == !expanded.contains(key)
        }),
{
    let f = active_filters(a);
    let axis = a.group_by;
    let before = wanted_rows(a);
    let b = AppView { expanded, ..a };
    let rows = wanted_rows(b);
    assert(rows == view_rows(a.tasks, f, expanded, axis));
    assert(before == view_rows(a.tasks, f, a.expanded, axis));
    header_keys_hold(before, key);
    let i = choose|i: int| 0 <= i < before.len() && before[i] is Header && row_note(before[i]) == key;
    headers_survive_folding(a.tasks, f, a.expanded, expanded, axis, i);
    let head = header_row(key, members(entries(a.tasks, axis), key), expanded);
    let j = choose|j: int| 0 <= j < rows.len() && rows[j] == head;
    let p = is_header_row(key);
    first_row_is_first(rows, p);
    assert(p(rows[j]));
    let n = first_row(rows, p)->0 as int;
    headers_count_everything(a.tasks, f, expanded, axis, n);
}

/// Folding or unfolding a group leaves the cursor on its header, on every axis, and also from one of
/// its tasks. The list need only have the headers that the state asks for.
pub proof fn folding_lands_on_the_header(a: AppView, mode: ToggleMode)
    requires
        header_keys(a.rows) == header_keys(wanted_rows(a)),
        fold_target(a, mode) is Some,
    ensures
        ({
            let (key, want) = fold_target(a, mode)->0;
            cursor_row(folded(a, mode)) matches Some(RowView::Header { group_key, collapsed, .. })
                && group_key == key && collapsed == !want
        }),
{
    let (key, want) = fold_target(a, mode)->0;
    cursor_group_has_a_header(a);
    if want {
        header_takes_the_cursor(a, a.expanded.insert(key), key);
    } else {
        header_takes_the_cursor(a, a.expanded.remove(key), key);
    }
}

/// Folding every group leaves the cursor on the header of the group it was in.
pub proof fn collapsing_all_lands_on_the_header(a: AppView)
    requires
        header_keys(a.rows) == header_keys(wanted_rows(a)),
        cursor_group(a) is Some,
    ensures
        cursor_row(all_collapsed(a)) matches Some(RowView::Header { group_key, collapsed, .. })
            && Some(group_key) == cursor_group(a) && collapsed,
{
    cursor_group_has_a_header(a);
    header_takes_the_cursor(a, Set::empty(), cursor_group(a)->0);
}

/// The key above a position is that of a header there.
proof fn header_above_is_a_header(rows: Seq<RowView>, i: nat)
    requires
        i <= rows.len(),
    ensures
        header_above(rows, i) matches Some(key) ==> exists|j: int|
            0 <= j < i && (#[trigger] rows[j]) is Header && row_note(rows[j]) == key,
    decreases i,
{
    if i > 0 && rows[i - 1] is Task {
        header_above_is_a_header(rows, (i - 1) as nat);
    }
}

proof fn cursor_group_has_a_header(a: AppView)
    ensures
        cursor_group(a) matches Some(key) ==> header_keys(a.rows).contains(key),
{
    if let Some(key) = cursor_group(a) {
        let i = a.row->0;
        header_above_is_a_header(a.rows, i);
        header_keys_hold(a.rows, key);
        assert(a.rows[i as int] is Header ==> row_note(a.rows[i as int]) == key);
    }
}

}
