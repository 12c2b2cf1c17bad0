//! What the list is for: the tasks of the index, grouped and filtered.

use vstd::prelude::*;
use crate::grouping::{GroupBy, StatusFilter, key_before, keys_of, passes, sort_rank};
use crate::listing::{Entry, RowView, contains_after_push, count_open, entries, first_row_is_first,
    group_rows, header_row, is_note_row, is_task_row, key_order, members, reconciled, row_note,
    rows_of_groups, task_entries, task_rows, view_rows, visible};
use crate::model::{AppView, active_filters, cursor_note, cursor_row, cursor_task, rebuilt,
    recentred, refreshed, wanted_rows};
use crate::paths::{dir_len, dir_len_is_last_slash, file_name, folder_key};
use crate::task::{PriorityView, TaskView};
use crate::text::{contains_text, lowercase, occurs_at, text_before_irreflexive};
use crate::text_laws::{comes_before, filtering_one_more, order_is_of_a_dictionary};
use crate::view_laws::{headers_count_everything, headers_stand_in_order, passing_tasks_are_shown,
    shown_tasks_pass};

verus! {

// ---------------------------------------------------------------------------
// What is asked for.
// ---------------------------------------------------------------------------

/// Whether `query` stands somewhere in `text`, both in lower case.
pub open spec fn found_in(text: Seq<char>, query: Seq<char>) -> bool {
    exists|k: int| #[trigger] stands_at(lowercase(text), lowercase(query), k)
}

/// Whether the characters of `hay` from `k` on begin with those of `needle`.
pub open spec fn stands_at(hay: Seq<char>, needle: Seq<char>, k: int) -> bool {
    &&& 0 <= k <= hay.len() - needle.len()
    &&& forall|j: int| 0 <= j < needle.len() ==> #[trigger] hay[k + j] == needle[j]
}

/// Whether the state asks for a task to be seen.
pub open spec fn asked_for(a: AppView, t: TaskView) -> bool {
    &&& a.filter == StatusFilter::Open ==> t.status is Open || t.status is InProgress
    &&& a.filter == StatusFilter::Done ==> t.status is Done
    &&& a.today_only ==> t.scheduled_date == Some(a.today) || t.due_date == Some(a.today)
    &&& a.overdue_only ==> (t.due_date matches Some(due) && comes_before(due, a.today))
    &&& a.search_query.len() > 0 ==> found_in(t.text, a.search_query)
    &&& a.file_query.len() > 0 ==> found_in(t.note_path, a.file_query)
}

/// The place of a priority, the most important first.
pub open spec fn level(p: Option<PriorityView>) -> int {
    match p {
        Some(PriorityView::Highest) => 0,
        Some(PriorityView::High) => 1,
        Some(PriorityView::Medium) => 2,
        Some(PriorityView::Low) => 3,
        Some(PriorityView::Lowest) => 4,
        _ => 5,
    }
}

/// Whether a task stands in the group `key`.
pub open spec fn stands_in(t: TaskView, axis: GroupBy, key: Seq<char>) -> bool {
    match axis {
        GroupBy::FolderNote => key == t.note_path,
        GroupBy::Note => {
            let n = t.note_path.len() - key.len();
            &&& !key.contains('/')
            &&& 0 <= n
            &&& key == t.note_path.skip(n)
            &&& n > 0 ==> t.note_path[n - 1] == '/'
        },
        GroupBy::Tag => if t.tags.len() == 0 {
            key == "(untagged)"@
        } else {
            t.tags.contains(key)
        },
        GroupBy::Priority => key == (if level(t.priority) == 0 {
            "Highest"@
        } else if level(t.priority) == 1 {
            "High"@
        } else if level(t.priority) == 2 {
            "Medium"@
        } else if level(t.priority) == 3 {
            "Low"@
        } else if level(t.priority) == 4 {
            "Lowest"@
        } else {
            "(no priority)"@
        }),
        GroupBy::Folder => key == folder_key(t.note_path),
    }
}

/// Whether no task has a tag twice.
pub open spec fn tags_are_distinct(tasks: Seq<TaskView>) -> bool {
    forall|i: int| 0 <= i < tasks.len() ==> (#[trigger] tasks[i]).tags.no_duplicates()
}

/// The tasks of a group.
pub open spec fn of_group(axis: GroupBy, key: Seq<char>) -> spec_fn(TaskView) -> bool {
    |t: TaskView| stands_in(t, axis, key)
}

/// The tasks of a group that the state asks for.
pub open spec fn asked_of_group(a: AppView, key: Seq<char>) -> spec_fn(TaskView) -> bool {
    |t: TaskView| stands_in(t, a.group_by, key) && asked_for(a, t)
}

/// The tasks of a group that are unstarted or in progress.
pub open spec fn open_of_group(axis: GroupBy, key: Seq<char>) -> spec_fn(TaskView) -> bool {
    |t: TaskView| stands_in(t, axis, key) && (t.status is Open || t.status is InProgress)
}

// ---------------------------------------------------------------------------
// Filters and keys.
// ---------------------------------------------------------------------------

proof fn standing_is_occurring(hay: Seq<char>, needle: Seq<char>)
    ensures
        contains_text(hay, needle) <==> exists|k: int| #[trigger] stands_at(hay, needle, k),
{
    if contains_text(hay, needle) {
        let k = choose|k: int| occurs_at(hay, needle, k);
        assert forall|j: int| 0 <= j < needle.len() implies #[trigger] hay[k + j] == needle[j] by {
            assert(hay.subrange(k, k + needle.len())[j] == needle[j]);
        }
        assert(stands_at(hay, needle, k));
    }
    if exists|k: int| #[trigger] stands_at(hay, needle, k) {
        let k = choose|k: int| #[trigger] stands_at(hay, needle, k);
        let cut = hay.subrange(k, k + needle.len());
        assert forall|j: int| 0 <= j < needle.len() implies cut[j] == needle[j] by {
            assert(hay[k + j] == needle[j]);
        }
        assert(cut =~= needle);
        assert(occurs_at(hay, needle, k));
    }
}

/// The filters let through exactly the tasks that are asked for: by status, for today, overdue, and by
/// words in the text and in the path of the note, each alone and all together.
pub proof fn filters_let_through_what_is_asked_for(a: AppView, t: TaskView)
    ensures
        passes(t, active_filters(a)) <==> asked_for(a, t),
{
    standing_is_occurring(lowercase(t.text), lowercase(a.search_query));
    standing_is_occurring(lowercase(t.note_path), lowercase(a.file_query));
    match t.due_date {
        Some(due) => {
            order_is_of_a_dictionary(due, a.today);
        },
        None => {},
    }
}

proof fn file_names_are_keys(path: Seq<char>, key: Seq<char>)
    ensures
        key == file_name(path) <==> {
            let n = path.len() - key.len();
            &&& !key.contains('/')
            &&& 0 <= n
            &&& key == path.skip(n)
            &&& n > 0 ==> path[n - 1] == '/'
        },
{
    dir_len_is_last_slash(path);
    let d = dir_len(path) as int;
    let name = file_name(path);
    assert(path.skip(0) =~= path);
    assert(name =~= path.skip(d));
    assert(!name.contains('/')) by {
        if name.contains('/') {
            let j = choose|j: int| 0 <= j < name.len() && name[j] == '/';
            assert(path[d + j] == '/');
        }
    }
    let n = path.len() - key.len();
    if !key.contains('/') && 0 <= n && key == path.skip(n) && (n > 0 ==> path[n - 1] == '/') {
        if n < d {
            assert(key[d - 1 - n] == '/');
        }
        assert(n == d);
    }
}

/// A task has a group key exactly where it stands in that group.
pub proof fn keys_name_the_groups(t: TaskView, axis: GroupBy, key: Seq<char>)
    ensures
        keys_of(t, axis).contains(key) <==> stands_in(t, axis, key),
{
    file_names_are_keys(t.note_path, key);
    let keys = keys_of(t, axis);
    if axis != GroupBy::Tag || t.tags.len() == 0 {
        assert(keys.contains(keys[0]));
        if keys.contains(key) {
            assert(keys[0] == key);
        }
    }
}

// ---------------------------------------------------------------------------
// Groups.
// ---------------------------------------------------------------------------

proof fn members_of_both(es: Seq<Entry>, more: Seq<Entry>, key: Seq<char>)
    ensures
        members(es + more, key) == members(es, key) + members(more, key),
    decreases more.len(),
{
    if more.len() == 0 {
        assert(es + more =~= es);
        assert(members(es, key) + members(more, key) =~= members(es, key));
    } else {
        let front = more.drop_last();
        members_of_both(es, front, key);
        assert((es + more).drop_last() =~= es + front);
        if more.last().0 == key {
            assert(members(es, key) + members(front, key).push(more.last().1) =~= (members(es, key)
                + members(front, key)).push(more.last().1));
        }
    }
}

/// A list of keys without duplicates gives its task once, or not at all.
proof fn task_is_a_member_once(t: TaskView, keys: Seq<Seq<char>>, key: Seq<char>)
    requires
        keys.no_duplicates(),
    ensures
        members(keys.map_values(|k: Seq<char>| (k, t)), key) == (if keys.contains(key) {
            seq![t]
        } else {
            seq![]
        }),
    decreases keys.len(),
{
    let es = keys.map_values(|k: Seq<char>| (k, t));
    if keys.len() > 0 {
        let front = keys.drop_last();
        assert(es.drop_last() =~= front.map_values(|k: Seq<char>| (k, t)));
        task_is_a_member_once(t, front, key);
        assert(es.last() == (keys.last(), t));
        assert(keys =~= front.push(keys.last()));
        contains_after_push(front, keys.last(), key);
        if keys.last() == key {
            if front.contains(key) {
                let j = choose|j: int| 0 <= j < front.len() && front[j] == key;
                assert(keys[j] == keys[keys.len() - 1]);
            }
            assert(Seq::<TaskView>::empty().push(t) =~= seq![t]);
        }
    }
}

/// The members of a group are its tasks, in the order of the index.
proof fn members_are_the_tasks_of_the_group(tasks: Seq<TaskView>, axis: GroupBy, key: Seq<char>)
    requires
        tags_are_distinct(tasks),
    ensures
        members(entries(tasks, axis), key) == tasks.filter(of_group(axis, key)),
    decreases tasks.len(),
{
    reveal(Seq::filter);
    if tasks.len() > 0 {
        let front = tasks.drop_last();
        let t = tasks.last();
        assert(tags_are_distinct(front)) by {
            assert forall|i: int| 0 <= i < front.len() implies (
            #[trigger] front[i]).tags.no_duplicates() by {
                assert(tasks[i] == front[i]);
            }
        }
        members_are_the_tasks_of_the_group(front, axis, key);
        members_of_both(entries(front, axis), task_entries(t, axis), key);
        let keys = keys_of(t, axis);
        assert(tasks[tasks.len() - 1].tags.no_duplicates());
        assert(keys.no_duplicates());
        task_is_a_member_once(t, keys, key);
        keys_name_the_groups(t, axis, key);
        let mine = members(entries(front, axis), key);
        assert(mine + seq![t] =~= mine.push(t));
        assert(mine + Seq::<TaskView>::empty() =~= mine);
    }
}

/// Two filters one after the other.
proof fn filtering_twice<A>(s: Seq<A>, p: spec_fn(A) -> bool, q: spec_fn(A) -> bool, both: spec_fn(A) -> bool)
    requires
        forall|x: A| #[trigger] both(x) <==> p(x) && q(x),
    ensures
        s.filter(p).filter(q) == s.filter(both),
    decreases s.len(),
{
    reveal(Seq::filter);
    if s.len() > 0 {
        let front = s.drop_last();
        filtering_twice(front, p, q, both);
        filtering_one_more(front.filter(p), s.last(), q);
    }
}

proof fn visible_is_a_filter(ts: Seq<TaskView>, a: AppView, p: spec_fn(TaskView) -> bool)
    requires
        forall|t: TaskView| #[trigger] p(t) <==> asked_for(a, t),
    ensures
        visible(ts, active_filters(a)) == ts.filter(p),
    decreases ts.len(),
{
    reveal(Seq::filter);
    if ts.len() > 0 {
        visible_is_a_filter(ts.drop_last(), a, p);
        filters_let_through_what_is_asked_for(a, ts.last());
    }
}

proof fn open_count_is_a_filter(ts: Seq<TaskView>, p: spec_fn(TaskView) -> bool)
    requires
        forall|t: TaskView| #[trigger] p(t) <==> t.status is Open || t.status is InProgress,
    ensures
        count_open(ts) == ts.filter(p).len(),
    decreases ts.len(),
{
    reveal(Seq::filter);
    if ts.len() > 0 {
        open_count_is_a_filter(ts.drop_last(), p);
    }
}

/// How many tasks are open: those that are unstarted or in progress, no others.
pub proof fn open_tasks_are_counted(ts: Seq<TaskView>)
    ensures
        count_open(ts) == ts.filter(|t: TaskView| t.status is Open || t.status is InProgress).len(),
{
    open_count_is_a_filter(ts, |t: TaskView| t.status is Open || t.status is InProgress);
}

// ---------------------------------------------------------------------------
// Rows.
// ---------------------------------------------------------------------------

/// Whether the rows below the header at `i` are those of `ts`, and the next group follows.
pub open spec fn followed_by(rows: Seq<RowView>, i: int, ts: Seq<TaskView>) -> bool {
    &&& i + 1 + ts.len() <= rows.len()
    &&& forall|k: int| 0 <= k < ts.len() ==> #[trigger] rows[i + 1 + k] == (RowView::Task { task: ts[k] })
    &&& i + 1 + ts.len() < rows.len() ==> rows[i + 1 + ts.len()] is Header
}

proof fn blocks_stand_below_their_headers(
    order: Seq<Seq<char>>,
    es: Seq<Entry>,
    a: AppView,
    expanded: Set<Seq<char>>,
    i: int,
)
    requires
        0 <= i < rows_of_groups(order, es, active_filters(a), expanded).len(),
        rows_of_groups(order, es, active_filters(a), expanded)[i] is Header,
    ensures
        ({
            let rows = rows_of_groups(order, es, active_filters(a), expanded);
            let key = row_note(rows[i]);
            followed_by(
                rows,
                i,
                if expanded.contains(key) {
                    visible(members(es, key), active_filters(a))
                } else {
                    seq![]
                },
            )
        }),
    decreases order.len(),
{
    let f = active_filters(a);
    let rows = rows_of_groups(order, es, f, expanded);
    let before = order.drop_last();
    let key = order.last();
    let front = rows_of_groups(before, es, f, expanded);
    let block = group_rows(key, members(es, key), f, expanded);
    assert(rows == front + block);
    let k = row_note(rows[i]);
    let ts = if expanded.contains(k) {
        visible(members(es, k), f)
    } else {
        seq![]
    };
    if i < front.len() {
        assert(rows[i] == front[i]);
        blocks_stand_below_their_headers(before, es, a, expanded, i);
        assert forall|n: int| 0 <= n < ts.len() implies #[trigger] rows[i + 1 + n] == (
        RowView::Task { task: ts[n] }) by {
            assert(front[i + 1 + n] == rows[i + 1 + n]);
        }
        if i + 1 + ts.len() < front.len() {
            assert(rows[i + 1 + ts.len()] == front[i + 1 + ts.len()]);
        } else if block.len() > 0 {
            assert(rows[i + 1 + ts.len()] == block[0]);
        }
    } else {
        let j = i - front.len();
        assert(rows[i] == block[j]);
        let vis = visible(members(es, key), f);
        if j > 0 {
            assert(block[j] == task_rows(vis)[j - 1]);
        }
        assert(j == 0);
        assert forall|n: int| 0 <= n < ts.len() implies #[trigger] rows[i + 1 + n] == (
        RowView::Task { task: ts[n] }) by {
            assert(rows[i + 1 + n] == block[1 + n]);
            assert(block[1 + n] == task_rows(vis)[n]);
        }
    }
}

/// What every group of the list is: its header counts all tasks of the group and the open ones among
/// them, whatever is filtered; below it, where the group is unfolded, stand those of its tasks that are
/// asked for, in the order of the index, and then the next group. No group without such a task is
/// listed.
pub proof fn groups_list_their_tasks(a: AppView, i: int)
    requires
        tags_are_distinct(a.tasks),
        0 <= i < rebuilt(a).rows.len(),
        rebuilt(a).rows[i] is Header,
    ensures
        ({
            let rows = rebuilt(a).rows;
            let key = rows[i]->group_key;
            let shown = a.tasks.filter(asked_of_group(a, key));
            &&& rows[i]->total_count == a.tasks.filter(of_group(a.group_by, key)).len()
            &&& rows[i]->open_count == a.tasks.filter(open_of_group(a.group_by, key)).len()
            &&& rows[i]->collapsed == !a.expanded.contains(key)
            &&& shown.len() > 0
            &&& followed_by(
                rows,
                i,
                if a.expanded.contains(key) {
                    shown
                } else {
                    seq![]
                },
            )
        }),
{
    let f = active_filters(a);
    let axis = a.group_by;
    let rows = rebuilt(a).rows;
    assert(rows == view_rows(a.tasks, f, a.expanded, axis));
    headers_count_everything(a.tasks, f, a.expanded, axis, i);
    let key = row_note(rows[i]);
    let es = entries(a.tasks, axis);
    blocks_stand_below_their_headers(key_order(es, axis), es, a, a.expanded, i);
    let mine = a.tasks.filter(of_group(axis, key));
    members_are_the_tasks_of_the_group(a.tasks, axis, key);
    let p = |t: TaskView| asked_for(a, t);
    visible_is_a_filter(mine, a, p);
    filtering_twice(a.tasks, of_group(axis, key), p, asked_of_group(a, key));
    let q = |t: TaskView| t.status is Open || t.status is InProgress;
    open_count_is_a_filter(mine, q);
    filtering_twice(a.tasks, of_group(axis, key), q, open_of_group(axis, key));
}

/// The open count of a header is of the tasks of its group that are unstarted or in progress, however
/// often a task stands in the group: a task of any other status adds nothing.
pub proof fn open_counts_are_of_open_tasks(a: AppView, i: int)
    requires
        0 <= i < rebuilt(a).rows.len(),
        rebuilt(a).rows[i] is Header,
    ensures
        rebuilt(a).rows[i]->open_count == members(
            entries(a.tasks, a.group_by),
            rebuilt(a).rows[i]->group_key,
        ).filter(|t: TaskView| t.status is Open || t.status is InProgress).len(),
{
    headers_count_everything(a.tasks, active_filters(a), a.expanded, a.group_by, i);
    open_tasks_are_counted(members(entries(a.tasks, a.group_by), rebuilt(a).rows[i]->group_key));
}

/// A task that is neither unstarted nor in progress adds nothing to how many are open; one that is adds
/// one.
pub proof fn only_open_tasks_add_up(ts: Seq<TaskView>, t: TaskView)
    ensures
        count_open(ts.push(t)) == count_open(ts) + (if t.status is Open || t.status is InProgress {
            1int
        } else {
            0
        }),
{
    assert(ts.push(t).drop_last() =~= ts);
}

/// A task that is asked for has a row in each of its groups that is unfolded, and every one of its
/// groups has a header.
pub proof fn asked_tasks_are_listed(a: AppView, t: TaskView, key: Seq<char>)
    requires
        a.tasks.contains(t),
        asked_for(a, t),
        stands_in(t, a.group_by, key),
    ensures
        exists|i: int|
            0 <= i < rebuilt(a).rows.len() && (#[trigger] rebuilt(a).rows[i]) is Header
                && rebuilt(a).rows[i]->group_key == key,
        a.expanded.contains(key) ==> rebuilt(a).rows.contains(RowView::Task { task: t }),
{
    keys_name_the_groups(t, a.group_by, key);
    filters_let_through_what_is_asked_for(a, t);
    let f = active_filters(a);
    passing_tasks_are_shown(a.tasks, f, a.expanded, a.group_by, t, key);
    let rows = rebuilt(a).rows;
    let head = header_row(key, members(entries(a.tasks, a.group_by), key), a.expanded);
    let i = choose|i: int| 0 <= i < rows.len() && rows[i] == head;
    assert(rows[i] is Header && rows[i]->group_key == key);
}

/// A row of a task is that of a task of the index that is asked for.
pub proof fn listed_tasks_are_asked_for(a: AppView, i: int, t: TaskView)
    requires
        0 <= i < rebuilt(a).rows.len(),
        rebuilt(a).rows[i] == (RowView::Task { task: t }),
    ensures
        a.tasks.contains(t),
        asked_for(a, t),
{
    shown_tasks_pass(a.tasks, active_filters(a), a.expanded, a.group_by, i, t);
    filters_let_through_what_is_asked_for(a, t);
}

/// Under the open filter no task is listed but those that are unstarted or in progress; under the done
/// filter none but those that are done.
pub proof fn closed_tasks_are_not_open(a: AppView, i: int, t: TaskView)
    requires
        0 <= i < rebuilt(a).rows.len(),
        rebuilt(a).rows[i] == (RowView::Task { task: t }),
    ensures
        a.filter == StatusFilter::Open ==> t.status is Open || t.status is InProgress,
        a.filter == StatusFilter::Done ==> t.status is Done,
{
    listed_tasks_are_asked_for(a, i, t);
}

/// Groups stand in the order of the dictionary, and under the priority axis the more important ones
/// first. The list begins with a group.
pub proof fn groups_stand_in_order(a: AppView, i: int, j: int)
    requires
        0 <= i < j < rebuilt(a).rows.len(),
        rebuilt(a).rows[i] is Header,
        rebuilt(a).rows[j] is Header,
    ensures
        rebuilt(a).rows[0] is Header,
        ({
            let x = rebuilt(a).rows[i]->group_key;
            let y = rebuilt(a).rows[j]->group_key;
            if a.group_by == GroupBy::Priority {
                forall|t: TaskView, u: TaskView|
                    #![trigger a.tasks.contains(t), a.tasks.contains(u)]
                    a.tasks.contains(t) && a.tasks.contains(u) && stands_in(t, a.group_by, x)
                        && stands_in(u, a.group_by, y) ==> level(t.priority) < level(u.priority)
            } else {
                comes_before(x, y)
            }
        }),
{
    let f = active_filters(a);
    let rows = rebuilt(a).rows;
    headers_stand_in_order(a.tasks, f, a.expanded, a.group_by);
    let x = rows[i]->group_key;
    let y = rows[j]->group_key;
    assert(row_note(rows[i]) == x && row_note(rows[j]) == y);
    assert(key_before(x, y, a.group_by));
    order_is_of_a_dictionary(x, y);
    if a.group_by == GroupBy::Priority {
        assert forall|t: TaskView, u: TaskView|
            #![trigger a.tasks.contains(t), a.tasks.contains(u)]
            a.tasks.contains(t) && a.tasks.contains(u) && stands_in(t, a.group_by, x) && stands_in(
                u,
                a.group_by,
                y,
            ) implies level(t.priority) < level(u.priority) by {
            ranks_are_levels(t, x);
            ranks_are_levels(u, y);
            if sort_rank(x) == sort_rank(y) {
                text_before_irreflexive(x);
            }
        }
    }
}

proof fn ranks_are_levels(t: TaskView, key: Seq<char>)
    requires
        stands_in(t, GroupBy::Priority, key),
    ensures
        sort_rank(key) == level(t.priority),
{
    reveal_strlit("Highest");
    reveal_strlit("High");
    reveal_strlit("Medium");
    reveal_strlit("Low");
    reveal_strlit("Lowest");
    reveal_strlit("(no priority)");
    assert("Highest"@[1] == 'i');
    assert("High"@.len() == 4);
    assert("Highest"@.len() == 7);
    assert("Medium"@[0] == 'M');
    assert("Low"@.len() == 3);
    assert("Lowest"@.len() == 6);
    assert("Lowest"@[0] == 'L');
    assert("Medium"@.len() == 6);
    assert("(no priority)"@[0] == '(');
    assert("High"@[0] == 'H');
    assert("Low"@[0] == 'L');
    assert("Highest"@[0] == 'H');
}

// ---------------------------------------------------------------------------
// The cursor.
// ---------------------------------------------------------------------------

/// What is under the cursor is the row whose number it has: a task, or a header, which has no task but
/// stands for its group.
pub proof fn cursor_is_on_its_row(a: AppView, i: nat)
    ensures
        a.row is None ==> cursor_row(a) is None && cursor_task(a) is None && cursor_note(a) is None,
        a.row == Some(i) && i >= a.rows.len() ==> cursor_row(a) is None && cursor_task(a) is None
            && cursor_note(a) is None,
        a.row == Some(i) && i < a.rows.len() ==> {
            &&& cursor_row(a) == Some(a.rows[i as int])
            &&& match a.rows[i as int] {
                RowView::Task { task } => cursor_task(a) == Some(task) && cursor_note(a) == Some(
                    task.note_path,
                ),
                RowView::Header { group_key, .. } => cursor_task(a) is None && cursor_note(a) == Some(
                    group_key,
                ),
            }
        },
{
}

/// Where neither the task nor the note or group under the cursor has a row any more, the cursor keeps
/// its place, or takes the last row of a list that is too short; without a place it takes the first.
pub proof fn lost_cursors_keep_their_place(a: AppView)
    requires
        rebuilt(a).rows.len() > 0,
        forall|i: int|
            0 <= i < rebuilt(a).rows.len() ==> match #[trigger] rebuilt(a).rows[i] {
                RowView::Task { task } => (cursor_task(a) matches Some(t) ==> t.id != task.id)
                    && cursor_note(a) != Some(task.note_path),
                RowView::Header { group_key, .. } => cursor_note(a) != Some(group_key),
            },
    ensures
        rebuilt(a).row == (match a.row {
            Some(i) => if i < rebuilt(a).rows.len() {
                Some(i)
            } else {
                Some((rebuilt(a).rows.len() - 1) as nat)
            },
            None => Some(0nat),
        }),
{
    let rows = wanted_rows(a);
    assert(rows == rebuilt(a).rows);
    match cursor_task(a) {
        Some(t) => {
            first_row_is_first(rows, is_task_row(t.id));
        },
        None => {},
    }
    match cursor_note(a) {
        Some(n) => {
            first_row_is_first(rows, is_note_row(n));
        },
        None => {},
    }
}

/// Whether a row is that of the task `id`.
pub open spec fn has_id(r: RowView, id: Option<i64>) -> bool {
    r matches RowView::Task { task } && id == Some(task.id)
}

/// Whether a row is in `note`: a task of it, or the header of a group of that name.
pub open spec fn has_note(r: RowView, note: Option<Seq<char>>) -> bool {
    match r {
        RowView::Task { task } => note == Some(task.note_path),
        RowView::Header { group_key, .. } => note == Some(group_key),
    }
}

/// Where the cursor goes in a new list: to the first row of the task it was on, else to the first row of
/// the note it was in, else it keeps its place as far as the list goes, and without one it goes to the
/// first row. In an empty list there is none.
pub proof fn cursors_are_found_again(
    rows: Seq<RowView>,
    note: Option<Seq<char>>,
    id: Option<i64>,
    index: Option<nat>,
    i: int,
)
    ensures
        rows.len() == 0 ==> reconciled(rows, note, id, index) is None,
        0 <= i < rows.len() && has_id(rows[i], id) && (forall|k: int|
            0 <= k < i ==> !has_id(#[trigger] rows[k], id)) ==> reconciled(rows, note, id, index)
            == Some(i as nat),
        0 <= i < rows.len() && has_note(rows[i], note) && (forall|k: int|
            0 <= k < i ==> !has_note(#[trigger] rows[k], note)) && (forall|k: int|
            0 <= k < rows.len() ==> !has_id(#[trigger] rows[k], id)) ==> reconciled(
            rows,
            note,
            id,
            index,
        ) == Some(i as nat),
        rows.len() > 0 && (forall|k: int|
            0 <= k < rows.len() ==> !has_id(#[trigger] rows[k], id) && !has_note(rows[k], note))
            ==> reconciled(rows, note, id, index) == (match index {
            Some(n) => if n < rows.len() {
                Some(n)
            } else {
                Some((rows.len() - 1) as nat)
            },
            None => Some(0nat),
        }),
{
    match id {
        Some(x) => {
            let p = is_task_row(x);
            first_row_is_first(rows, p);
            assert forall|k: int| 0 <= k < rows.len() implies (p(#[trigger] rows[k]) <==> has_id(
                rows[k],
                id,
            )) by {}
        },
        None => {},
    }
    match note {
        Some(n) => {
            let p = is_note_row(n);
            first_row_is_first(rows, p);
            assert forall|k: int| 0 <= k < rows.len() implies (p(#[trigger] rows[k]) <==> has_note(
                rows[k],
                note,
            )) by {}
        },
        None => {},
    }
}

/// Rebuilding changes the rows and the cursor alone; reading the index also takes its tasks and the
/// day; and a change of what is listed centres the context pane again.
pub proof fn rebuilding_is_local(a: AppView, today: Seq<char>, tasks: Seq<TaskView>)
    ensures
        rebuilt(a) == (AppView { rows: rebuilt(a).rows, row: rebuilt(a).row, ..a }),
        recentred(a) == (AppView { ctx_scroll: 0, ..rebuilt(a) }),
        refreshed(a, today, tasks) == rebuilt(AppView { today, tasks, ..a }),
{
}

}
