//! The grouped list: which rows a set of tasks shows, and where the cursor lands among them.

use vstd::prelude::*;
use crate::grouping::{FilterView, Filters, GroupBy, GroupKey, group_keys, is_open_like, key_before,
    key_order_is_total, key_order_is_transitive, keys_of, open_like, passes};
use crate::task::{Task, TaskView, task_views};
use crate::text::{same_text, views};

verus! {

// ---------------------------------------------------------------------------
// Sets of group keys.
// ---------------------------------------------------------------------------

/// A set of group keys.
#[derive(Debug)]
pub struct KeySet {
    keys: Vec<String>,
}

impl View for KeySet {
    type V = Set<Seq<char>>;

    closed spec fn view(&self) -> Set<Seq<char>> {
        views(self.keys@).to_set()
    }
}

impl KeySet {
    /// The empty set.
    pub fn new() -> (r: KeySet)
        ensures
            r@ == Set::<Seq<char>>::empty(),
    {
        let r = KeySet { keys: Vec::new() };
        assert(r@ =~= Set::<Seq<char>>::empty());
        r
    }

    /// Whether `key` is in the set.
    pub fn contains(&self, key: &str) -> (r: bool)
        ensures
            r == self@.contains(key@),
    {
        let mut i: usize = 0;
        while i < self.keys.len()
            invariant
                i <= self.keys@.len(),
                forall|j: int| 0 <= j < i ==> #[trigger] self.keys@[j]@ != key@,
            decreases self.keys@.len() - i,
        {
            if same_text(self.keys[i].as_str(), key) {
                assert(views(self.keys@)[i as int] == key@);
                return true;
            }
            i += 1;
        }
        assert(!views(self.keys@).contains(key@)) by {
            if views(self.keys@).contains(key@) {
                let j = choose|j: int|
                    0 <= j < self.keys@.len() && views(self.keys@)[j] == key@;
                assert(self.keys@[j]@ == key@);
            }
        }
        false
    }

    /// Puts `key` into the set.
    pub fn insert(&mut self, key: String)
        ensures
            final(self)@ == old(self)@.insert(key@),
    {
        let ghost before = self.keys@;
        if !self.contains(key.as_str()) {
            self.keys.push(key);
            proof {
                assert(views(self.keys@) =~= views(before).push(key@));
                views(before).lemma_push_to_set_commute(key@);
            }
        } else {
            assert(self@ =~= self@.insert(key@));
        }
    }

    /// Takes `key` out of the set.
    pub fn remove(&mut self, key: &str)
        ensures
            final(self)@ == old(self)@.remove(key@),
    {
        let ghost before = self.keys@;
        let mut kept: Vec<String> = Vec::new();
        let mut i: usize = 0;
        while i < self.keys.len()
            invariant
                i <= self.keys@.len(),
                self.keys@ == before,
                forall|x: Seq<char>|
                    views(kept@).contains(x) <==> views(before.take(i as int)).contains(x) && x
                        != key@,
            decreases self.keys@.len() - i,
        {
            let ghost had = kept@;
            let ghost seen = before.take(i as int);
            assert(before.take(i + 1) =~= seen.push(before[i as int]));
            assert(views(seen.push(before[i as int])) =~= views(seen).push(before[i as int]@));
            if !same_text(self.keys[i].as_str(), key) {
                kept.push(self.keys[i].clone());
                assert(views(kept@) =~= views(had).push(before[i as int]@));
            }
            proof {
                assert forall|x: Seq<char>|
                    views(kept@).contains(x) <==> views(before.take(i + 1)).contains(x) && x
                        != key@ by {
                    contains_after_push(views(seen), before[i as int]@, x);
                    contains_after_push(views(had), before[i as int]@, x);
                }
            }
            i += 1;
        }
        assert(before.take(i as int) =~= before);
        self.keys = kept;
        assert(self@ =~= old(self)@.remove(key@));
    }

    /// Empties the set.
    pub fn clear(&mut self)
        ensures
            final(self)@ == Set::<Seq<char>>::empty(),
    {
        self.keys.clear();
        assert(self@ =~= Set::<Seq<char>>::empty());
    }

    /// Whether the set is empty.
    pub fn is_empty(&self) -> (r: bool)
        ensures
            r == (self@ == Set::<Seq<char>>::empty()),
    {
        if self.keys.len() == 0 {
            assert(self@ =~= Set::<Seq<char>>::empty());
            true
        } else {
            assert(views(self.keys@)[0] == self.keys@[0]@);
            assert(self@.contains(self.keys@[0]@));
            false
        }
    }
}

/// What a sequence holds once one more element is pushed.
pub proof fn contains_after_push<A>(s: Seq<A>, e: A, x: A)
    ensures
        s.push(e).contains(x) <==> s.contains(x) || x == e,
{
    if s.contains(x) {
        let j = choose|j: int| 0 <= j < s.len() && s[j] == x;
        assert(s.push(e)[j] == x);
    }
    assert(s.push(e)[s.len() as int] == e);
    if s.push(e).contains(x) && x != e {
        let j = choose|j: int| 0 <= j < s.push(e).len() && s.push(e)[j] == x;
        assert(s[j] == x);
    }
}

// ---------------------------------------------------------------------------
// Rows.
// ---------------------------------------------------------------------------

/// One row of the list. A header carries the counts of its whole group, whatever is filtered.
#[derive(Debug)]
pub enum DisplayRow {
    Header { group_key: String, open_count: usize, total_count: usize, collapsed: bool },
    Task { task: Box<Task> },
}

/// What a [`DisplayRow`] is.
#[verifier::ext_equal]
pub enum RowView {
    Header { group_key: Seq<char>, open_count: nat, total_count: nat, collapsed: bool },
    Task { task: TaskView },
}

impl View for DisplayRow {
    type V = RowView;

    open spec fn view(&self) -> RowView {
        match self {
            DisplayRow::Header { group_key, open_count, total_count, collapsed } => RowView::Header {
                group_key: group_key@,
                open_count: *open_count as nat,
                total_count: *total_count as nat,
                collapsed: *collapsed,
            },
            DisplayRow::Task { task } => RowView::Task { task: task@ },
        }
    }
}

/// What a list of rows is.
pub open spec fn row_views(v: Seq<DisplayRow>) -> Seq<RowView> {
    v.map_values(|r: DisplayRow| r@)
}

/// The key of a header, or the note of a task.
pub open spec fn row_note(r: RowView) -> Seq<char> {
    match r {
        RowView::Header { group_key, .. } => group_key,
        RowView::Task { task } => task.note_path,
    }
}

impl DisplayRow {
    /// The key of a header, or the note of a task.
    pub fn note_path(&self) -> (r: &str)
        ensures
            r@ == row_note(self@),
    {
        match self {
            DisplayRow::Header { group_key, .. } => group_key.as_str(),
            DisplayRow::Task { task } => task.note_path.as_str(),
        }
    }
}

// ---------------------------------------------------------------------------
// Groups.
// ---------------------------------------------------------------------------

/// A task in one of its groups.
pub type Entry = (Seq<char>, TaskView);

/// A task in each of its groups.
pub open spec fn task_entries(t: TaskView, axis: GroupBy) -> Seq<Entry> {
    keys_of(t, axis).map_values(|k: Seq<char>| (k, t))
}

/// Every task in each of its groups, in the order of the tasks.
pub open spec fn entries(tasks: Seq<TaskView>, axis: GroupBy) -> Seq<Entry>
    decreases tasks.len(),
{
    if tasks.len() == 0 {
        seq![]
    } else {
        entries(tasks.drop_last(), axis) + task_entries(tasks.last(), axis)
    }
}

/// The tasks of a group, in the order of the tasks.
pub open spec fn members(es: Seq<Entry>, key: Seq<char>) -> Seq<TaskView>
    decreases es.len(),
{
    if es.len() == 0 {
        seq![]
    } else if es.last().0 == key {
        members(es.drop_last(), key).push(es.last().1)
    } else {
        members(es.drop_last(), key)
    }
}

/// `order` with `key` at its place, unless it is there already.
pub open spec fn with_key(order: Seq<Seq<char>>, key: Seq<char>, axis: GroupBy) -> Seq<Seq<char>>
    decreases order.len(),
{
    if order.len() == 0 {
        seq![key]
    } else if order[0] == key {
        order
    } else if key_before(key, order[0], axis) {
        seq![key] + order
    } else {
        seq![order[0]] + with_key(order.drop_first(), key, axis)
    }
}

/// The keys of all groups, each once, in their order.
pub open spec fn key_order(es: Seq<Entry>, axis: GroupBy) -> Seq<Seq<char>>
    decreases es.len(),
{
    if es.len() == 0 {
        seq![]
    } else {
        with_key(key_order(es.drop_last(), axis), es.last().0, axis)
    }
}

/// Whether keys stand in strictly ascending order.
pub open spec fn ascending(order: Seq<Seq<char>>, axis: GroupBy) -> bool {
    forall|i: int, j: int|
        0 <= i < j < order.len() ==> key_before(#[trigger] order[i], #[trigger] order[j], axis)
}

/// How many of the tasks are open.
pub open spec fn count_open(ts: Seq<TaskView>) -> nat
    decreases ts.len(),
{
    if ts.len() == 0 {
        0
    } else {
        count_open(ts.drop_last()) + if open_like(ts.last().status) {
            1nat
        } else {
            0nat
        }
    }
}

/// The tasks that every active filter lets through.
pub open spec fn visible(ts: Seq<TaskView>, f: FilterView) -> Seq<TaskView>
    decreases ts.len(),
{
    if ts.len() == 0 {
        seq![]
    } else if passes(ts.last(), f) {
        visible(ts.drop_last(), f).push(ts.last())
    } else {
        visible(ts.drop_last(), f)
    }
}

/// The header of a group: its counts are those of all its tasks.
pub open spec fn header_row(key: Seq<char>, ts: Seq<TaskView>, expanded: Set<Seq<char>>) -> RowView {
    RowView::Header {
        group_key: key,
        open_count: count_open(ts),
        total_count: ts.len(),
        collapsed: !expanded.contains(key),
    }
}

/// The rows of tasks.
pub open spec fn task_rows(ts: Seq<TaskView>) -> Seq<RowView> {
    ts.map_values(|t: TaskView| RowView::Task { task: t })
}

/// The rows of a group: nothing where no task of it is visible; else its header, and below it, where
/// the group is expanded, its visible tasks.
pub open spec fn group_rows(
    key: Seq<char>,
    ts: Seq<TaskView>,
    f: FilterView,
    expanded: Set<Seq<char>>,
) -> Seq<RowView> {
    let vis = visible(ts, f);
    if vis.len() == 0 {
        seq![]
    } else if expanded.contains(key) {
        seq![header_row(key, ts, expanded)] + task_rows(vis)
    } else {
        seq![header_row(key, ts, expanded)]
    }
}

/// The rows of the groups `order`, one after the other.
pub open spec fn rows_of_groups(
    order: Seq<Seq<char>>,
    es: Seq<Entry>,
    f: FilterView,
    expanded: Set<Seq<char>>,
) -> Seq<RowView>
    decreases order.len(),
{
    if order.len() == 0 {
        seq![]
    } else {
        rows_of_groups(order.drop_last(), es, f, expanded) + group_rows(
            order.last(),
            members(es, order.last()),
            f,
            expanded,
        )
    }
}

/// The rows of the list.
pub open spec fn view_rows(
    tasks: Seq<TaskView>,
    f: FilterView,
    expanded: Set<Seq<char>>,
    axis: GroupBy,
) -> Seq<RowView> {
    let es = entries(tasks, axis);
    rows_of_groups(key_order(es, axis), es, f, expanded)
}

// ---------------------------------------------------------------------------
// Facts about the order of groups.
// ---------------------------------------------------------------------------

proof fn with_key_contains(order: Seq<Seq<char>>, key: Seq<char>, axis: GroupBy, x: Seq<char>)
    ensures
        with_key(order, key, axis).contains(x) <==> order.contains(x) || x == key,
    decreases order.len(),
{
    let r = with_key(order, key, axis);
    if order.len() == 0 {
        assert(r[0] == key);
    } else if order[0] == key {
    } else if key_before(key, order[0], axis) {
        assert(r[0] == key);
        assert(r.drop_first() =~= order);
        if order.contains(x) {
            let j = choose|j: int| 0 <= j < order.len() && order[j] == x;
            assert(r[j + 1] == x);
        }
        if r.contains(x) && x != key {
            let j = choose|j: int| 0 <= j < r.len() && r[j] == x;
            assert(order[j - 1] == x);
        }
    } else {
        let rest = order.drop_first();
        let tail = with_key(rest, key, axis);
        with_key_contains(rest, key, axis, x);
        assert(r =~= seq![order[0]] + tail);
        if order.contains(x) && x != order[0] {
            let j = choose|j: int| 0 <= j < order.len() && order[j] == x;
            assert(rest[j - 1] == x);
        }
        if rest.contains(x) {
            let j = choose|j: int| 0 <= j < rest.len() && rest[j] == x;
            assert(order[j + 1] == x);
        }
        if tail.contains(x) {
            let j = choose|j: int| 0 <= j < tail.len() && tail[j] == x;
            assert(r[j + 1] == x);
        }
        assert(r[0] == order[0]);
        if r.contains(x) && x != order[0] {
            let j = choose|j: int| 0 <= j < r.len() && r[j] == x;
            assert(tail[j - 1] == x);
        }
    }
}

proof fn with_key_ascending(order: Seq<Seq<char>>, key: Seq<char>, axis: GroupBy)
    requires
        ascending(order, axis),
    ensures
        ascending(with_key(order, key, axis), axis),
    decreases order.len(),
{
    let r = with_key(order, key, axis);
    if order.len() == 0 {
    } else if order[0] == key {
    } else if key_before(key, order[0], axis) {
        assert forall|i: int, j: int| 0 <= i < j < r.len() implies key_before(
            #[trigger] r[i],
            #[trigger] r[j],
            axis,
        ) by {
            assert(r[j] == order[j - 1]);
            if i == 0 {
                if j > 1 {
                    key_order_is_transitive(key, order[0], order[j - 1], axis);
                }
            } else {
                assert(r[i] == order[i - 1]);
            }
        }
    } else {
        let rest = order.drop_first();
        let tail = with_key(rest, key, axis);
        assert(ascending(rest, axis)) by {
            assert forall|i: int, j: int| 0 <= i < j < rest.len() implies key_before(
                #[trigger] rest[i],
                #[trigger] rest[j],
                axis,
            ) by {
                assert(rest[i] == order[i + 1]);
                assert(rest[j] == order[j + 1]);
            }
        }
        with_key_ascending(rest, key, axis);
        key_order_is_total(order[0], key, axis);
        assert forall|i: int, j: int| 0 <= i < j < r.len() implies key_before(
            #[trigger] r[i],
            #[trigger] r[j],
            axis,
        ) by {
            assert(r[j] == tail[j - 1]);
            if i == 0 {
                assert(tail.contains(r[j]));
                with_key_contains(rest, key, axis, r[j]);
                if r[j] != key {
                    let k = choose|k: int| 0 <= k < rest.len() && rest[k] == r[j];
                    assert(rest[k] == order[k + 1]);
                }
            } else {
                assert(r[i] == tail[i - 1]);
            }
        }
    }
}

/// The groups are the keys that some task has, each once, in ascending order.
pub proof fn groups_are_the_keys_in_order(es: Seq<Entry>, axis: GroupBy)
    ensures
        ascending(key_order(es, axis), axis),
        key_order(es, axis).no_duplicates(),
        forall|k: Seq<char>|
            key_order(es, axis).contains(k) <==> exists|i: int|
                0 <= i < es.len() && (#[trigger] es[i]).0 == k,
        forall|k: Seq<char>| key_order(es, axis).contains(k) <==> members(es, k).len() > 0,
    decreases es.len(),
{
    let order = key_order(es, axis);
    if es.len() > 0 {
        let rest = es.drop_last();
        groups_are_the_keys_in_order(rest, axis);
        with_key_ascending(key_order(rest, axis), es.last().0, axis);
        assert forall|k: Seq<char>| order.contains(k) <==> exists|i: int|
            0 <= i < es.len() && (#[trigger] es[i]).0 == k by {
            with_key_contains(key_order(rest, axis), es.last().0, axis, k);
            if key_order(rest, axis).contains(k) {
                let i = choose|i: int| 0 <= i < rest.len() && (#[trigger] rest[i]).0 == k;
                assert(es[i].0 == k);
            }
            if k == es.last().0 {
                assert(es[es.len() - 1].0 == k);
            }
            if exists|i: int| 0 <= i < es.len() && (#[trigger] es[i]).0 == k {
                let i = choose|i: int| 0 <= i < es.len() && (#[trigger] es[i]).0 == k;
                if i < rest.len() {
                    assert(rest[i].0 == k);
                }
            }
        }
        assert forall|k: Seq<char>| order.contains(k) <==> members(es, k).len() > 0 by {
            with_key_contains(key_order(rest, axis), es.last().0, axis, k);
        }
    }
    assert forall|i: int, j: int| 0 <= i < order.len() && 0 <= j < order.len() && i != j implies order[i]
        != order[j] by {
        key_order_is_total(order[i], order[j], axis);
        if i < j {
            assert(key_before(order[i], order[j], axis));
        } else {
            assert(key_before(order[j], order[i], axis));
        }
    }
}

// ---------------------------------------------------------------------------
// Building the rows.
// ---------------------------------------------------------------------------

/// A group under construction: its key and the positions of its tasks.
struct Group {
    key: GroupKey,
    members: Vec<usize>,
}

/// The tasks at the positions `idx`.
spec fn picked(tasks: Seq<Task>, idx: Seq<usize>) -> Seq<TaskView> {
    idx.map_values(|i: usize| tasks[i as int]@)
}

/// Whether `g` is the group `key` of the entries `es`.
spec fn is_group(g: Group, key: Seq<char>, es: Seq<Entry>, tasks: Seq<Task>) -> bool {
    &&& g.key.wf()
    &&& g.key.key@ == key
    &&& forall|k: int| 0 <= k < g.members@.len() ==> #[trigger] g.members@[k] < tasks.len()
    &&& picked(tasks, g.members@) == members(es, key)
}

/// Whether `groups` are the groups of the entries `es`, in order.
spec fn is_grouped(groups: Seq<Group>, es: Seq<Entry>, axis: GroupBy, tasks: Seq<Task>) -> bool {
    &&& groups.len() == key_order(es, axis).len()
    &&& forall|i: int|
        0 <= i < groups.len() ==> is_group(#[trigger] groups[i], key_order(es, axis)[i], es, tasks)
}

proof fn with_key_after(order: Seq<Seq<char>>, key: Seq<char>, axis: GroupBy, n: int)
    requires
        0 <= n <= order.len(),
        forall|j: int|
            0 <= j < n ==> #[trigger] order[j] != key && !key_before(key, order[j], axis),
    ensures
        with_key(order, key, axis) == order.take(n) + with_key(order.skip(n), key, axis),
    decreases n,
{
    if n == 0 {
        assert(order.skip(0) =~= order);
        assert(order.take(0) + with_key(order, key, axis) =~= with_key(order, key, axis));
    } else {
        let rest = order.drop_first();
        assert forall|j: int| 0 <= j < n - 1 implies #[trigger] rest[j] != key && !key_before(
            key,
            rest[j],
            axis,
        ) by {
            assert(rest[j] == order[j + 1]);
        }
        with_key_after(rest, key, axis, n - 1);
        assert(order[0] != key && !key_before(key, order[0], axis));
        assert(rest.skip(n - 1) =~= order.skip(n));
        assert(seq![order[0]] + (rest.take(n - 1) + with_key(order.skip(n), key, axis))
            =~= order.take(n) + with_key(order.skip(n), key, axis));
    }
}

/// Puts the task at position `at` into the group `key`.
fn add_entry(
    groups: &mut Vec<Group>,
    key: String,
    at: usize,
    axis: GroupBy,
    tasks: &[Task],
    Ghost(es): Ghost<Seq<Entry>>,
)
    requires
        is_grouped(old(groups)@, es, axis, tasks@),
        at < tasks@.len(),
    ensures
        is_grouped(final(groups)@, es.push((key@, tasks@[at as int]@)), axis, tasks@),
{
    let ghost order = key_order(es, axis);
    let ghost t = tasks@[at as int]@;
    let ghost es2 = es.push((key@, t));
    let ghost before = groups@;
    let gk = GroupKey::new(key);
    let mut i: usize = 0;
    while i < groups.len() && !crate::text::same_chars(&groups[i].key.chars, &gk.chars)
        && !gk.before(&groups[i].key, axis)
        invariant
            groups@ == before,
            gk.wf(),
            gk.key@ == key@,
            order == key_order(es, axis),
            is_grouped(groups@, es, axis, tasks@),
            i <= groups@.len(),
            forall|j: int|
                0 <= j < i ==> #[trigger] order[j] != key@ && !key_before(key@, order[j], axis),
        decreases groups@.len() - i,
    {
        assert(is_group(groups@[i as int], order[i as int], es, tasks@));
        i += 1;
    }
    proof {
        with_key_after(order, key@, axis, i as int);
        groups_are_the_keys_in_order(es, axis);
        assert(es2.drop_last() =~= es);
        assert(key_order(es2, axis) == with_key(order, key@, axis));
        if i < groups@.len() {
            assert(is_group(groups@[i as int], order[i as int], es, tasks@));
            assert(order.skip(i as int)[0] == order[i as int]);
        }
    }
    if i < groups.len() && crate::text::same_chars(&groups[i].key.chars, &gk.chars) {
        proof {
            assert(order.take(i as int) + order.skip(i as int) =~= order);
            assert(key_order(es2, axis) == order);
        }
        let mut g = groups.remove(i);
        let ghost old_members = g.members@;
        g.members.push(at);
        assert(picked(tasks@, g.members@) =~= picked(tasks@, old_members).push(t));
        groups.insert(i, g);
        assert forall|j: int| 0 <= j < groups@.len() implies is_group(
            #[trigger] groups@[j],
            key_order(es2, axis)[j],
            es2,
            tasks@,
        ) by {
            assert(is_group(before[j], order[j], es, tasks@));
            if j != i {
                assert(groups@[j] == before[j]);
                assert(order[j] != order[i as int]);
            }
        }
    } else {
        let mut fresh: Vec<usize> = Vec::new();
        fresh.push(at);
        proof {
            assert(!order.contains(key@)) by {
                if order.contains(key@) {
                    let j = choose|j: int| 0 <= j < order.len() && order[j] == key@;
                    assert(j >= i);
                    key_order_is_total(key@, order[i as int], axis);
                    if j > i {
                        assert(key_before(order[i as int], order[j], axis));
                        key_order_is_transitive(key@, order[i as int], key@, axis);
                    }
                }
            }
            assert(members(es, key@).len() == 0);
            assert(members(es2, key@) =~= seq![t]);
            assert(picked(tasks@, fresh@) =~= seq![t]);
            assert(key_order(es2, axis) =~= order.insert(i as int, key@));
        }
        groups.insert(i, Group { key: gk, members: fresh });
        assert forall|j: int| 0 <= j < groups@.len() implies is_group(
            #[trigger] groups@[j],
            key_order(es2, axis)[j],
            es2,
            tasks@,
        ) by {
            if j < i {
                assert(groups@[j] == before[j]);
                assert(is_group(before[j], order[j], es, tasks@));
                assert(order.contains(order[j]));
            } else if j > i {
                assert(groups@[j] == before[j - 1]);
                assert(is_group(before[j - 1], order[j - 1], es, tasks@));
                assert(order.contains(order[j - 1]));
            }
        }
    }
}

/// Sorts the tasks into their groups.
fn collect_groups(tasks: &[Task], axis: GroupBy) -> (groups: Vec<Group>)
    ensures
        is_grouped(groups@, entries(task_views(tasks@), axis), axis, tasks@),
{
    let ghost ts = task_views(tasks@);
    let mut groups: Vec<Group> = Vec::new();
    let mut n: usize = 0;
    assert(ts.take(0) =~= Seq::<TaskView>::empty());
    while n < tasks.len()
        invariant
            ts == task_views(tasks@),
            n <= tasks@.len(),
            is_grouped(groups@, entries(ts.take(n as int), axis), axis, tasks@),
        decreases tasks@.len() - n,
    {
        let mut keys = group_keys(&tasks[n], axis);
        let ghost all = views(keys@);
        let ghost base = entries(ts.take(n as int), axis);
        let ghost t = ts[n as int];
        let mut m: usize = 0;
        assert(base + task_entries(t, axis).take(0) =~= base);
        while m < keys.len()
            invariant
                n < tasks@.len(),
                ts == task_views(tasks@),
                t == ts[n as int],
                all == views(keys@),
                all == keys_of(t, axis),
                m <= keys@.len(),
                is_grouped(groups@, base + task_entries(t, axis).take(m as int), axis, tasks@),
            decreases keys@.len() - m,
        {
            let ghost so_far = base + task_entries(t, axis).take(m as int);
            let key = keys[m].clone();
            add_entry(&mut groups, key, n, axis, tasks, Ghost(so_far));
            assert(key@ == all[m as int]);
            assert(so_far.push((key@, t)) =~= base + task_entries(t, axis).take(m + 1));
            m += 1;
        }
        assert(task_entries(t, axis).take(m as int) =~= task_entries(t, axis));
        assert(ts.take(n + 1).drop_last() =~= ts.take(n as int));
        n += 1;
    }
    assert(ts.take(n as int) =~= ts);
    groups
}

/// Appends the rows of one group.
fn push_group(rows: &mut Vec<DisplayRow>, g: &Group, tasks: &[Task], f: &Filters, expanded: &KeySet)
    requires
        g.key.wf(),
        forall|k: int| 0 <= k < g.members@.len() ==> #[trigger] g.members@[k] < tasks@.len(),
    ensures
        row_views(final(rows)@) == row_views(old(rows)@) + group_rows(
            g.key.key@,
            picked(tasks@, g.members@),
            f@,
            expanded@,
        ),
{
    let ghost ts = picked(tasks@, g.members@);
    let total_count: usize = g.members.len();
    let mut open_count: usize = 0;
    let mut shown: Vec<usize> = Vec::new();
    let mut k: usize = 0;
    while k < g.members.len()
        invariant
            ts == picked(tasks@, g.members@),
            forall|k: int| 0 <= k < g.members@.len() ==> #[trigger] g.members@[k] < tasks@.len(),
            k <= g.members@.len(),
            open_count <= k,
            open_count == count_open(ts.take(k as int)),
            forall|j: int| 0 <= j < shown@.len() ==> #[trigger] shown@[j] < tasks@.len(),
            picked(tasks@, shown@) =~= visible(ts.take(k as int), f@),
        decreases g.members@.len() - k,
    {
        let at = g.members[k];
        assert(ts.take(k + 1).drop_last() =~= ts.take(k as int));
        assert(ts[k as int] == tasks@[at as int]@);
        if is_open_like(&tasks[at].status) {
            open_count += 1;
        }
        if f.admits(&tasks[at]) {
            shown.push(at);
        }
        k += 1;
    }
    assert(ts.take(k as int) =~= ts);
    assert(picked(tasks@, shown@).len() == shown@.len());
    if shown.len() == 0 {
        assert(row_views(rows@) + Seq::<RowView>::empty() =~= row_views(rows@));
        return;
    }
    let is_expanded = expanded.contains(g.key.key.as_str());
    let ghost before = row_views(rows@);
    rows.push(
        DisplayRow::Header {
            group_key: g.key.key.clone(),
            open_count,
            total_count,
            collapsed: !is_expanded,
        },
    );
    let ghost head = header_row(g.key.key@, ts, expanded@);
    assert(row_views(rows@) =~= before + seq![head]);
    if is_expanded {
        let ghost vis = visible(ts, f@);
        let mut j: usize = 0;
        assert(task_rows(vis.take(0)) =~= Seq::<RowView>::empty());
        while j < shown.len()
            invariant
                j <= shown@.len(),
                forall|j: int| 0 <= j < shown@.len() ==> #[trigger] shown@[j] < tasks@.len(),
                vis == picked(tasks@, shown@),
                row_views(rows@) =~= before + seq![head] + task_rows(vis.take(j as int)),
            decreases shown@.len() - j,
        {
            let ghost had = rows@;
            let at = shown[j];
            rows.push(DisplayRow::Task { task: Box::new(tasks[at].clone()) });
            assert(rows@.last()@ == (RowView::Task { task: vis[j as int] }));
            assert(row_views(rows@) =~= row_views(had).push(rows@.last()@));
            assert(task_rows(vis.take(j + 1)) =~= task_rows(vis.take(j as int)).push(
                RowView::Task { task: vis[j as int] },
            ));
            j += 1;
        }
        assert(vis.take(j as int) =~= vis);
        assert(before + seq![head] + task_rows(vis) =~= before + (seq![head] + task_rows(vis)));
    }
}

/// Builds the rows of the list.
///
/// Tasks are gathered into groups by `group_by`; the groups stand in order, each under a header
/// with the counts of all its tasks. A group without a visible task is left out. The task rows of a
/// group follow its header where its key is in `expanded`, so groups start collapsed.
///
/// A task is visible where every active filter lets it through: its status, with `today_only` that
/// it is scheduled or due on `today`, with a non-empty `search_query` that its text holds the query,
/// with a non-empty `file_query` that its note path does (both ignoring case), and with
/// `overdue_only` that it was due before `today`.
pub fn build_view(
    tasks: &[Task],
    filter: crate::grouping::StatusFilter,
    expanded: &KeySet,
    today_only: bool,
    today: &str,
    search_query: &str,
    file_query: &str,
    overdue_only: bool,
    group_by: GroupBy,
) -> (rows: Vec<DisplayRow>)
    ensures
        row_views(rows@) == view_rows(
            task_views(tasks@),
            FilterView {
                status: filter,
                today_only,
                today: today@,
                search: search_query@,
                file: file_query@,
                overdue_only,
            },
            expanded@,
            group_by,
        ),
{
    let f = Filters {
        status: filter,
        today_only,
        today,
        search: search_query,
        file: file_query,
        overdue_only,
    };
    let groups = collect_groups(tasks, group_by);
    let ghost es = entries(task_views(tasks@), group_by);
    let ghost order = key_order(es, group_by);
    let mut rows: Vec<DisplayRow> = Vec::new();
    let mut i: usize = 0;
    assert(order.take(0) =~= Seq::<Seq<char>>::empty());
    assert(row_views(rows@) =~= Seq::<RowView>::empty());
    while i < groups.len()
        invariant
            i <= groups@.len(),
            es == entries(task_views(tasks@), group_by),
            order == key_order(es, group_by),
            is_grouped(groups@, es, group_by, tasks@),
            row_views(rows@) == rows_of_groups(order.take(i as int), es, f@, expanded@),
        decreases groups@.len() - i,
    {
        assert(is_group(groups@[i as int], order[i as int], es, tasks@));
        assert(order.take(i + 1).drop_last() =~= order.take(i as int));
        push_group(&mut rows, &groups[i], tasks, &f, expanded);
        i += 1;
    }
    assert(order.take(i as int) =~= order);
    rows
}

// ---------------------------------------------------------------------------
// Keeping the cursor.
// ---------------------------------------------------------------------------

/// The cursor of the list.
#[derive(Clone, Copy, PartialEq, Eq, Debug, Structural)]
pub struct ListState {
    /// The row under the cursor.
    pub row: Option<usize>,
}

impl Default for ListState {
    /// No row under the cursor.
    fn default() -> (r: Self)
        ensures
            r.row is None,
    {
        ListState { row: None }
    }
}

impl ListState {
    /// Puts the cursor on a row, or on none.
    pub fn select(&mut self, index: Option<usize>)
        ensures
            final(self).row == index,
    {
        self.row = index;
    }

    /// The row under the cursor.
    pub fn selected(&self) -> (r: Option<usize>)
        ensures
            r == self.row,
    {
        self.row
    }
}

/// The position of the first row that `p` holds of.
pub open spec fn first_row(rows: Seq<RowView>, p: spec_fn(RowView) -> bool) -> Option<nat>
    decreases rows.len(),
{
    if rows.len() == 0 {
        None
    } else if p(rows[0]) {
        Some(0)
    } else {
        match first_row(rows.drop_first(), p) {
            Some(i) => Some(i + 1),
            None => None,
        }
    }
}

/// Whether a row is the task `id`.
pub open spec fn is_task_row(id: i64) -> spec_fn(RowView) -> bool {
    |r: RowView| r matches RowView::Task { task } && task.id == id
}

/// Whether a row belongs to `note`.
pub open spec fn is_note_row(note: Seq<char>) -> spec_fn(RowView) -> bool {
    |r: RowView| row_note(r) == note
}

/// Whether a row is the header of the group `key`.
pub open spec fn is_header_row(key: Seq<char>) -> spec_fn(RowView) -> bool {
    |r: RowView| r is Header && row_note(r) == key
}

/// Where the cursor lands once the rows are rebuilt: on the same task; else on the first row of the
/// same note or group; else as near to its old row as the list allows.
pub open spec fn reconciled(
    rows: Seq<RowView>,
    note: Option<Seq<char>>,
    task_id: Option<i64>,
    index: Option<nat>,
) -> Option<nat> {
    let by_task = match task_id {
        Some(id) => first_row(rows, is_task_row(id)),
        None => None,
    };
    let by_note = match note {
        Some(n) => first_row(rows, is_note_row(n)),
        None => None,
    };
    if rows.len() == 0 {
        None
    } else if by_task is Some {
        by_task
    } else if by_note is Some {
        by_note
    } else {
        match index {
            None => Some(0),
            Some(i) => Some(if i < rows.len() {
                i
            } else {
                (rows.len() - 1) as nat
            }),
        }
    }
}

/// `first_row` is what it says: the first position, or none.
pub proof fn first_row_is_first(rows: Seq<RowView>, p: spec_fn(RowView) -> bool)
    ensures
        match first_row(rows, p) {
            Some(i) => i < rows.len() && p(rows[i as int]) && forall|j: int|
                0 <= j < i ==> !p(#[trigger] rows[j]),
            None => forall|j: int| 0 <= j < rows.len() ==> !p(#[trigger] rows[j]),
        },
    decreases rows.len(),
{
    if rows.len() > 0 && !p(rows[0]) {
        let rest = rows.drop_first();
        first_row_is_first(rest, p);
        match first_row(rest, p) {
            Some(i) => {
                assert forall|j: int| 0 <= j < i + 1 implies !p(#[trigger] rows[j]) by {
                    if j > 0 {
                        assert(rows[j] == rest[j - 1]);
                    }
                }
            },
            None => {
                assert forall|j: int| 0 <= j < rows.len() implies !p(#[trigger] rows[j]) by {
                    if j > 0 {
                        assert(rows[j] == rest[j - 1]);
                    }
                }
            },
        }
    }
}

/// Where the first row that `p` holds of stands, once it is found.
pub proof fn first_row_at(rows: Seq<RowView>, p: spec_fn(RowView) -> bool, n: int)
    requires
        0 <= n <= rows.len(),
        forall|j: int| 0 <= j < n ==> !p(#[trigger] rows[j]),
        n < rows.len() ==> p(rows[n]),
    ensures
        n < rows.len() ==> first_row(rows, p) == Some(n as nat),
        n == rows.len() ==> first_row(rows, p) is None,
{
    first_row_is_first(rows, p);
    match first_row(rows, p) {
        Some(i) => {
            if i < n {
                assert(!p(rows[i as int]));
            }
            if n < i {
                assert(!p(rows[n]));
            }
        },
        None => {
            if n < rows.len() {
                assert(!p(rows[n]));
            }
        },
    }
}

/// The position of the first row of the task `id`.
pub fn position_of_task(rows: &[DisplayRow], id: i64) -> (r: Option<usize>)
    ensures
        match first_row(row_views(rows@), is_task_row(id)) {
            Some(i) => r matches Some(n) && n == i,
            None => r is None,
        },
{
    let ghost rv = row_views(rows@);
    let ghost p = is_task_row(id);
    let mut i: usize = 0;
    while i < rows.len()
        invariant
            rv == row_views(rows@),
            p == is_task_row(id),
            i <= rows@.len(),
            forall|j: int| 0 <= j < i ==> !p(#[trigger] rv[j]),
        decreases rows@.len() - i,
    {
        assert(rv[i as int] == rows@[i as int]@);
        let hit = match &rows[i] {
            DisplayRow::Task { task } => task.id == id,
            _ => false,
        };
        if hit {
            proof {
                first_row_at(rv, p, i as int);
            }
            return Some(i);
        }
        i += 1;
    }
    proof {
        first_row_at(rv, p, i as int);
    }
    None
}

/// The position of the header of the group `key`.
pub fn position_of_header(rows: &[DisplayRow], key: &str) -> (r: Option<usize>)
    ensures
        opt_nat(r) == first_row(row_views(rows@), is_header_row(key@)),
{
    let ghost rv = row_views(rows@);
    let ghost p = is_header_row(key@);
    let mut i: usize = 0;
    while i < rows.len()
        invariant
            rv == row_views(rows@),
            p == is_header_row(key@),
            i <= rows@.len(),
            forall|j: int| 0 <= j < i ==> !p(#[trigger] rv[j]),
        decreases rows@.len() - i,
    {
        assert(rv[i as int] == rows@[i as int]@);
        let hit = match &rows[i] {
            DisplayRow::Header { group_key, .. } => same_text(group_key.as_str(), key),
            _ => false,
        };
        if hit {
            proof {
                first_row_at(rv, p, i as int);
            }
            return Some(i);
        }
        i += 1;
    }
    proof {
        first_row_at(rv, p, i as int);
    }
    None
}

fn position_of_note(rows: &[DisplayRow], note: &str) -> (r: Option<usize>)
    ensures
        match first_row(row_views(rows@), is_note_row(note@)) {
            Some(i) => r matches Some(n) && n == i,
            None => r is None,
        },
{
    let ghost rv = row_views(rows@);
    let ghost p = is_note_row(note@);
    let mut i: usize = 0;
    while i < rows.len()
        invariant
            rv == row_views(rows@),
            p == is_note_row(note@),
            i <= rows@.len(),
            forall|j: int| 0 <= j < i ==> !p(#[trigger] rv[j]),
        decreases rows@.len() - i,
    {
        assert(rv[i as int] == rows@[i as int]@);
        if same_text(rows[i].note_path(), note) {
            proof {
                first_row_at(rv, p, i as int);
            }
            return Some(i);
        }
        i += 1;
    }
    proof {
        first_row_at(rv, p, i as int);
    }
    None
}

/// An optional row as a number.
pub open spec fn opt_nat(o: Option<usize>) -> Option<nat> {
    match o {
        Some(i) => Some(i as nat),
        None => None,
    }
}

/// Moves the cursor to where it belongs after the rows were rebuilt.
///
/// 1. If the task that was under it is still visible, it stays on that task.
/// 2. Else, if its note or group still has a row, it goes to the first one, the header.
/// 3. Else its old position is kept as far as the list reaches; from no position it goes to the top.
///
/// An empty list has no row under the cursor.
pub fn reconcile_view_selection(
    rows: &[DisplayRow],
    prev_note: Option<&str>,
    prev_task_id: Option<i64>,
    prev_index: Option<usize>,
    state: &mut ListState,
)
    ensures
        opt_nat(final(state).row) == reconciled(
            row_views(rows@),
            match prev_note {
                Some(n) => Some(n@),
                None => None,
            },
            prev_task_id,
            opt_nat(prev_index),
        ),
{
    if rows.len() == 0 {
        state.select(None);
        return;
    }
    if let Some(id) = prev_task_id {
        let found = position_of_task(rows, id);
        if found.is_some() {
            state.select(found);
            return;
        }
    }
    if let Some(note) = prev_note {
        let found = position_of_note(rows, note);
        if found.is_some() {
            state.select(found);
            return;
        }
    }
    match prev_index {
        None => state.select(Some(0)),
        Some(i) => state.select(Some(if i < rows.len() {
            i
        } else {
            rows.len() - 1
        })),
    }
}

}
