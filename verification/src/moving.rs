//! Move mode: a task bubbled up and down among the tasks of its note.
//!
//! Everything is local until the task is placed; then the lines of the note's tasks are submitted in
//! their new order.

use vstd::prelude::*;
use vstd::string::*;
use crate::actions::{Request, Submission, opt_submission};
use crate::app::App;
use crate::listing::{DisplayRow, RowView, first_row, first_row_at, is_task_row, opt_nat,
    position_of_task, row_note, row_views};
use crate::model::{cursor_run, has_subtasks, id_rank, move_cancelled, move_left, move_started,
    move_submission, one_note, row_id, row_ids, row_line, row_lines, row_rank, run_end, run_rows,
    run_start, swapped, task_moved};
use crate::order::{sorting_commutes, stable_sort, stable_sorted};
use crate::task::{Task, task_views};
use crate::text::same_text;

verus! {

/// The run that begins at `run_start` lies before its end and holds tasks only.
pub proof fn run_is_tasks(rows: Seq<RowView>, i: nat)
    requires
        i < rows.len(),
        rows[i as int] is Task,
    ensures
        run_start(rows, i) <= i < run_end(rows, i) <= rows.len(),
        forall|k: int|
            run_start(rows, i) <= k < run_end(rows, i) ==> (#[trigger] rows[k]) is Task,
{
    before_run(rows, i);
    after_run(rows, i);
}

proof fn before_run(rows: Seq<RowView>, i: nat)
    requires
        i <= rows.len(),
    ensures
        run_start(rows, i) <= i,
        forall|k: int| run_start(rows, i) <= k < i ==> (#[trigger] rows[k]) is Task,
        run_start(rows, i) > 0 ==> !(rows[run_start(rows, i) - 1] is Task),
    decreases i,
{
    if 0 < i && rows[i - 1] is Task {
        before_run(rows, (i - 1) as nat);
    }
}

proof fn after_run(rows: Seq<RowView>, i: nat)
    requires
        i <= rows.len(),
    ensures
        i <= run_end(rows, i) <= rows.len(),
        i < rows.len() && rows[i as int] is Task ==> i < run_end(rows, i),
        forall|k: int| i <= k < run_end(rows, i) ==> (#[trigger] rows[k]) is Task,
        run_end(rows, i) < rows.len() ==> !(rows[run_end(rows, i) as int] is Task),
    decreases rows.len() - i,
{
    if i < rows.len() && rows[i as int] is Task {
        after_run(rows, i + 1);
    }
}

/// The position of `id` in `ids`, or their number where it is not among them.
fn rank_of(ids: &Vec<i64>, id: i64) -> (r: usize)
    ensures
        r == id_rank(ids@, id),
{
    let mut i: usize = 0;
    assert(ids@.skip(0) =~= ids@);
    while i < ids.len() && ids[i] != id
        invariant
            i <= ids@.len(),
            id_rank(ids@, id) == i + id_rank(ids@.skip(i as int), id),
        decreases ids@.len() - i,
    {
        assert(ids@.skip(i as int).drop_first() =~= ids@.skip(i + 1));
        i += 1;
    }
    i
}

/// The id of a task row.
fn id_of(row: &DisplayRow) -> (r: i64)
    ensures
        r == row_id(row@),
{
    match row {
        DisplayRow::Task { task } => task.id,
        DisplayRow::Header { .. } => 0,
    }
}

/// The line of a task row.
fn line_of(row: &DisplayRow) -> (r: usize)
    ensures
        r == row_line(row@),
{
    match row {
        DisplayRow::Task { task } => task.line_number,
        DisplayRow::Header { .. } => 0,
    }
}

/// Whether a task of `note` is nested under another.
pub fn note_has_subtasks(tasks: &Vec<Task>, note: &str) -> (r: bool)
    ensures
        r == has_subtasks(task_views(tasks@), note@),
{
    let ghost ts = task_views(tasks@);
    let mut i: usize = 0;
    while i < tasks.len()
        invariant
            ts == task_views(tasks@),
            i <= tasks@.len(),
            forall|j: int| 0 <= j < i ==> !((#[trigger] ts[j]).note_path == note@ && ts[j].indent != 0),
        decreases tasks@.len() - i,
    {
        assert(ts[i as int] == tasks@[i as int]@);
        if tasks[i].indent != 0 && same_text(tasks[i].note_path.as_str(), note) {
            return true;
        }
        i += 1;
    }
    false
}

/// Exchanges the rows at `i` and `j`.
fn swap_rows(rows: &mut Vec<DisplayRow>, i: usize, j: usize)
    requires
        i < old(rows)@.len(),
        j < old(rows)@.len(),
    ensures
        row_views(final(rows)@) == swapped(row_views(old(rows)@), i as int, j as int),
{
    let ghost before = rows@;
    if i != j {
        let (lo, hi) = if i < j {
            (i, j)
        } else {
            (j, i)
        };
        let high = rows.remove(hi);
        let low = rows.remove(lo);
        rows.insert(lo, high);
        rows.insert(hi, low);
        assert(rows@ =~= swapped(before, i as int, j as int));
    }
    assert(row_views(rows@) =~= swapped(row_views(before), i as int, j as int));
}

/// Puts the rows `start..end` into the order of `ids`.
fn restore_run(rows: &mut Vec<DisplayRow>, start: usize, end: usize, ids: &Vec<i64>)
    requires
        start <= end <= old(rows)@.len(),
    ensures
        row_views(final(rows)@) == row_views(old(rows)@).take(start as int) + stable_sorted(
            row_views(old(rows)@).subrange(start as int, end as int),
            row_rank(ids@),
        ) + row_views(old(rows)@).skip(end as int),
{
    let ghost before = rows@;
    let mut tail = rows.split_off(end);
    let run = rows.split_off(start);
    assert(run@ =~= before.subrange(start as int, end as int));
    let ghost all = run@;
    let ghost view_of = |r: DisplayRow| r@;
    let ghost rank = |r: DisplayRow| id_rank(ids@, row_id(r@)) as int;
    let mut ranks: Vec<usize> = Vec::new();
    let mut i: usize = 0;
    while i < run.len()
        invariant
            i <= run@.len(),
            run@ == all,
            rank == (|r: DisplayRow| id_rank(ids@, row_id(r@)) as int),
            ranks@.len() == i,
            forall|k: int| 0 <= k < i ==> rank(#[trigger] all[k]) == ranks@[k],
        decreases run@.len() - i,
    {
        ranks.push(rank_of(ids, id_of(&run[i])));
        i += 1;
    }
    let mut sorted = stable_sort(run, ranks, Ghost(rank));
    proof {
        sorting_commutes(all, view_of, rank, row_rank(ids@));
        assert(all.map_values(view_of) =~= row_views(before).subrange(start as int, end as int));
    }
    let ghost in_order = sorted@;
    rows.append(&mut sorted);
    rows.append(&mut tail);
    assert(rows@ =~= before.take(start as int) + in_order + before.skip(end as int));
    assert(row_views(rows@) =~= row_views(before).take(start as int) + in_order.map_values(view_of)
        + row_views(before).skip(end as int));
}

/// Puts the rows `start..end` into the order of `ids`, and gives the row of the task `id`; where
/// there is none, `row`.
fn put_back(
    rows: &mut Vec<DisplayRow>,
    start: usize,
    end: usize,
    ids: &Vec<i64>,
    id: i64,
    row: Option<usize>,
) -> (r: Option<usize>)
    requires
        start <= end <= old(rows)@.len(),
    ensures
        row_views(final(rows)@) == row_views(old(rows)@).take(start as int) + stable_sorted(
            row_views(old(rows)@).subrange(start as int, end as int),
            row_rank(ids@),
        ) + row_views(old(rows)@).skip(end as int),
        opt_nat(r) == (match first_row(row_views(final(rows)@), is_task_row(id)) {
            Some(i) => Some(i),
            None => opt_nat(row),
        }),
{
    restore_run(rows, start, end, ids);
    match position_of_task(rows.as_slice(), id) {
        Some(i) => Some(i),
        None => row,
    }
}

fn same_ids(a: &Vec<i64>, b: &Vec<i64>) -> (r: bool)
    ensures
        r == (a@ == b@),
{
    if a.len() != b.len() {
        return false;
    }
    let mut i: usize = 0;
    while i < a.len()
        invariant
            a@.len() == b@.len(),
            i <= a@.len(),
            forall|k: int| 0 <= k < i ==> a@[k] == b@[k],
        decreases a@.len() - i,
    {
        if a[i] != b[i] {
            assert(a@[i as int] != b@[i as int]);
            return false;
        }
        i += 1;
    }
    assert(a@ =~= b@);
    true
}

impl App {
    /// The unbroken run of tasks around the cursor: its first row, and the row after its last. None
    /// where the cursor is not on a task.
    pub fn group_task_row_range(&self) -> (r: Option<(usize, usize)>)
        ensures
            match r {
                Some((s, e)) => cursor_run(self@) == Some((s as nat, e as nat)) && s
                    <= self.state.row->0 < e <= self.rows@.len() && self.state.row is Some,
                None => cursor_run(self@) is None,
            },
    {
        let ghost rv = self@.rows;
        if self.selected_task().is_none() {
            return None;
        }
        let sel: usize = match self.state.selected() {
            Some(i) => i,
            None => {
                return None;
            },
        };
        let total: usize = self.rows.len();
        let mut start: usize = sel;
        assert(rv[sel as int] == self.rows@[sel as int]@);
        while start > 0 && matches!(self.rows[start - 1], DisplayRow::Task { .. })
            invariant
                rv == row_views(self.rows@),
                total == self.rows@.len(),
                start <= sel < total,
                run_start(rv, sel as nat) == run_start(rv, start as nat),
            decreases start,
        {
            assert(rv[start - 1] == self.rows@[start - 1]@);
            start -= 1;
        }
        proof {
            if start > 0 {
                assert(rv[start - 1] == self.rows@[start - 1]@);
            }
        }
        let mut end: usize = sel + 1;
        while end < total && matches!(self.rows[end], DisplayRow::Task { .. })
            invariant
                rv == row_views(self.rows@),
                total == self.rows@.len(),
                sel < end <= total,
                run_end(rv, sel as nat) == run_end(rv, end as nat),
            decreases total - end,
        {
            assert(rv[end as int] == self.rows@[end as int]@);
            end += 1;
        }
        proof {
            if end < total {
                assert(rv[end as int] == self.rows@[end as int]@);
            }
        }
        Some((start, end))
    }

    /// The ids of the rows `start..end`.
    fn ids_between(&self, start: usize, end: usize) -> (r: Vec<i64>)
        requires
            start <= end <= self.rows@.len(),
        ensures
            r@ == row_ids(self@.rows.subrange(start as int, end as int)),
    {
        let ghost want = row_ids(self@.rows.subrange(start as int, end as int));
        let mut r: Vec<i64> = Vec::new();
        let mut i: usize = start;
        while i < end
            invariant
                start <= i <= end <= self.rows@.len(),
                want == row_ids(self@.rows.subrange(start as int, end as int)),
                r@ =~= want.take(i - start),
            decreases end - i,
        {
            assert(want[i - start] == row_id(self.rows@[i as int]@));
            r.push(id_of(&self.rows[i]));
            i += 1;
        }
        assert(want.take(end - start) =~= want);
        r
    }

    /// Whether the rows `start..end` belong to one note.
    fn one_note_between(&self, start: usize, end: usize) -> (r: bool)
        requires
            start < end <= self.rows@.len(),
        ensures
            r == one_note(self@.rows.subrange(start as int, end as int)),
    {
        let ghost run = self@.rows.subrange(start as int, end as int);
        let note = self.rows[start].note_path();
        assert(run[0] == self.rows@[start as int]@);
        let mut i: usize = start;
        while i < end
            invariant
                start <= i <= end <= self.rows@.len(),
                run == self@.rows.subrange(start as int, end as int),
                note@ == row_note(run[0]),
                forall|k: int| 0 <= k < i - start ==> row_note(#[trigger] run[k]) == row_note(run[0]),
            decreases end - i,
        {
            assert(run[i - start] == self.rows@[i as int]@);
            if !same_text(self.rows[i].note_path(), note) {
                return false;
            }
            i += 1;
        }
        true
    }

    /// Enters move mode on the task under the cursor. It is refused with a notice off a task, and
    /// where the run around the cursor spans several notes or its note has nested tasks.
    pub fn start_move(&mut self)
        ensures
            final(self)@ == move_started(old(self)@),
    {
        let id: i64 = match self.selected_task() {
            Some(t) => t.id,
            None => {
                self.notice = Some("Reorder needs a task under the cursor".to_owned());
                return;
            },
        };
        let (start, end) = match self.group_task_row_range() {
            Some(range) => range,
            None => {
                return;
            },
        };
        let ghost run = run_rows(self@);
        assert(run[0] == self.rows@[start as int]@);
        if !self.one_note_between(start, end) {
            self.notice = Some(
                "Reorder works within a single note (use folder+note grouping)".to_owned(),
            );
        } else if note_has_subtasks(&self.tasks, self.rows[start].note_path()) {
            self.notice = Some(
                "Reorder supports flat task lists only (v1); this note has subtasks".to_owned(),
            );
        } else {
            self.move_initial_ids = self.ids_between(start, end);
            self.move_task_id = id;
            self.moving = true;
        }
    }

    /// Moves the task under the cursor by `delta` rows, not past the ends of its run.
    pub fn move_task(&mut self, delta: i32)
        ensures
            final(self)@ == task_moved(old(self)@, delta as int),
    {
        let (start, end) = match self.group_task_row_range() {
            Some(range) => range,
            None => {
                return;
            },
        };
        let sel: usize = match self.state.selected() {
            Some(i) => i,
            None => {
                return;
            },
        };
        let to: i128 = sel as i128 + delta as i128;
        if to < start as i128 || to >= end as i128 {
            return;
        }
        let target: usize = to as usize;
        swap_rows(&mut self.rows, sel, target);
        self.state.select(Some(target));
        self.ctx_scroll = 0;
    }

    /// The lines of the rows `start..end`.
    fn lines_between(&self, start: usize, end: usize) -> (r: Vec<usize>)
        requires
            start <= end <= self.rows@.len(),
        ensures
            r@ == row_lines(self@.rows.subrange(start as int, end as int)),
    {
        let ghost want = row_lines(self@.rows.subrange(start as int, end as int));
        let mut r: Vec<usize> = Vec::new();
        let mut i: usize = start;
        while i < end
            invariant
                start <= i <= end <= self.rows@.len(),
                want == row_lines(self@.rows.subrange(start as int, end as int)),
                r@ =~= want.take(i - start),
            decreases end - i,
        {
            assert(want[i - start] == row_line(self.rows@[i as int]@));
            r.push(line_of(&self.rows[i]));
            i += 1;
        }
        assert(want.take(end - start) =~= want);
        r
    }

    /// The line of the task `id` among the rows `start..end`, or that of the first of them.
    fn anchor_line(&self, start: usize, end: usize, id: i64) -> (r: usize)
        requires
            start < end <= self.rows@.len(),
        ensures
            ({
                let run = self@.rows.subrange(start as int, end as int);
                match first_row(run, is_task_row(id)) {
                    Some(i) => i < run.len() && r == row_line(run[i as int]),
                    None => r == row_line(run[0]),
                }
            }),
    {
        let ghost run = self@.rows.subrange(start as int, end as int);
        let ghost p = is_task_row(id);
        let mut i: usize = start;
        while i < end
            invariant
                start <= i <= end <= self.rows@.len(),
                run == self@.rows.subrange(start as int, end as int),
                p == is_task_row(id),
                forall|k: int| 0 <= k < i - start ==> !p(#[trigger] run[k]),
            decreases end - i,
        {
            assert(run[i - start] == self.rows@[i as int]@);
            if let DisplayRow::Task { task } = &self.rows[i] {
                if task.id == id {
                    proof {
                        first_row_at(run, p, i - start);
                    }
                    return task.line_number;
                }
            }
            i += 1;
        }
        proof {
            first_row_at(run, p, end - start);
        }
        assert(run[0] == self.rows@[start as int]@);
        line_of(&self.rows[start])
    }

    /// What placing the moved task submits.
    fn reorder(&self) -> (r: Option<Submission>)
        ensures
            opt_submission(r) == move_submission(self@),
    {
        let (start, end) = match self.group_task_row_range() {
            Some(range) => range,
            None => {
                return None;
            },
        };
        let ids = self.ids_between(start, end);
        if same_ids(&ids, &self.move_initial_ids) {
            return None;
        }
        assert(run_rows(self@)[0] == self.rows@[start as int]@);
        Some(
            Submission {
                request: Request::Reorder {
                    task_id: self.move_task_id,
                    note_path: self.rows[start].note_path().to_owned(),
                    line_number: self.anchor_line(start, end, self.move_task_id),
                    lines: self.lines_between(start, end),
                },
                undo: None,
                confirmation: None,
            },
        )
    }

    /// Leaves move mode and submits the new order of the run; an order that did not change submits
    /// nothing.
    pub fn commit_move(&mut self) -> (r: Option<Submission>)
        ensures
            final(self)@ == move_left(old(self)@),
            opt_submission(r) == move_submission(old(self)@),
    {
        let r = self.reorder();
        self.moving = false;
        self.move_initial_ids = Vec::new();
        r
    }

    /// Leaves move mode, puts the run back into its order and the cursor on the task that was moved.
    pub fn cancel_move(&mut self)
        ensures
            final(self)@ == move_cancelled(old(self)@),
    {
        let range = self.group_task_row_range();
        if let Some((start, end)) = range {
            let row = put_back(
                &mut self.rows,
                start,
                end,
                &self.move_initial_ids,
                self.move_task_id,
                self.state.row,
            );
            self.state.row = row;
        }
        self.move_initial_ids = Vec::new();
        self.moving = false;
        self.ctx_scroll = 0;
    }
}

}
