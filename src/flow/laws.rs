use crate::flow::schedule::{
    moment_in_run, preserved, read_bound, run, schedule_step, task_moment, write_bound,
    GridModel, TaskGrids,
};
use crate::grid::AbstractGridID;
use vstd::prelude::*;

verus! {

proof fn lemma_read_bound_above(
    grids: Map<AbstractGridID, GridModel>,
    ids: Seq<AbstractGridID>,
    g: AbstractGridID,
)
    requires
        ids.contains(g),
    ensures
        read_bound(grids, ids) >= grids[g].last_write_moment + 1,
    decreases ids.len(),
{
    let k = choose|k: int| 0 <= k < ids.len() && ids[k] == g;
    if k < ids.len() - 1 {
        assert(ids.drop_last()[k] == g);
        lemma_read_bound_above(grids, ids.drop_last(), g);
    }
}

proof fn lemma_write_bound_above(
    grids: Map<AbstractGridID, GridModel>,
    ids: Seq<AbstractGridID>,
    g: AbstractGridID,
)
    requires
        ids.contains(g),
    ensures
        write_bound(grids, ids) >= grids[g].last_write_moment + 1,
        write_bound(grids, ids) >= grids[g].last_read_moment + 1,
    decreases ids.len(),
{
    let k = choose|k: int| 0 <= k < ids.len() && ids[k] == g;
    if k < ids.len() - 1 {
        assert(ids.drop_last()[k] == g);
        lemma_write_bound_above(grids, ids.drop_last(), g);
    }
}

proof fn lemma_bounds_agree(
    a: Map<AbstractGridID, GridModel>,
    b: Map<AbstractGridID, GridModel>,
    ids: Seq<AbstractGridID>,
)
    requires
        forall|k: int| 0 <= k < ids.len() ==> a[ids[k]] == b[ids[k]],
    ensures
        read_bound(a, ids) == read_bound(b, ids),
        write_bound(a, ids) == write_bound(b, ids),
    decreases ids.len(),
{
    if ids.len() > 0 {
        assert(a[ids[ids.len() - 1]] == b[ids[ids.len() - 1]]);
        lemma_bounds_agree(a, b, ids.drop_last());
    }
}

/// What a task's moment is bounded by, grid by grid.
pub proof fn lemma_task_moment_above(
    grids: Map<AbstractGridID, GridModel>,
    t: TaskGrids,
    g: AbstractGridID,
)
    ensures
        task_moment(grids, t) >= 1,
        t.inputs.contains(g) ==> task_moment(grids, t) > grids[g].last_write_moment,
        t.outputs.contains(g) ==> task_moment(grids, t) > grids[g].last_write_moment
            && task_moment(grids, t) > grids[g].last_read_moment,
        t.depth_stencil == g ==> task_moment(grids, t) >= grids[g].last_write_moment
            && task_moment(grids, t) >= grids[g].last_read_moment,
{
    if t.inputs.contains(g) {
        lemma_read_bound_above(grids, t.inputs, g);
    }
    if t.outputs.contains(g) {
        lemma_write_bound_above(grids, t.outputs, g);
    }
}

/// Scheduling a task keeps the set of registered grids, never moves the last
/// write of a grid back, and never moves back the last read of a grid that
/// the task does not only read. (The last read of a grid that the task only
/// reads becomes the task's moment, which may be earlier than that read.)
pub proof fn lemma_moments_monotonic(
    grids: Map<AbstractGridID, GridModel>,
    t: TaskGrids,
    g: AbstractGridID,
)
    requires
        grids.contains_key(g),
    ensures
        schedule_step(grids, t).dom() == grids.dom(),
        schedule_step(grids, t)[g].last_write_moment >= grids[g].last_write_moment,
        !t.only_reads(g) ==> schedule_step(grids, t)[g].last_read_moment
            >= grids[g].last_read_moment,
{
    lemma_task_moment_above(grids, t, g);
    assert(schedule_step(grids, t).dom() =~= grids.dom());
}

proof fn lemma_run_dom(grids: Map<AbstractGridID, GridModel>, ts: Seq<TaskGrids>)
    ensures
        run(grids, ts).dom() == grids.dom(),
    decreases ts.len(),
{
    if ts.len() > 0 {
        let prev = run(grids, ts.drop_last());
        lemma_run_dom(grids, ts.drop_last());
        assert(schedule_step(prev, ts.last()).dom() =~= prev.dom());
    }
}

proof fn lemma_run_take_step(grids: Map<AbstractGridID, GridModel>, ts: Seq<TaskGrids>, k: int)
    requires
        0 <= k < ts.len(),
    ensures
        run(grids, ts.take(k + 1)) == schedule_step(run(grids, ts.take(k)), ts[k]),
{
    assert(ts.take(k + 1).drop_last() =~= ts.take(k));
    assert(ts.take(k + 1).last() == ts[k]);
}

/// Across a run of tasks, the last write of a registered grid never moves
/// back: after the first `b` tasks it is at least what it was after the
/// first `a`, for `a <= b`.
pub proof fn lemma_run_write_grows(
    grids: Map<AbstractGridID, GridModel>,
    ts: Seq<TaskGrids>,
    a: int,
    b: int,
    g: AbstractGridID,
)
    requires
        0 <= a <= b <= ts.len(),
        grids.contains_key(g),
    ensures
        run(grids, ts.take(b))[g].last_write_moment >= run(grids, ts.take(a))[g].last_write_moment,
    decreases b - a,
{
    if a < b {
        lemma_run_write_grows(grids, ts, a, b - 1, g);
        lemma_run_take_step(grids, ts, b - 1);
        lemma_run_dom(grids, ts.take(b - 1));
        lemma_moments_monotonic(run(grids, ts.take(b - 1)), ts[b - 1], g);
    }
}

/// After task `i` of a run, grid `g` was written at its moment if it wrote
/// `g`, and read at its moment if it read or wrote `g`.
proof fn lemma_run_after_task(
    grids: Map<AbstractGridID, GridModel>,
    ts: Seq<TaskGrids>,
    i: int,
    g: AbstractGridID,
)
    requires
        0 <= i < ts.len(),
        grids.contains_key(g),
    ensures
        run(grids, ts.take(i + 1)).contains_key(g),
        ts[i].writes(g) ==> run(grids, ts.take(i + 1))[g].last_write_moment == moment_in_run(
            grids,
            ts,
            i,
        ),
        ts[i].writes(g) || ts[i].inputs.contains(g) ==> run(grids, ts.take(i + 1))[g].last_read_moment
            == moment_in_run(grids, ts, i),
{
    lemma_run_take_step(grids, ts, i);
    lemma_run_dom(grids, ts.take(i));
    lemma_run_dom(grids, ts.take(i + 1));
}

/// Read after write: a task that reads a grid that an earlier task wrote
/// gets a later moment than that task.
pub proof fn lemma_read_after_write(
    grids: Map<AbstractGridID, GridModel>,
    ts: Seq<TaskGrids>,
    i: int,
    j: int,
    g: AbstractGridID,
)
    requires
        0 <= i < j < ts.len(),
        grids.contains_key(g),
        ts[i].writes(g),
        ts[j].inputs.contains(g),
    ensures
        moment_in_run(grids, ts, j) > moment_in_run(grids, ts, i),
{
    lemma_run_after_task(grids, ts, i, g);
    lemma_run_write_grows(grids, ts, i + 1, j, g);
    lemma_task_moment_above(run(grids, ts.take(j)), ts[j], g);
}

/// Write after write: a task that writes a grid as an output, which an
/// earlier task wrote, gets a later moment than that task.
pub proof fn lemma_write_after_write(
    grids: Map<AbstractGridID, GridModel>,
    ts: Seq<TaskGrids>,
    i: int,
    j: int,
    g: AbstractGridID,
)
    requires
        0 <= i < j < ts.len(),
        grids.contains_key(g),
        ts[i].writes(g),
        ts[j].outputs.contains(g),
    ensures
        moment_in_run(grids, ts, j) > moment_in_run(grids, ts, i),
{
    lemma_run_after_task(grids, ts, i, g);
    lemma_run_write_grows(grids, ts, i + 1, j, g);
    lemma_task_moment_above(run(grids, ts.take(j)), ts[j], g);
}

proof fn lemma_run_read_stays(
    grids: Map<AbstractGridID, GridModel>,
    ts: Seq<TaskGrids>,
    i: int,
    b: int,
    g: AbstractGridID,
)
    requires
        0 <= i < b <= ts.len(),
        grids.contains_key(g),
        ts[i].writes(g) || ts[i].inputs.contains(g),
        forall|k: int|
            i < k < b && #[trigger] ts[k].only_reads(g) ==> moment_in_run(grids, ts, k)
                >= moment_in_run(grids, ts, i),
    ensures
        run(grids, ts.take(b))[g].last_read_moment >= moment_in_run(grids, ts, i),
    decreases b - i,
{
    if b == i + 1 {
        lemma_run_after_task(grids, ts, i, g);
    } else {
        lemma_run_read_stays(grids, ts, i, b - 1, g);
        lemma_run_take_step(grids, ts, b - 1);
        lemma_run_dom(grids, ts.take(b - 1));
        lemma_moments_monotonic(run(grids, ts.take(b - 1)), ts[b - 1], g);
        if ts[b - 1].only_reads(g) {
            assert(moment_in_run(grids, ts, b - 1) >= moment_in_run(grids, ts, i));
        }
    }
}

/// Write after read: a task that writes a grid as an output, which an earlier
/// task read, gets a later moment than that task, provided that no task in
/// between that only reads the grid got an earlier moment than the reader.
/// (Such a task moves the grid's last read back, and the write may then be
/// scheduled together with the earlier read.)
pub proof fn lemma_write_after_read(
    grids: Map<AbstractGridID, GridModel>,
    ts: Seq<TaskGrids>,
    i: int,
    j: int,
    g: AbstractGridID,
)
    requires
        0 <= i < j < ts.len(),
        grids.contains_key(g),
        ts[i].inputs.contains(g),
        ts[j].outputs.contains(g),
        forall|k: int|
            i < k < j && #[trigger] ts[k].only_reads(g) ==> moment_in_run(grids, ts, k)
                >= moment_in_run(grids, ts, i),
    ensures
        moment_in_run(grids, ts, j) > moment_in_run(grids, ts, i),
{
    lemma_run_read_stays(grids, ts, i, j, g);
    lemma_task_moment_above(run(grids, ts.take(j)), ts[j], g);
}

/// Independence: a task's moment depends only on the grids it touches, so a
/// task scheduled before it on other grids leaves its moment unchanged.
pub proof fn lemma_independent_tasks(
    grids: Map<AbstractGridID, GridModel>,
    t1: TaskGrids,
    t2: TaskGrids,
)
    requires
        forall|g: AbstractGridID| #[trigger]
            t2.touches(g) ==> grids.contains_key(g) && !t1.touches(g),
    ensures
        task_moment(schedule_step(grids, t1), t2) == task_moment(grids, t2),
{
    let after = schedule_step(grids, t1);
    assert forall|k: int| 0 <= k < t2.inputs.len() implies after[t2.inputs[k]]
        == grids[t2.inputs[k]] by {
        assert(t2.touches(t2.inputs[k]));
    }
    assert forall|k: int| 0 <= k < t2.outputs.len() implies after[t2.outputs[k]]
        == grids[t2.outputs[k]] by {
        assert(t2.touches(t2.outputs[k]));
    }
    assert(t2.touches(t2.depth_stencil));
    lemma_bounds_agree(after, grids, t2.inputs);
    lemma_bounds_agree(after, grids, t2.outputs);
}

proof fn lemma_bounds_at_most(
    grids: Map<AbstractGridID, GridModel>,
    ids: Seq<AbstractGridID>,
    b: nat,
)
    requires
        forall|k: int|
            0 <= k < ids.len() ==> grids[ids[k]].last_write_moment <= b
                && grids[ids[k]].last_read_moment <= b,
    ensures
        read_bound(grids, ids) <= b + 1,
        write_bound(grids, ids) <= b + 1,
    decreases ids.len(),
{
    if ids.len() > 0 {
        lemma_bounds_at_most(grids, ids.drop_last(), b);
    }
}

/// A task whose grids no task has read or written yet gets moment 1.
pub proof fn lemma_untouched_task_moment(grids: Map<AbstractGridID, GridModel>, t: TaskGrids)
    requires
        forall|g: AbstractGridID| #[trigger]
            t.touches(g) ==> grids[g].last_write_moment == 0 && grids[g].last_read_moment == 0,
    ensures
        task_moment(grids, t) == 1,
{
    assert forall|k: int| 0 <= k < t.inputs.len() implies grids[t.inputs[k]].last_write_moment
        <= 0 && grids[t.inputs[k]].last_read_moment <= 0 by {
        assert(t.touches(t.inputs[k]));
    }
    assert forall|k: int| 0 <= k < t.outputs.len() implies grids[t.outputs[k]].last_write_moment
        <= 0 && grids[t.outputs[k]].last_read_moment <= 0 by {
        assert(t.touches(t.outputs[k]));
    }
    assert(t.touches(t.depth_stencil));
    lemma_bounds_at_most(grids, t.inputs, 0);
    lemma_bounds_at_most(grids, t.outputs, 0);
}

/// Independence on untouched grids: two tasks that share no grid, on grids
/// that no task has read or written yet, both get moment 1 when scheduled
/// one after the other, so they may run together.
pub proof fn lemma_untouched_disjoint_tasks_share_moment(
    grids: Map<AbstractGridID, GridModel>,
    t1: TaskGrids,
    t2: TaskGrids,
)
    requires
        forall|g: AbstractGridID| #[trigger]
            t1.touches(g) ==> grids.contains_key(g) && grids[g].last_write_moment == 0
                && grids[g].last_read_moment == 0,
        forall|g: AbstractGridID| #[trigger]
            t2.touches(g) ==> grids.contains_key(g) && grids[g].last_write_moment == 0
                && grids[g].last_read_moment == 0 && !t1.touches(g),
    ensures
        task_moment(grids, t1) == 1,
        task_moment(schedule_step(grids, t1), t2) == 1,
{
    lemma_untouched_task_moment(grids, t1);
    lemma_untouched_task_moment(grids, t2);
    lemma_independent_tasks(grids, t1, t2);
}

/// Marking the final content of a grid as preserved twice leaves the same
/// state as marking it once.
pub proof fn lemma_preserve_idempotent(grids: Map<AbstractGridID, GridModel>, g: AbstractGridID)
    ensures
        preserved(preserved(grids, g), g) == preserved(grids, g),
{
    if grids.contains_key(g) {
        assert(preserved(preserved(grids, g), g) =~= preserved(grids, g));
    }
}

} // verus!
