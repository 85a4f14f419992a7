use crate::grid::AbstractGridID;
use vstd::prelude::*;

verus! {

/// The hazard state of one grid in a flow: the last moments at which a task
/// read it and wrote it, and whether its content must be kept at the start
/// and at the end of the flow.
pub struct GridModel {
    pub last_read_moment: nat,
    pub last_write_moment: nat,
    pub preserve_initial_content: bool,
    pub preserve_final_content: bool,
}

/// The grids that one render task touches: the grids it reads, the grids it
/// writes, and its depth/stencil grid.
pub struct TaskGrids {
    pub inputs: Seq<AbstractGridID>,
    pub outputs: Seq<AbstractGridID>,
    pub depth_stencil: AbstractGridID,
}

impl TaskGrids {
    pub open spec fn touches(self, g: AbstractGridID) -> bool {
        self.inputs.contains(g) || self.outputs.contains(g) || self.depth_stencil == g
    }

    /// The task overwrites `g`: as an output or as its depth/stencil grid.
    pub open spec fn writes(self, g: AbstractGridID) -> bool {
        self.outputs.contains(g) || self.depth_stencil == g
    }

    /// The task reads `g` and does not write it.
    pub open spec fn only_reads(self, g: AbstractGridID) -> bool {
        self.inputs.contains(g) && !self.writes(g)
    }
}

pub open spec fn max_nat(a: nat, b: nat) -> nat {
    if a >= b {
        a
    } else {
        b
    }
}

/// The least moment after every write of the given grids.
pub open spec fn read_bound(grids: Map<AbstractGridID, GridModel>, ids: Seq<AbstractGridID>) -> nat
    decreases ids.len(),
{
    if ids.len() == 0 {
        0
    } else {
        max_nat(
            read_bound(grids, ids.drop_last()),
            grids[ids.last()].last_write_moment + 1,
        )
    }
}

/// The least moment after every read and every write of the given grids.
pub open spec fn write_bound(grids: Map<AbstractGridID, GridModel>, ids: Seq<AbstractGridID>) -> nat
    decreases ids.len(),
{
    if ids.len() == 0 {
        0
    } else {
        let g = grids[ids.last()];
        max_nat(
            write_bound(grids, ids.drop_last()),
            max_nat(g.last_write_moment + 1, g.last_read_moment + 1),
        )
    }
}

/// The moment at which a task is scheduled: at least 1, after every write of
/// its inputs, after every read and write of its outputs, and not before the
/// last read or write of its depth/stencil grid.
pub open spec fn task_moment(grids: Map<AbstractGridID, GridModel>, t: TaskGrids) -> nat {
    let ds = grids[t.depth_stencil];
    max_nat(
        max_nat(1, read_bound(grids, t.inputs)),
        max_nat(
            write_bound(grids, t.outputs),
            max_nat(ds.last_read_moment, ds.last_write_moment),
        ),
    )
}

/// The hazard state after a task at moment `m`: the grids it writes were read
/// and written at `m`, the grids it only reads were read at `m`.
pub open spec fn commit(grids: Map<AbstractGridID, GridModel>, t: TaskGrids, m: nat) -> Map<
    AbstractGridID,
    GridModel,
> {
    Map::new(
        |g: AbstractGridID| grids.dom().contains(g),
        |g: AbstractGridID|
            if t.writes(g) {
                GridModel { last_read_moment: m, last_write_moment: m, ..grids[g] }
            } else if t.inputs.contains(g) {
                GridModel { last_read_moment: m, ..grids[g] }
            } else {
                grids[g]
            },
    )
}

/// The hazard state after scheduling one task.
pub open spec fn schedule_step(grids: Map<AbstractGridID, GridModel>, t: TaskGrids) -> Map<
    AbstractGridID,
    GridModel,
> {
    commit(grids, t, task_moment(grids, t))
}

/// The hazard state after scheduling the given tasks in order.
pub open spec fn run(grids: Map<AbstractGridID, GridModel>, ts: Seq<TaskGrids>) -> Map<
    AbstractGridID,
    GridModel,
>
    decreases ts.len(),
{
    if ts.len() == 0 {
        grids
    } else {
        schedule_step(run(grids, ts.drop_last()), ts.last())
    }
}

/// The moment that task `j` receives when the tasks are scheduled in order.
pub open spec fn moment_in_run(
    grids: Map<AbstractGridID, GridModel>,
    ts: Seq<TaskGrids>,
    j: int,
) -> nat {
    task_moment(run(grids, ts.take(j)), ts[j])
}

/// The hazard state after marking the final content of `g` as preserved.
pub open spec fn preserved(grids: Map<AbstractGridID, GridModel>, g: AbstractGridID) -> Map<
    AbstractGridID,
    GridModel,
> {
    if grids.dom().contains(g) {
        grids.insert(g, GridModel { preserve_final_content: true, ..grids[g] })
    } else {
        grids
    }
}

} // verus!
