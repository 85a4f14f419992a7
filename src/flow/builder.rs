use crate::flow::grid::{FlowGridBuilder, FlowGridSketch, GridNode};
use crate::flow::laws::{
    lemma_moments_monotonic, lemma_task_moment_above, lemma_untouched_task_moment,
};
use crate::flow::render_task::{
    RenderTaskBuilder, RenderTaskInputBuilder, RenderTaskInputSketch, RenderTaskOutputBuilder,
    RenderTaskOutputSketch, RenderTaskSketch, TaskSketchModel,
};
use crate::flow::schedule::{
    commit, max_nat, preserved, read_bound, task_moment, write_bound, GridModel, TaskGrids,
};
use crate::grid::AbstractGridID;
use vstd::prelude::*;

verus! {

/// Why a flow builder refused a call. Each one is a misuse by the caller.
#[derive(Debug, Clone, Copy, PartialEq, Eq, Structural)]
pub enum FlowError {
    /// A grid of another grid group was handed to the builder.
    ForeignResourceError,
    /// The grid was already registered in this builder.
    DuplicateResourceError,
    /// A task or a call names a grid that was never registered in this builder.
    UnregisteredResourceError,
}

/// The id of a flow builder: the grid group it belongs to and a number that
/// tells it apart from the other builders of that group.
#[derive(Debug, Hash, Eq, PartialEq, Structural, Copy, Clone)]
pub struct RenderFlowBuilderID {
    group_id: u32,
    local_id: u32,
}

impl RenderFlowBuilderID {
    pub closed spec fn spec_group_id(self) -> u32 {
        self.group_id
    }

    pub closed spec fn spec_local_id(self) -> u32 {
        self.local_id
    }

    /// Two builder ids are equal exactly when their groups and their local
    /// ids are.
    pub proof fn lemma_eq(a: Self, b: Self)
        ensures
            a == b <==> (a.spec_group_id() == b.spec_group_id() && a.spec_local_id()
                == b.spec_local_id()),
    {
    }

    /// Creates a new builder id.
    pub fn new(group_id: u32, local_id: u32) -> (r: Self)
        ensures
            r.spec_group_id() == group_id,
            r.spec_local_id() == local_id,
    {
        Self { group_id, local_id }
    }

    /// Gets the id of the grid group that the builder belongs to.
    pub fn get_group_id(&self) -> (r: u32)
        ensures
            r == self.spec_group_id(),
    {
        self.group_id
    }
}

/// What a flow builder holds: its id, the hazard state of each registered
/// grid, and the scheduled tasks in the order they were added.
pub struct FlowModel {
    pub id: RenderFlowBuilderID,
    pub grids: Map<AbstractGridID, GridModel>,
    pub tasks: Seq<TaskSketchModel>,
}

/// Builds a render flow: the grids of one grid group that the flow uses, and
/// the render tasks that draw on them. Each task gets a moment: a task runs
/// after every task that wrote a grid it reads, and after every task that
/// read or wrote a grid it writes. Tasks with equal moments may run together.
pub struct RenderFlowBuilder {
    drawing_nodes: Vec<RenderTaskSketch>,
    used_grids: Vec<GridNode>,
    grid_states: Ghost<Map<AbstractGridID, GridModel>>,
    id: RenderFlowBuilderID,
}

impl View for RenderFlowBuilder {
    type V = FlowModel;

    closed spec fn view(&self) -> FlowModel {
        FlowModel {
            id: self.id,
            grids: self.grid_states@,
            tasks: self.drawing_nodes@.map_values(|s: RenderTaskSketch| s@),
        }
    }
}

impl RenderFlowBuilder {
    /// The grid table holds each registered grid once, with its state, no
    /// moment in it is later than the number of scheduled tasks, and every
    /// registered grid belongs to the builder's grid group. A grid that a
    /// scheduled task wrote was last written no earlier than that task.
    pub closed spec fn wf(self) -> bool {
        &&& forall|i: int|
            0 <= i < self.used_grids@.len() ==> {
                let node = #[trigger] self.used_grids@[i];
                &&& self.grid_states@.contains_key(node.grid_id)
                &&& self.grid_states@[node.grid_id] == node.model()
                &&& node.last_read_moment <= self.drawing_nodes@.len()
                &&& node.last_write_moment <= self.drawing_nodes@.len()
            }
        &&& forall|g: AbstractGridID| #[trigger]
            self.grid_states@.contains_key(g) ==> exists|i: int|
                0 <= i < self.used_grids@.len() && self.used_grids@[i].grid_id == g
        &&& forall|i: int, j: int|
            0 <= i < self.used_grids@.len() && 0 <= j < self.used_grids@.len() && i != j
                ==> self.used_grids@[i].grid_id != self.used_grids@[j].grid_id
        &&& forall|g: AbstractGridID| #[trigger]
            self.grid_states@.contains_key(g) ==> g.spec_group_id() == self.id.spec_group_id()
        &&& forall|k: int, g: AbstractGridID|
            0 <= k < self.drawing_nodes@.len() && #[trigger] self.drawing_nodes@[k]@.writes(g)
                ==> self.grid_states@.contains_key(g) && self.grid_states@[g].last_write_moment
                >= self.drawing_nodes@[k]@.moment
    }

    /// The task would be scheduled: all its grids are registered here.
    pub open spec fn accepts(self, t: TaskGrids) -> bool {
        !self.has_foreign_grid(t) && !self.has_unregistered_grid(t)
    }

    /// Every registered grid belongs to the builder's grid group.
    pub proof fn lemma_registered_grids_in_group(self)
        requires
            self.wf(),
        ensures
            forall|g: AbstractGridID| #[trigger]
                self@.grids.contains_key(g) ==> g.spec_group_id() == self@.id.spec_group_id(),
    {
    }

    /// Some grid of the task belongs to another grid group.
    pub open spec fn has_foreign_grid(self, t: TaskGrids) -> bool {
        exists|g: AbstractGridID| #[trigger]
            t.touches(g) && g.spec_group_id() != self@.id.spec_group_id()
    }

    /// Some grid of the task was never registered in this builder.
    pub open spec fn has_unregistered_grid(self, t: TaskGrids) -> bool {
        exists|g: AbstractGridID| #[trigger] t.touches(g) && !self@.grids.contains_key(g)
    }

    /// Creates an empty builder with the given id.
    pub fn new(id: RenderFlowBuilderID) -> (r: Self)
        ensures
            r.wf(),
            r@.id == id,
            r@.grids == Map::<AbstractGridID, GridModel>::empty(),
            r@.tasks == Seq::<TaskSketchModel>::empty(),
    {
        let r = Self {
            drawing_nodes: Vec::new(),
            used_grids: Vec::new(),
            grid_states: Ghost(Map::empty()),
            id,
        };
        proof {
            assert(r@.tasks =~= Seq::<TaskSketchModel>::empty());
        }
        r
    }

    /// Gets the id of this builder.
    pub fn get_id(&self) -> (r: &RenderFlowBuilderID)
        ensures
            *r == self@.id,
    {
        &self.id
    }

    /// Gets the scheduled tasks, in the order they were added.
    pub fn get_render_tasks(&self) -> (r: &Vec<RenderTaskSketch>)
        ensures
            r@.map_values(|s: RenderTaskSketch| s@) == self@.tasks,
    {
        &self.drawing_nodes
    }

    /// The row of the grid table that holds `g`, if any.
    fn grid_index(&self, g: AbstractGridID) -> (r: Option<usize>)
        requires
            self.wf(),
        ensures
            match r {
                Some(i) => i < self.used_grids@.len() && self.used_grids@[i as int].grid_id == g
                    && self@.grids.contains_key(g),
                None => !self@.grids.contains_key(g),
            },
    {
        let mut i: usize = 0;
        while i < self.used_grids.len()
            invariant
                self.wf(),
                i <= self.used_grids@.len(),
                forall|j: int| 0 <= j < i ==> self.used_grids@[j].grid_id != g,
            decreases self.used_grids@.len() - i,
        {
            if self.used_grids[i].grid_id == g {
                return Some(i);
            }
            i += 1;
        }
        None
    }

    /// The row of the grid table that holds the registered grid `g`.
    fn registered_index(&self, g: AbstractGridID) -> (r: usize)
        requires
            self.wf(),
            self@.grids.contains_key(g),
        ensures
            r < self.used_grids@.len(),
            self.used_grids@[r as int].grid_id == g,
    {
        match self.grid_index(g) {
            Some(i) => i,
            None => {
                proof {
                    assert(false);
                }
                0
            },
        }
    }

    /// Gets the retention flags of the grid `grid`, if it is registered.
    pub fn get_grid_node(&self, grid: AbstractGridID) -> (r: Option<FlowGridSketch>)
        requires
            self.wf(),
        ensures
            match r {
                Some(s) => self@.grids.contains_key(grid)
                    && s.spec_preserve_initial_content()
                    == self@.grids[grid].preserve_initial_content
                    && s.spec_preserve_final_content()
                    == self@.grids[grid].preserve_final_content,
                None => !self@.grids.contains_key(grid),
            },
    {
        match self.grid_index(grid) {
            Some(i) => Some(self.used_grids[i].sketch),
            None => None,
        }
    }

    /// Registers `grid` in this flow, with no task having touched it yet. The
    /// grid must belong to the builder's grid group and must not be
    /// registered already. Returns the handle by which tasks name the grid.
    pub fn add_grid_node(&mut self, grid: AbstractGridID, preserve_content: bool) -> (r: Result<
        FlowGridBuilder,
        FlowError,
    >)
        requires
            old(self).wf(),
        ensures
            final(self).wf(),
            final(self)@.id == old(self)@.id,
            final(self)@.tasks == old(self)@.tasks,
            grid.spec_group_id() != old(self)@.id.spec_group_id() ==> r == Err::<
                FlowGridBuilder,
                FlowError,
            >(FlowError::ForeignResourceError) && final(self)@ == old(self)@,
            grid.spec_group_id() == old(self)@.id.spec_group_id() && old(self)@.grids.contains_key(
                grid,
            ) ==> r == Err::<FlowGridBuilder, FlowError>(FlowError::DuplicateResourceError)
                && final(self)@ == old(self)@,
            grid.spec_group_id() == old(self)@.id.spec_group_id() && !old(self)@.grids.contains_key(
                grid,
            ) ==> r is Ok && r->Ok_0@ == grid && final(self)@.grids == old(self)@.grids.insert(
                grid,
                GridModel {
                    last_read_moment: 0,
                    last_write_moment: 0,
                    preserve_initial_content: preserve_content,
                    preserve_final_content: false,
                },
            ),
    {
        if grid.get_group_id() != self.id.get_group_id() {
            return Err(FlowError::ForeignResourceError);
        }
        if self.grid_index(grid).is_some() {
            return Err(FlowError::DuplicateResourceError);
        }
        let node = GridNode {
            grid_id: grid,
            last_read_moment: 0,
            last_write_moment: 0,
            sketch: FlowGridSketch::new(preserve_content),
        };
        let ghost old_nodes = self.used_grids@;
        self.used_grids.push(node);
        self.grid_states = Ghost(self.grid_states@.insert(grid, node.model()));
        proof {
            assert(self.used_grids@[old_nodes.len() as int] == node);
            assert forall|g: AbstractGridID| #[trigger]
                self.grid_states@.contains_key(g) implies exists|i: int|
                    0 <= i < self.used_grids@.len() && self.used_grids@[i].grid_id == g by {
                if g == grid {
                    assert(self.used_grids@[old_nodes.len() as int].grid_id == g);
                } else {
                    assert(old(self).grid_states@.contains_key(g));
                    let i = choose|i: int|
                        0 <= i < old_nodes.len() && old_nodes[i].grid_id == g;
                    assert(self.used_grids@[i] == old_nodes[i]);
                }
            }
        }
        Ok(FlowGridBuilder::new(grid))
    }

    /// Marks the content of the grid `grid_node` at the end of the flow as
    /// preserved. Marking it twice is the same as marking it once.
    pub fn preserve_grid_node(&mut self, grid_node: FlowGridBuilder) -> (r: Result<(), FlowError>)
        requires
            old(self).wf(),
        ensures
            final(self).wf(),
            final(self)@.id == old(self)@.id,
            final(self)@.tasks == old(self)@.tasks,
            grid_node@.spec_group_id() != old(self)@.id.spec_group_id() ==> r == Err::<
                (),
                FlowError,
            >(FlowError::ForeignResourceError) && final(self)@ == old(self)@,
            grid_node@.spec_group_id() == old(self)@.id.spec_group_id()
                && !old(self)@.grids.contains_key(grid_node@) ==> r == Err::<(), FlowError>(
                FlowError::UnregisteredResourceError,
            ) && final(self)@ == old(self)@,
            grid_node@.spec_group_id() == old(self)@.id.spec_group_id()
                && old(self)@.grids.contains_key(grid_node@) ==> r == Ok::<(), FlowError>(())
                && final(self)@.grids == preserved(old(self)@.grids, grid_node@),
    {
        let grid = grid_node.get_grid_id();
        if grid.get_group_id() != self.id.get_group_id() {
            return Err(FlowError::ForeignResourceError);
        }
        match self.grid_index(grid) {
            None => Err(FlowError::UnregisteredResourceError),
            Some(i) => {
                let ghost old_nodes = self.used_grids@;
                let mut node = self.used_grids[i];
                node.sketch = node.sketch.with_final_content_preserved();
                self.used_grids.set(i, node);
                self.grid_states = Ghost(preserved(self.grid_states@, grid));
                proof {
                    assert forall|g: AbstractGridID| #[trigger]
                        self.grid_states@.contains_key(g) implies exists|k: int|
                            0 <= k < self.used_grids@.len() && self.used_grids@[k].grid_id
                                == g by {
                        let k = choose|k: int|
                            0 <= k < old_nodes.len() && old_nodes[k].grid_id == g;
                        assert(self.used_grids@[k].grid_id == g);
                    }
                }
                Ok(())
            },
        }
    }

    /// Whether some grid of `task` belongs to another grid group.
    fn task_has_foreign_grid(&self, task: &RenderTaskBuilder) -> (r: bool)
        ensures
            r == self.has_foreign_grid(task.grids()),
    {
        let group = self.id.get_group_id();
        let ghost t = task.grids();
        let mut i: usize = 0;
        while i < task.inputs.len()
            invariant
                i <= task.inputs@.len(),
                t == task.grids(),
                group == self@.id.spec_group_id(),
                forall|j: int| 0 <= j < i ==> t.inputs[j].spec_group_id() == group,
            decreases task.inputs@.len() - i,
        {
            let g = task.inputs[i].grid.get_grid_id();
            if g.get_group_id() != group {
                assert(t.inputs[i as int] == g);
                assert(t.touches(g));
                return true;
            }
            i += 1;
        }
        let mut i: usize = 0;
        while i < task.outputs.len()
            invariant
                i <= task.outputs@.len(),
                t == task.grids(),
                group == self@.id.spec_group_id(),
                forall|j: int| 0 <= j < t.inputs.len() ==> t.inputs[j].spec_group_id() == group,
                forall|j: int| 0 <= j < i ==> t.outputs[j].spec_group_id() == group,
            decreases task.outputs@.len() - i,
        {
            let g = task.outputs[i].grid.get_grid_id();
            if g.get_group_id() != group {
                assert(t.outputs[i as int] == g);
                assert(t.touches(g));
                return true;
            }
            i += 1;
        }
        let g = task.depth_stencil_grid.get_grid_id();
        if g.get_group_id() != group {
            assert(t.touches(g));
            return true;
        }
        false
    }

    /// Whether some grid of `task` is not registered in this builder.
    fn task_has_unregistered_grid(&self, task: &RenderTaskBuilder) -> (r: bool)
        requires
            self.wf(),
        ensures
            r == self.has_unregistered_grid(task.grids()),
    {
        let ghost t = task.grids();
        let mut i: usize = 0;
        while i < task.inputs.len()
            invariant
                self.wf(),
                i <= task.inputs@.len(),
                t == task.grids(),
                forall|j: int| 0 <= j < i ==> self@.grids.contains_key(t.inputs[j]),
            decreases task.inputs@.len() - i,
        {
            let g = task.inputs[i].grid.get_grid_id();
            if self.grid_index(g).is_none() {
                assert(t.inputs[i as int] == g);
                assert(t.touches(g));
                return true;
            }
            i += 1;
        }
        let mut i: usize = 0;
        while i < task.outputs.len()
            invariant
                self.wf(),
                i <= task.outputs@.len(),
                t == task.grids(),
                forall|j: int| 0 <= j < t.inputs.len() ==> self@.grids.contains_key(t.inputs[j]),
                forall|j: int| 0 <= j < i ==> self@.grids.contains_key(t.outputs[j]),
            decreases task.outputs@.len() - i,
        {
            let g = task.outputs[i].grid.get_grid_id();
            if self.grid_index(g).is_none() {
                assert(t.outputs[i as int] == g);
                assert(t.touches(g));
                return true;
            }
            i += 1;
        }
        let g = task.depth_stencil_grid.get_grid_id();
        if self.grid_index(g).is_none() {
            assert(t.touches(g));
            return true;
        }
        false
    }

    /// Schedules `task`. Its moment is the least one that is at least 1,
    /// after the last write of each grid it reads, after the last read and
    /// the last write of each grid it writes, and not before the last read
    /// or write of its depth/stencil grid. The grids it writes are then read
    /// and written at that moment, the grids it only reads are read at it.
    ///
    /// A grid of another grid group makes it fail with
    /// `ForeignResourceError`; else a grid that is not registered makes it
    /// fail with `UnregisteredResourceError`. On failure nothing changes.
    ///
    /// No moment exceeds the number of tasks, so the builder must hold fewer
    /// than `u32::MAX` tasks for the new moment to fit in a `u32`.
    pub fn add_render_task(&mut self, task: RenderTaskBuilder) -> (r: Result<(), FlowError>)
        requires
            old(self).wf(),
            old(self)@.tasks.len() < u32::MAX,
        ensures
            final(self).wf(),
            final(self)@.id == old(self)@.id,
            old(self).has_foreign_grid(task.grids()) ==> r == Err::<(), FlowError>(
                FlowError::ForeignResourceError,
            ) && final(self)@ == old(self)@,
            !old(self).has_foreign_grid(task.grids()) && old(self).has_unregistered_grid(
                task.grids(),
            ) ==> r == Err::<(), FlowError>(FlowError::UnregisteredResourceError) && final(self)@
                == old(self)@,
            !old(self).has_foreign_grid(task.grids()) && !old(self).has_unregistered_grid(
                task.grids(),
            ) ==> r == Ok::<(), FlowError>(()) && final(self)@.grids == commit(
                old(self)@.grids,
                task.grids(),
                task_moment(old(self)@.grids, task.grids()),
            ) && final(self)@.tasks == old(self)@.tasks.push(
                task.sketch(task_moment(old(self)@.grids, task.grids())),
            ),
            old(self).accepts(task.grids()) ==> forall|k: int, g: AbstractGridID|
                0 <= k < old(self)@.tasks.len() && #[trigger] old(self)@.tasks[k].writes(g) ==> {
                    &&& task.grids().inputs.contains(g) ==> final(self)@.tasks.last().moment
                        > old(self)@.tasks[k].moment
                    &&& task.grids().outputs.contains(g) ==> final(self)@.tasks.last().moment
                        > old(self)@.tasks[k].moment
                    &&& task.grids().depth_stencil == g ==> final(self)@.tasks.last().moment
                        >= old(self)@.tasks[k].moment
                },
            old(self).accepts(task.grids()) && (forall|g: AbstractGridID| #[trigger]
                task.grids().touches(g) ==> old(self)@.grids[g].last_write_moment == 0
                    && old(self)@.grids[g].last_read_moment == 0) ==> final(self)@.tasks.last().moment
                == 1,
            forall|g: AbstractGridID| #[trigger]
                old(self)@.grids.contains_key(g) ==> final(self)@.grids.contains_key(g)
                    && final(self)@.grids[g].last_write_moment
                    >= old(self)@.grids[g].last_write_moment && (!task.grids().only_reads(g)
                    ==> final(self)@.grids[g].last_read_moment
                    >= old(self)@.grids[g].last_read_moment),
    {
        if self.task_has_foreign_grid(&task) {
            return Err(FlowError::ForeignResourceError);
        }
        if self.task_has_unregistered_grid(&task) {
            return Err(FlowError::UnregisteredResourceError);
        }
        let ghost grids = self@.grids;
        let ghost t = task.grids();
        let ghost n = self.drawing_nodes@.len();
        proof {
            assert forall|g: AbstractGridID| t.touches(g) implies grids.contains_key(g) by {
                assert(!self.has_unregistered_grid(t));
            }
        }

        // After the last write of each input
        let mut moment: u32 = 1;
        let mut i: usize = 0;
        while i < task.inputs.len()
            invariant
                self.wf(),
                self@.grids == grids,
                self.drawing_nodes@.len() == n,
                n < u32::MAX,
                t == task.grids(),
                forall|g: AbstractGridID| t.touches(g) ==> grids.contains_key(g),
                i <= task.inputs@.len(),
                moment as nat == max_nat(1, read_bound(grids, t.inputs.take(i as int))),
                moment <= n + 1,
            decreases task.inputs@.len() - i,
        {
            let g = task.inputs[i].grid.get_grid_id();
            proof {
                assert(t.inputs[i as int] == g);
                assert(t.touches(g));
            }
            let k = self.registered_index(g);
            let last_write = self.used_grids[k].last_write_moment;
            if last_write >= moment {
                moment = last_write + 1;
            }
            proof {
                assert(t.inputs.take(i + 1).drop_last() =~= t.inputs.take(i as int));
            }
            i += 1;
        }
        proof {
            assert(t.inputs.take(i as int) =~= t.inputs);
        }

        // After the last read and the last write of each output
        let mut i: usize = 0;
        while i < task.outputs.len()
            invariant
                self.wf(),
                self@.grids == grids,
                self.drawing_nodes@.len() == n,
                n < u32::MAX,
                t == task.grids(),
                forall|g: AbstractGridID| t.touches(g) ==> grids.contains_key(g),
                i <= task.outputs@.len(),
                moment as nat == max_nat(
                    max_nat(1, read_bound(grids, t.inputs)),
                    write_bound(grids, t.outputs.take(i as int)),
                ),
                moment <= n + 1,
            decreases task.outputs@.len() - i,
        {
            let g = task.outputs[i].grid.get_grid_id();
            proof {
                assert(t.outputs[i as int] == g);
                assert(t.touches(g));
            }
            let k = self.registered_index(g);
            let last_write = self.used_grids[k].last_write_moment;
            let last_read = self.used_grids[k].last_read_moment;
            if last_write >= moment {
                moment = last_write + 1;
            }
            if last_read >= moment {
                moment = last_read + 1;
            }
            proof {
                assert(t.outputs.take(i + 1).drop_last() =~= t.outputs.take(i as int));
            }
            i += 1;
        }
        proof {
            assert(t.outputs.take(i as int) =~= t.outputs);
        }

        // Not before the last read or write of the depth/stencil grid
        let ds = task.depth_stencil_grid.get_grid_id();
        proof {
            assert(t.touches(ds));
        }
        let k = self.registered_index(ds);
        let last_read = self.used_grids[k].last_read_moment;
        let last_write = self.used_grids[k].last_write_moment;
        if last_read >= moment {
            moment = last_read;
        }
        if last_write >= moment {
            moment = last_write;
        }
        assert(moment as nat == task_moment(grids, t));

        // Record the reads and writes of the render task
        let ghost old_nodes = self.used_grids@;
        let ghost committed = commit(grids, t, moment as nat);
        let mut k: usize = 0;
        while k < self.used_grids.len()
            invariant
                self.used_grids@.len() == old_nodes.len(),
                self.drawing_nodes@ == old(self).drawing_nodes@,
                self.drawing_nodes@.len() == n,
                self.grid_states@ == grids,
                self.id == old(self).id,
                t == task.grids(),
                committed == commit(grids, t, moment as nat),
                moment <= n + 1,
                k <= old_nodes.len(),
                forall|j: int| k <= j < old_nodes.len() ==> self.used_grids@[j] == old_nodes[j],
                forall|j: int|
                    0 <= j < k ==> #[trigger] self.used_grids@[j].grid_id == old_nodes[j].grid_id
                        && self.used_grids@[j].model() == committed[old_nodes[j].grid_id]
                        && self.used_grids@[j].last_read_moment <= n + 1
                        && self.used_grids@[j].last_write_moment <= n + 1,
                forall|j: int|
                    0 <= j < old_nodes.len() ==> {
                        let node = #[trigger] old_nodes[j];
                        &&& grids.contains_key(node.grid_id)
                        &&& grids[node.grid_id] == node.model()
                        &&& node.last_read_moment <= n
                        &&& node.last_write_moment <= n
                    },
            decreases old_nodes.len() - k,
        {
            let mut node = self.used_grids[k];
            let g = node.grid_id;
            assert(node == old_nodes[k as int]);
            if outputs_name(&task.outputs, g) || task.depth_stencil_grid.get_grid_id() == g {
                node.last_read_moment = moment;
                node.last_write_moment = moment;
            } else if inputs_name(&task.inputs, g) {
                node.last_read_moment = moment;
            }
            self.used_grids.set(k, node);
            k += 1;
        }
        self.grid_states = Ghost(committed);

        // Record the task itself
        let depth_stencil_grid = task.depth_stencil_grid.get_grid_id();
        let inputs = input_sketches(task.inputs);
        let outputs = output_sketches(task.outputs);
        let sketch = RenderTaskSketch::new(moment, inputs, outputs, depth_stencil_grid);
        let ghost old_sketches = self.drawing_nodes@;
        self.drawing_nodes.push(sketch);
        proof {
            assert(self.drawing_nodes@.map_values(|s: RenderTaskSketch| s@) =~= old_sketches.map_values(
                |s: RenderTaskSketch| s@,
            ).push(sketch@));
            assert forall|g: AbstractGridID| #[trigger]
                self.grid_states@.contains_key(g) implies exists|j: int|
                    0 <= j < self.used_grids@.len() && self.used_grids@[j].grid_id == g by {
                let j = choose|j: int| 0 <= j < old_nodes.len() && old_nodes[j].grid_id == g;
                assert(self.used_grids@[j].grid_id == g);
            }
            assert forall|g: AbstractGridID| #[trigger]
                old(self)@.grids.contains_key(g) implies self@.grids.contains_key(g)
                    && self@.grids[g].last_write_moment >= old(self)@.grids[g].last_write_moment
                    && (!t.only_reads(g) ==> self@.grids[g].last_read_moment
                    >= old(self)@.grids[g].last_read_moment) by {
                lemma_moments_monotonic(grids, t, g);
            }
        }
        proof {
            let m = moment as nat;
            assert(self.drawing_nodes@[n as int]@ == task.sketch(m));
            assert forall|k: int, g: AbstractGridID|
                0 <= k < old(self)@.tasks.len() && #[trigger] old(self)@.tasks[k].writes(
                    g,
                ) implies {
                &&& t.inputs.contains(g) ==> m > old(self)@.tasks[k].moment
                &&& t.outputs.contains(g) ==> m > old(self)@.tasks[k].moment
                &&& t.depth_stencil == g ==> m >= old(self)@.tasks[k].moment
            } by {
                assert(old(self).drawing_nodes@[k]@ == old(self)@.tasks[k]);
                lemma_task_moment_above(grids, t, g);
            }
            if forall|g: AbstractGridID| #[trigger]
                t.touches(g) ==> grids[g].last_write_moment == 0 && grids[g].last_read_moment
                    == 0 {
                lemma_untouched_task_moment(grids, t);
            }
            assert forall|k: int, g: AbstractGridID|
                0 <= k < self.drawing_nodes@.len() && #[trigger] self.drawing_nodes@[k]@.writes(
                    g,
                ) implies self.grid_states@.contains_key(g)
                && self.grid_states@[g].last_write_moment >= self.drawing_nodes@[k]@.moment by {
                if k < n {
                    assert(self.drawing_nodes@[k] == old(self).drawing_nodes@[k]);
                    lemma_moments_monotonic(grids, t, g);
                } else {
                    let sketch = task.sketch(m);
                    if sketch.depth_stencil_grid != g {
                        let i = choose|i: int|
                            0 <= i < sketch.outputs.len() && #[trigger] sketch.outputs[i].0 == g;
                        assert(t.outputs[i] == g);
                    }
                    assert(t.touches(g));
                    assert(t.writes(g));
                }
            }
        }
        Ok(())
    }
}

/// Whether some binding of `bindings` names `g`.
fn inputs_name(bindings: &Vec<RenderTaskInputBuilder>, g: AbstractGridID) -> (r: bool)
    ensures
        r == bindings@.map_values(|b: RenderTaskInputBuilder| b.grid@).contains(g),
{
    let ghost ids = bindings@.map_values(|b: RenderTaskInputBuilder| b.grid@);
    let mut i: usize = 0;
    while i < bindings.len()
        invariant
            i <= bindings@.len(),
            ids == bindings@.map_values(|b: RenderTaskInputBuilder| b.grid@),
            forall|j: int| 0 <= j < i ==> ids[j] != g,
        decreases bindings@.len() - i,
    {
        if bindings[i].grid.get_grid_id() == g {
            assert(ids[i as int] == g);
            return true;
        }
        i += 1;
    }
    false
}

/// Whether some binding of `bindings` names `g`.
fn outputs_name(bindings: &Vec<RenderTaskOutputBuilder>, g: AbstractGridID) -> (r: bool)
    ensures
        r == bindings@.map_values(|b: RenderTaskOutputBuilder| b.grid@).contains(g),
{
    let ghost ids = bindings@.map_values(|b: RenderTaskOutputBuilder| b.grid@);
    let mut i: usize = 0;
    while i < bindings.len()
        invariant
            i <= bindings@.len(),
            ids == bindings@.map_values(|b: RenderTaskOutputBuilder| b.grid@),
            forall|j: int| 0 <= j < i ==> ids[j] != g,
        decreases bindings@.len() - i,
    {
        if bindings[i].grid.get_grid_id() == g {
            assert(ids[i as int] == g);
            return true;
        }
        i += 1;
    }
    false
}

/// The sketches of the given input bindings, in the same order.
fn input_sketches(inputs: Vec<RenderTaskInputBuilder>) -> (r: Vec<RenderTaskInputSketch>)
    ensures
        r@.map_values(|s: RenderTaskInputSketch| s@) == inputs@.map_values(
            |b: RenderTaskInputBuilder| b@,
        ),
{
    let mut r: Vec<RenderTaskInputSketch> = Vec::new();
    let mut rest = inputs;
    while rest.len() > 0
        invariant
            r@.len() + rest@.len() == inputs@.len(),
            forall|j: int| 0 <= j < r@.len() ==> #[trigger] r@[j]@ == inputs@[j]@,
            forall|j: int| 0 <= j < rest@.len() ==> #[trigger] rest@[j] == inputs@[r@.len() + j],
        decreases rest@.len(),
    {
        let ghost before = rest@;
        let b = rest.remove(0);
        let grid_id = b.grid.get_grid_id();
        r.push(RenderTaskInputSketch::new(grid_id, b.shader_variable_name));
        proof {
            assert forall|j: int| 0 <= j < rest@.len() implies #[trigger] rest@[j] == inputs@[r@.len() + j] by {
                assert(rest@[j] == before[j + 1]);
            }
        }
    }
    assert(r@.map_values(|s: RenderTaskInputSketch| s@) =~= inputs@.map_values(
        |b: RenderTaskInputBuilder| b@,
    ));
    r
}

/// The sketches of the given output bindings, in the same order.
fn output_sketches(outputs: Vec<RenderTaskOutputBuilder>) -> (r: Vec<RenderTaskOutputSketch>)
    ensures
        r@.map_values(|s: RenderTaskOutputSketch| s@) == outputs@.map_values(
            |b: RenderTaskOutputBuilder| b@,
        ),
{
    let mut r: Vec<RenderTaskOutputSketch> = Vec::new();
    let mut rest = outputs;
    while rest.len() > 0
        invariant
            r@.len() + rest@.len() == outputs@.len(),
            forall|j: int| 0 <= j < r@.len() ==> #[trigger] r@[j]@ == outputs@[j]@,
            forall|j: int| 0 <= j < rest@.len() ==> #[trigger] rest@[j] == outputs@[r@.len() + j],
        decreases rest@.len(),
    {
        let ghost before = rest@;
        let b = rest.remove(0);
        let grid_id = b.grid.get_grid_id();
        r.push(RenderTaskOutputSketch::new(grid_id, b.shader_variable_name));
        proof {
            assert forall|j: int| 0 <= j < rest@.len() implies #[trigger] rest@[j] == outputs@[r@.len() + j] by {
                assert(rest@[j] == before[j + 1]);
            }
        }
    }
    assert(r@.map_values(|s: RenderTaskOutputSketch| s@) =~= outputs@.map_values(
        |b: RenderTaskOutputBuilder| b@,
    ));
    r
}

} // verus!
