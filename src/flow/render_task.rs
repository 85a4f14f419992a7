use crate::flow::grid::FlowGridBuilder;
use crate::flow::schedule::TaskGrids;
use crate::grid::AbstractGridID;
use crate::util::StringRef;
use vstd::prelude::*;

verus! {

/// A grid and the name of the shader variable bound to it.
pub type Binding = (AbstractGridID, Seq<char>);

/// A scheduled render task: its moment, its bindings, and its depth/stencil
/// grid.
pub struct TaskSketchModel {
    pub moment: nat,
    pub inputs: Seq<Binding>,
    pub outputs: Seq<Binding>,
    pub depth_stencil_grid: AbstractGridID,
}

impl TaskSketchModel {
    /// The scheduled task overwrote `g`: as an output or as its depth/stencil
    /// grid.
    pub open spec fn writes(self, g: AbstractGridID) -> bool {
        (exists|i: int| 0 <= i < self.outputs.len() && #[trigger] self.outputs[i].0 == g)
            || self.depth_stencil_grid == g
    }
}

/// A render task as scheduled by a flow builder. It never changes once made.
pub struct RenderTaskSketch {
    moment: u32,
    inputs: Vec<RenderTaskInputSketch>,
    outputs: Vec<RenderTaskOutputSketch>,
    depth_stencil_grid: AbstractGridID,
}

impl View for RenderTaskSketch {
    type V = TaskSketchModel;

    closed spec fn view(&self) -> TaskSketchModel {
        TaskSketchModel {
            moment: self.moment as nat,
            inputs: self.inputs@.map_values(|s: RenderTaskInputSketch| s@),
            outputs: self.outputs@.map_values(|s: RenderTaskOutputSketch| s@),
            depth_stencil_grid: self.depth_stencil_grid,
        }
    }
}

impl RenderTaskSketch {
    pub(crate) fn new(
        moment: u32,
        inputs: Vec<RenderTaskInputSketch>,
        outputs: Vec<RenderTaskOutputSketch>,
        depth_stencil_grid: AbstractGridID,
    ) -> (r: Self)
        ensures
            r@ == (TaskSketchModel {
                moment: moment as nat,
                inputs: inputs@.map_values(|s: RenderTaskInputSketch| s@),
                outputs: outputs@.map_values(|s: RenderTaskOutputSketch| s@),
                depth_stencil_grid,
            }),
    {
        Self { moment, inputs, outputs, depth_stencil_grid }
    }

    /// Gets the moment at which the render task is scheduled.
    pub fn get_moment(&self) -> (r: u32)
        ensures
            r as nat == self@.moment,
    {
        self.moment
    }

    /// Gets the grids the render task reads, with their shader variables.
    pub fn get_inputs(&self) -> (r: &Vec<RenderTaskInputSketch>)
        ensures
            r@.map_values(|s: RenderTaskInputSketch| s@) == self@.inputs,
    {
        &self.inputs
    }

    /// Gets the grids the render task writes, with their shader variables.
    pub fn get_outputs(&self) -> (r: &Vec<RenderTaskOutputSketch>)
        ensures
            r@.map_values(|s: RenderTaskOutputSketch| s@) == self@.outputs,
    {
        &self.outputs
    }

    /// Gets the depth/stencil grid of the render task.
    pub fn get_depth_stencil_grid(&self) -> (r: AbstractGridID)
        ensures
            r == self@.depth_stencil_grid,
    {
        self.depth_stencil_grid
    }
}

/// A grid that a scheduled task reads, with the shader variable bound to it.
pub struct RenderTaskInputSketch {
    grid_id: AbstractGridID,
    shader_variable_name: StringRef,
}

impl View for RenderTaskInputSketch {
    type V = Binding;

    closed spec fn view(&self) -> Binding {
        (self.grid_id, self.shader_variable_name@)
    }
}

impl RenderTaskInputSketch {
    pub(crate) fn new(grid_id: AbstractGridID, shader_variable_name: StringRef) -> (r: Self)
        ensures
            r@ == (grid_id, shader_variable_name@),
    {
        Self { grid_id, shader_variable_name }
    }

    /// Gets the grid that is read.
    pub fn get_grid_id(&self) -> (r: AbstractGridID)
        ensures
            r == self@.0,
    {
        self.grid_id
    }

    /// Gets the name of the shader variable bound to the grid.
    pub fn get_shader_variable_name(&self) -> (r: &StringRef)
        ensures
            r@ == self@.1,
    {
        &self.shader_variable_name
    }
}

/// A grid that a scheduled task writes, with the shader variable bound to it.
pub struct RenderTaskOutputSketch {
    grid_id: AbstractGridID,
    shader_variable_name: StringRef,
}

impl View for RenderTaskOutputSketch {
    type V = Binding;

    closed spec fn view(&self) -> Binding {
        (self.grid_id, self.shader_variable_name@)
    }
}

impl RenderTaskOutputSketch {
    pub(crate) fn new(grid_id: AbstractGridID, shader_variable_name: StringRef) -> (r: Self)
        ensures
            r@ == (grid_id, shader_variable_name@),
    {
        Self { grid_id, shader_variable_name }
    }

    /// Gets the grid that is written.
    pub fn get_grid_id(&self) -> (r: AbstractGridID)
        ensures
            r == self@.0,
    {
        self.grid_id
    }

    /// Gets the name of the shader variable bound to the grid.
    pub fn get_shader_variable_name(&self) -> (r: &StringRef)
        ensures
            r@ == self@.1,
    {
        &self.shader_variable_name
    }
}

/// The declaration of a render task: the grids it reads and writes, each
/// with the shader variable bound to it, and its depth/stencil grid. Hand it
/// to `RenderFlowBuilder::add_render_task` to schedule it.
pub struct RenderTaskBuilder {
    pub inputs: Vec<RenderTaskInputBuilder>,
    pub outputs: Vec<RenderTaskOutputBuilder>,
    pub depth_stencil_grid: FlowGridBuilder,
}

impl RenderTaskBuilder {
    /// The grids the render task touches.
    pub open spec fn grids(self) -> TaskGrids {
        TaskGrids {
            inputs: self.inputs@.map_values(|b: RenderTaskInputBuilder| b.grid@),
            outputs: self.outputs@.map_values(|b: RenderTaskOutputBuilder| b.grid@),
            depth_stencil: self.depth_stencil_grid@,
        }
    }

    /// The sketch of the render task when it is scheduled at moment `m`.
    pub open spec fn sketch(self, m: nat) -> TaskSketchModel {
        TaskSketchModel {
            moment: m,
            inputs: self.inputs@.map_values(|b: RenderTaskInputBuilder| b@),
            outputs: self.outputs@.map_values(|b: RenderTaskOutputBuilder| b@),
            depth_stencil_grid: self.depth_stencil_grid@,
        }
    }
}

/// A grid that a declared task reads, with the shader variable bound to it.
pub struct RenderTaskInputBuilder {
    pub grid: FlowGridBuilder,
    pub shader_variable_name: StringRef,
}

impl View for RenderTaskInputBuilder {
    type V = Binding;

    open spec fn view(&self) -> Binding {
        (self.grid@, self.shader_variable_name@)
    }
}

/// A grid that a declared task writes, with the shader variable bound to it.
pub struct RenderTaskOutputBuilder {
    pub grid: FlowGridBuilder,
    pub shader_variable_name: StringRef,
}

impl View for RenderTaskOutputBuilder {
    type V = Binding;

    open spec fn view(&self) -> Binding {
        (self.grid@, self.shader_variable_name@)
    }
}

} // verus!
