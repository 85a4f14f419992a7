use crate::flow::schedule::GridModel;
use crate::grid::AbstractGridID;
use vstd::prelude::*;

verus! {

/// What a finished flow records of one of its grids: whether its content at
/// the start of the flow must be kept, and whether its content at the end of
/// the flow must be kept for use outside the flow.
#[derive(Debug, Clone, Copy)]
pub struct FlowGridSketch {
    preserve_initial_content: bool,
    preserve_final_content: bool,
}

impl FlowGridSketch {
    pub closed spec fn spec_preserve_initial_content(self) -> bool {
        self.preserve_initial_content
    }

    pub closed spec fn spec_preserve_final_content(self) -> bool {
        self.preserve_final_content
    }

    /// A sketch whose final content is not (yet) preserved.
    pub(crate) fn new(preserve_initial_content: bool) -> (r: Self)
        ensures
            r.spec_preserve_initial_content() == preserve_initial_content,
            !r.spec_preserve_final_content(),
    {
        Self { preserve_initial_content, preserve_final_content: false }
    }

    /// This sketch with its final content preserved.
    pub(crate) fn with_final_content_preserved(self) -> (r: Self)
        ensures
            r.spec_preserve_initial_content() == self.spec_preserve_initial_content(),
            r.spec_preserve_final_content(),
    {
        Self { preserve_initial_content: self.preserve_initial_content, preserve_final_content: true }
    }

    /// Whether the content of the grid at the start of the flow must be kept.
    pub fn preserve_initial_content(&self) -> (r: bool)
        ensures
            r == self.spec_preserve_initial_content(),
    {
        self.preserve_initial_content
    }

    /// Whether the content of the grid at the end of the flow must be kept.
    pub fn preserve_final_content(&self) -> (r: bool)
        ensures
            r == self.spec_preserve_final_content(),
    {
        self.preserve_final_content
    }
}

/// The handle of a grid node of a flow builder, as handed out when the grid
/// is registered. Render tasks name the grids they touch by these handles.
#[derive(Debug, Clone, Copy)]
pub struct FlowGridBuilder {
    grid_id: AbstractGridID,
}

impl View for FlowGridBuilder {
    type V = AbstractGridID;

    closed spec fn view(&self) -> AbstractGridID {
        self.grid_id
    }
}

impl FlowGridBuilder {
    pub(crate) fn new(grid_id: AbstractGridID) -> (r: Self)
        ensures
            r@ == grid_id,
    {
        FlowGridBuilder { grid_id }
    }

    /// Gets the id of the grid this handle refers to.
    pub fn get_grid_id(&self) -> (r: AbstractGridID)
        ensures
            r == self@,
    {
        self.grid_id
    }
}

/// One row of a flow builder's grid table: a registered grid with its
/// hazard state and its retention flags.
#[derive(Clone, Copy)]
pub(crate) struct GridNode {
    pub(crate) grid_id: AbstractGridID,
    pub(crate) last_read_moment: u32,
    pub(crate) last_write_moment: u32,
    pub(crate) sketch: FlowGridSketch,
}

impl GridNode {
    pub(crate) open spec fn model(self) -> GridModel {
        GridModel {
            last_read_moment: self.last_read_moment as nat,
            last_write_moment: self.last_write_moment as nat,
            preserve_initial_content: self.sketch.spec_preserve_initial_content(),
            preserve_final_content: self.sketch.spec_preserve_final_content(),
        }
    }
}

} // verus!
