use crate::grid::color::AbstractColorGridBuilder;
use crate::grid::depth_stencil::AbstractDepthStencilGridBuilder;
use crate::grid::id::AbstractGridID;
use vstd::prelude::*;

verus! {

/// What is needed to create an abstract grid group: its color grids and its
/// depth/stencil grids.
pub struct AbstractGridGroupBuilder {
    pub color_grids: Vec<AbstractColorGridBuilder>,
    pub depth_stencil_grids: Vec<AbstractDepthStencilGridBuilder>,
}

/// The ids given to the grids of a new abstract grid group: `colors[i]` is
/// the id of `color_grids[i]` of its builder, and `depth_stencils[i]` that of
/// `depth_stencil_grids[i]`.
pub struct GridGroupIDs {
    pub colors: Vec<AbstractGridID>,
    pub depth_stencils: Vec<AbstractGridID>,
}

} // verus!
