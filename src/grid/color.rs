use crate::grid::dump::ColorGridDump;
use crate::grid::region::GridRegion;
use vstd::prelude::*;

verus! {

/// A color grid on the device. Backends implement this.
pub trait ColorGrid {
    /// Copies the colors of `region` of this grid into memory.
    fn debug_dump(&self, region: GridRegion) -> ColorGridDump;
}

/// What happens to a color grid when its render flow starts.
#[derive(Clone, Copy, PartialEq, Eq, Structural, Debug)]
pub enum ColorStartOperation {
    /// The colors from before the flow are kept, to be read during the flow.
    Preserve,
    /// The colors are cleared to a value chosen right before the flow starts.
    Clear,
    /// The colors from before the flow do not matter.
    DontCare,
}

/// What the colors of a color grid are used for after its render flow.
#[derive(Clone, Copy, PartialEq, Eq, Structural, Debug)]
pub enum ColorPurpose {
    /// Nothing: they are not needed after the flow.
    Nothing,
    /// They are shown on the screen.
    Display,
    /// A shader of another render flow reads them.
    ShaderRead,
    /// They are copied to another color grid.
    Transfer,
    /// They are replaced by the colors of another color grid.
    Replace,
}

/// What is needed to create an abstract color grid: what happens to it when
/// a render flow starts and what it is used for after the flow.
#[derive(Clone, Copy, Debug)]
pub struct AbstractColorGridBuilder {
    pub start_operation: ColorStartOperation,
    pub purpose: ColorPurpose,
}

} // verus!
