use vstd::prelude::*;

verus! {

/// What happens to a depth/stencil grid when its render flow starts.
#[derive(Clone, Copy, PartialEq, Eq, Structural, Debug)]
pub enum DepthStencilStartOperation {
    /// The values from before the flow are kept until a task of the flow
    /// overwrites them.
    Preserve,
    /// The values are cleared to a value chosen right before the flow starts.
    Clear,
    /// The values from before the flow do not matter.
    DontCare,
}

/// What the values of a depth/stencil grid are used for after its render
/// flow.
#[derive(Clone, Copy, PartialEq, Eq, Structural, Debug)]
pub enum DepthStencilPurpose {
    /// Nothing: they are not needed after the flow.
    Nothing,
    /// A shader of another render flow reads them.
    ShaderRead,
    /// They are copied to another depth/stencil grid.
    Transfer,
    /// They are replaced by the values of another depth/stencil grid.
    Replace,
}

/// What is needed to create an abstract depth/stencil grid: what happens to
/// it when a render flow starts and what it is used for after the flow.
#[derive(Clone, Copy, Debug)]
pub struct AbstractDepthStencilGridBuilder {
    pub start_operation: DepthStencilStartOperation,
    pub purpose: DepthStencilPurpose,
}

} // verus!
