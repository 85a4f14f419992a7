use crate::pipeline::PrimitiveTopology;
use vstd::prelude::*;

verus! {

/// What the vertices in a vertex buffer are going to be used for.
#[derive(PartialEq, Eq, Structural, Clone, Copy, Debug)]
pub enum VertexBufferUsage {
    /// Drawn as they are, with the given topology.
    NoIndices { topology: PrimitiveTopology },
    /// Drawn through indices, with the given topology.
    Indices { topology: PrimitiveTopology },
    /// Anything.
    WildCard,
}

/// Vertices in device memory. Backends implement this.
pub trait VertexBuffer {
    /// Gets what the vertices are going to be used for.
    fn get_usage(&self) -> VertexBufferUsage;

    /// Gets the number of vertices.
    fn get_num_vertices(&self) -> usize;

    /// Whether the vertices have reached device memory.
    fn is_ready(&self) -> bool;

    /// Waits until the vertices have reached device memory.
    fn await_ready(&self);
}

} // verus!
