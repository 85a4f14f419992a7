use crate::shader::variable::ExternalShaderVariable;
use vstd::prelude::*;

verus! {

/// How the vertices (or the indices) handed to a pipeline form primitives.
#[derive(Clone, Copy, Debug, PartialEq, Eq, Structural)]
pub enum PrimitiveTopology {
    /// A point at each vertex.
    Points,
    /// A line from the first to the second vertex, from the third to the
    /// fourth, and so on.
    Lines,
    /// A line from each vertex to the next. With `primitive_restart` a strip
    /// can end and a new one begin.
    LineStrips { primitive_restart: bool },
    /// A triangle of the first three vertices, of the next three, and so on.
    Triangles,
    /// A triangle of each vertex and the two after it. With
    /// `primitive_restart` a strip can end and a new one begin.
    TriangleStrips { primitive_restart: bool },
}

/// A shader pair and a topology, made to draw on the grid groups of one
/// abstract grid group. Backends implement this.
pub trait GraphicsPipeline {
    /// Gets the external variables of the shader pair of this pipeline.
    fn get_external_variables(&self) -> &Vec<ExternalShaderVariable>;
}

} // verus!
