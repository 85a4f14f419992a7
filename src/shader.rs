pub mod pair;
pub mod variable;

use crate::shader::variable::{
    FragmentShaderVariable, FragmentVariableModel, VertexShaderVariable, VertexVariableModel,
};
use vstd::prelude::*;

verus! {

/// The characters of a shader's debug name, as its spec functions give them.
pub type ShaderNameModel = Seq<char>;

/// The variables of a vertex shader, as its spec functions give them.
pub type VertexVariablesModel = Seq<VertexVariableModel>;

/// The variables of a fragment shader, as its spec functions give them.
pub type FragmentVariablesModel = Seq<FragmentVariableModel>;

/// A vertex shader. On its own it draws nothing; linked to a fragment shader
/// it makes a `ShaderPair`. Backends implement this.
pub trait VertexShader {
    /// The name given to the shader for debugging.
    spec fn debug_name(&self) -> ShaderNameModel;

    /// The variables of the shader, in the order they were declared.
    spec fn variables(&self) -> VertexVariablesModel;

    /// Gets the name given to the shader for debugging.
    fn get_debug_name(&self) -> (r: &str)
        ensures
            r@ == self.debug_name(),
    ;

    /// Gets the variables of the shader: its inputs, outputs and external
    /// inputs.
    fn get_variables(&self) -> (r: &Vec<VertexShaderVariable>)
        ensures
            r@.map_values(|v: VertexShaderVariable| v@) == self.variables(),
    ;
}

/// A fragment shader. Linked to a vertex shader it makes a `ShaderPair`.
/// Backends implement this.
pub trait FragmentShader {
    /// The name given to the shader for debugging.
    spec fn debug_name(&self) -> ShaderNameModel;

    /// The variables of the shader, in the order they were declared.
    spec fn variables(&self) -> FragmentVariablesModel;

    /// Gets the name given to the shader for debugging.
    fn get_debug_name(&self) -> (r: &str)
        ensures
            r@ == self.debug_name(),
    ;

    /// Gets the variables of the shader: its inputs, outputs and external
    /// inputs.
    fn get_variables(&self) -> (r: &Vec<FragmentShaderVariable>)
        ensures
            r@.map_values(|v: FragmentShaderVariable| v@) == self.variables(),
    ;
}

/// Shader functions that several shaders can share. Backends implement this.
pub trait ShaderLibrary {
    /// Makes every shader created from now on use this library.
    fn make_global(&self);
}

} // verus!
