use crate::data::DataType;
use vstd::prelude::*;

verus! {

/// The role of a vertex shader variable: where its value comes from or goes.
#[derive(Clone, Copy, Debug, PartialEq, Eq, Structural)]
pub enum VertexShaderVariableType {
    /// An input taken from the per-vertex data of the model.
    VertexInput,
    /// An input taken from the per-instance data of the model.
    InstancedInput,
    /// An input supplied from outside, such as a uniform variable.
    External(ExternalShaderVariableType),
    /// An output handed to the fragment shader, mixed between the vertices
    /// of the fragment by their distance to it.
    SmoothFragmentOutput,
    /// An output handed to the fragment shader, taken from the provoking
    /// vertex alone.
    FlatFragmentOutput,
}

/// The role of a fragment shader variable: where its value comes from or
/// goes.
#[derive(Clone, Copy, Debug, PartialEq, Eq, Structural)]
pub enum FragmentShaderVariableType {
    /// An input from a smooth output of the vertex shader.
    SmoothVertexInput,
    /// An input from a flat output of the vertex shader.
    FlatVertexInput,
    /// An input supplied from outside, such as a uniform variable.
    External(ExternalShaderVariableType),
    /// An output written onto a color grid.
    ColorOutput,
    /// An output written onto a depth/stencil grid.
    DepthStencilOutput,
}

/// Where an external shader input comes from.
#[derive(Clone, Copy, Debug, PartialEq, Eq, Structural)]
pub enum ExternalShaderVariableType {
    /// A value set right before drawing, shared by everything drawn at once.
    UniformInput,
    /// A texture in device memory, chosen right before drawing.
    TextureInput,
    /// A color grid of the render flow, chosen when the flow is built.
    ColorGridInput,
    /// A depth/stencil grid of the render flow, chosen when the flow is
    /// built.
    DepthStencilGridInput,
}

/// A variable of a vertex shader: its name, data type and role.
#[derive(Clone, Debug)]
pub struct VertexShaderVariable {
    name: String,
    data_type: DataType,
    variable_type: VertexShaderVariableType,
}

/// The name, the data type and the role of a vertex shader variable.
pub type VertexVariableModel = (Seq<char>, <DataType as View>::V, VertexShaderVariableType);

impl View for VertexShaderVariable {
    type V = VertexVariableModel;

    closed spec fn view(&self) -> VertexVariableModel {
        (self.name@, self.data_type@, self.variable_type)
    }
}

impl VertexShaderVariable {
    /// Creates the variable with the given name, data type and role.
    pub fn new(name: &str, data_type: DataType, variable_type: VertexShaderVariableType) -> (r:
        Self)
        ensures
            r@ == (name@, data_type@, variable_type),
    {
        Self { name: name.to_owned(), data_type, variable_type }
    }

    /// Gets the name of this variable.
    pub fn get_name(&self) -> (r: &str)
        ensures
            r@ == self@.0,
    {
        self.name.as_str()
    }

    /// Gets the data type of this variable.
    pub fn get_data_type(&self) -> (r: DataType)
        ensures
            r@ == self@.1,
    {
        self.data_type
    }

    /// Gets the role of this variable.
    pub fn get_variable_type(&self) -> (r: VertexShaderVariableType)
        ensures
            r == self@.2,
    {
        self.variable_type
    }
}

/// A variable of a fragment shader: its name, data type and role.
#[derive(Clone, Debug)]
pub struct FragmentShaderVariable {
    name: String,
    data_type: DataType,
    variable_type: FragmentShaderVariableType,
}

/// The name, the data type and the role of a fragment shader variable.
pub type FragmentVariableModel = (Seq<char>, <DataType as View>::V, FragmentShaderVariableType);

impl View for FragmentShaderVariable {
    type V = FragmentVariableModel;

    closed spec fn view(&self) -> FragmentVariableModel {
        (self.name@, self.data_type@, self.variable_type)
    }
}

impl FragmentShaderVariable {
    /// Creates the variable with the given name, data type and role.
    pub fn new(name: &str, data_type: DataType, variable_type: FragmentShaderVariableType) -> (r:
        Self)
        ensures
            r@ == (name@, data_type@, variable_type),
    {
        Self { name: name.to_owned(), data_type, variable_type }
    }

    /// Gets the name of this variable.
    pub fn get_name(&self) -> (r: &str)
        ensures
            r@ == self@.0,
    {
        self.name.as_str()
    }

    /// Gets the data type of this variable.
    pub fn get_data_type(&self) -> (r: DataType)
        ensures
            r@ == self@.1,
    {
        self.data_type
    }

    /// Gets the role of this variable.
    pub fn get_variable_type(&self) -> (r: FragmentShaderVariableType)
        ensures
            r == self@.2,
    {
        self.variable_type
    }
}

/// An external input of a vertex or fragment shader: its name, data type and
/// source.
#[derive(Clone, Debug)]
pub struct ExternalShaderVariable {
    name: String,
    data_type: DataType,
    variable_type: ExternalShaderVariableType,
}

/// The name, the data type and the source of an external shader variable.
pub type ExternalVariableModel = (Seq<char>, <DataType as View>::V, ExternalShaderVariableType);

impl View for ExternalShaderVariable {
    type V = ExternalVariableModel;

    closed spec fn view(&self) -> ExternalVariableModel {
        (self.name@, self.data_type@, self.variable_type)
    }
}

impl ExternalShaderVariable {
    /// Creates the variable with the given name, data type and source.
    pub fn new(name: &str, data_type: DataType, variable_type: ExternalShaderVariableType) -> (r:
        Self)
        ensures
            r@ == (name@, data_type@, variable_type),
    {
        Self { name: name.to_owned(), data_type, variable_type }
    }

    /// Gets the name of this variable.
    pub fn get_name(&self) -> (r: &str)
        ensures
            r@ == self@.0,
    {
        self.name.as_str()
    }

    /// Gets the data type of this variable.
    pub fn get_data_type(&self) -> (r: DataType)
        ensures
            r@ == self@.1,
    {
        self.data_type
    }

    /// Gets the source of this variable.
    pub fn get_variable_type(&self) -> (r: ExternalShaderVariableType)
        ensures
            r == self@.2,
    {
        self.variable_type
    }
}

} // verus!
