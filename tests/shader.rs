use std::sync::Arc;

use griphin::data::{DataKind, DataShape, DataType};
use griphin::shader::pair::{link_variables_by_name, ShaderLinkErrorType, ShaderNameLinkError, ShaderPair};
use griphin::shader::variable::{
    ExternalShaderVariableType, FragmentShaderVariable, FragmentShaderVariableType,
    VertexShaderVariable, VertexShaderVariableType,
};
use griphin::shader::{
    FragmentShader, FragmentVariablesModel, ShaderNameModel, VertexShader, VertexVariablesModel,
};

#[derive(Debug)]
struct TestVertexShader {
    name: String,
    variables: Vec<VertexShaderVariable>,
}

// The spec functions only serve the verifier; nothing calls them at run time.
impl VertexShader for TestVertexShader {
    fn debug_name(&self) -> ShaderNameModel {
        unreachable!()
    }

    fn variables(&self) -> VertexVariablesModel {
        unreachable!()
    }

    fn get_debug_name(&self) -> &str {
        &self.name
    }

    fn get_variables(&self) -> &Vec<VertexShaderVariable> {
        &self.variables
    }
}

#[derive(Debug)]
struct TestFragmentShader {
    name: String,
    variables: Vec<FragmentShaderVariable>,
}

impl FragmentShader for TestFragmentShader {
    fn debug_name(&self) -> ShaderNameModel {
        unreachable!()
    }

    fn variables(&self) -> FragmentVariablesModel {
        unreachable!()
    }

    fn get_debug_name(&self) -> &str {
        &self.name
    }

    fn get_variables(&self) -> &Vec<FragmentShaderVariable> {
        &self.variables
    }
}

fn float() -> DataType {
    DataType::new(DataKind::float(), DataShape::single())
}

fn vec3() -> DataType {
    DataType::new(DataKind::float(), DataShape::vec3())
}

fn vertex(variables: Vec<VertexShaderVariable>) -> Arc<TestVertexShader> {
    Arc::new(TestVertexShader { name: String::from("vs"), variables })
}

fn fragment(variables: Vec<FragmentShaderVariable>) -> Arc<TestFragmentShader> {
    Arc::new(TestFragmentShader { name: String::from("fs"), variables })
}

fn v(name: &str, t: DataType, role: VertexShaderVariableType) -> VertexShaderVariable {
    VertexShaderVariable::new(name, t, role)
}

fn f(name: &str, t: DataType, role: FragmentShaderVariableType) -> FragmentShaderVariable {
    FragmentShaderVariable::new(name, t, role)
}

#[test]
fn matching_shaders_link_and_merge_external_variables() {
    let vs = vertex(vec![
        v("position", vec3(), VertexShaderVariableType::VertexInput),
        v("light", vec3(), VertexShaderVariableType::SmoothFragmentOutput),
        v("id", float(), VertexShaderVariableType::FlatFragmentOutput),
        v("time", float(), VertexShaderVariableType::External(ExternalShaderVariableType::UniformInput)),
    ]);
    let fs = fragment(vec![
        f("id", float(), FragmentShaderVariableType::FlatVertexInput),
        f("light", vec3(), FragmentShaderVariableType::SmoothVertexInput),
        f("time", float(), FragmentShaderVariableType::External(ExternalShaderVariableType::UniformInput)),
        f("tex", vec3(), FragmentShaderVariableType::External(ExternalShaderVariableType::TextureInput)),
        f("color", vec3(), FragmentShaderVariableType::ColorOutput),
    ]);
    let pair = ShaderPair::link_by_attribute_names(&vs, &fs).unwrap();
    let externals = pair.get_external_variables();
    assert_eq!(externals.len(), 2);
    assert_eq!(externals[0].get_name(), "time");
    assert_eq!(externals[0].get_variable_type(), ExternalShaderVariableType::UniformInput);
    assert_eq!(externals[1].get_name(), "tex");
    assert_eq!(externals[1].get_data_type(), vec3());
    assert_eq!(pair.get_vertex_shader().get_debug_name(), "vs");
    assert_eq!(pair.get_fragment_shader().get_debug_name(), "fs");
}

#[test]
fn type_mismatch_is_reported_first() {
    let vs = vertex(vec![
        v("extra", float(), VertexShaderVariableType::SmoothFragmentOutput),
        v("light", vec3(), VertexShaderVariableType::SmoothFragmentOutput),
    ]);
    let fs = fragment(vec![f("light", float(), FragmentShaderVariableType::SmoothVertexInput)]);
    let err = ShaderPair::link_by_attribute_names(&vs, &fs).err().unwrap();
    assert_eq!(err.get_vertex_name(), "vs");
    assert_eq!(err.get_fragment_name(), "fs");
    match err.get_error() {
        ShaderLinkErrorType::Specific(ShaderNameLinkError::TypeMismatch {
            vertex_output,
            fragment_input,
        }) => {
            assert_eq!(vertex_output.get_name(), "light");
            assert_eq!(vertex_output.get_data_type(), vec3());
            assert_eq!(fragment_input.get_data_type(), float());
        }
        other => panic!("unexpected error {:?}", other),
    }
}

#[test]
fn flat_and_smooth_do_not_match_each_other() {
    let vs = vertex(vec![v("light", vec3(), VertexShaderVariableType::FlatFragmentOutput)]);
    let fs = fragment(vec![f("light", vec3(), FragmentShaderVariableType::SmoothVertexInput)]);
    let err = ShaderPair::link_by_attribute_names(&vs, &fs).err().unwrap();
    match err.get_error() {
        ShaderLinkErrorType::Specific(ShaderNameLinkError::MissingFragmentInput {
            vertex_output_name,
        }) => assert_eq!(vertex_output_name, "light"),
        other => panic!("unexpected error {:?}", other),
    }
}

#[test]
fn missing_vertex_output_is_reported() {
    let vs = vertex(vec![v("a", vec3(), VertexShaderVariableType::SmoothFragmentOutput)]);
    let fs = fragment(vec![
        f("a", vec3(), FragmentShaderVariableType::SmoothVertexInput),
        f("b", vec3(), FragmentShaderVariableType::SmoothVertexInput),
    ]);
    let err = ShaderPair::link_by_attribute_names(&vs, &fs).err().unwrap();
    match err.get_error() {
        ShaderLinkErrorType::Specific(ShaderNameLinkError::MissingVertexOutput {
            fragment_input_name,
        }) => assert_eq!(fragment_input_name, "b"),
        other => panic!("unexpected error {:?}", other),
    }
}

#[test]
fn external_variable_mismatch_is_a_general_error() {
    let uniform = ExternalShaderVariableType::UniformInput;
    let vs = vertex(vec![v("time", float(), VertexShaderVariableType::External(uniform))]);
    let fs = fragment(vec![f("time", vec3(), FragmentShaderVariableType::External(uniform))]);
    let err = ShaderPair::link_by_attribute_names(&vs, &fs).err().unwrap();
    match err.get_error() {
        ShaderLinkErrorType::General(mismatch) => {
            assert_eq!(mismatch.get_name(), "time");
            assert_eq!(mismatch.get_vertex_type(), float());
            assert_eq!(mismatch.get_fragment_type(), vec3());
        }
        other => panic!("unexpected error {:?}", other),
    }
}

#[test]
fn linking_variables_directly_gives_the_merged_externals() {
    let uniform = ExternalShaderVariableType::UniformInput;
    let texture = ExternalShaderVariableType::TextureInput;
    let vertex_variables = vec![
        v("a", vec3(), VertexShaderVariableType::External(uniform)),
        v("out", float(), VertexShaderVariableType::FlatFragmentOutput),
    ];
    let fragment_variables = vec![
        f("b", float(), FragmentShaderVariableType::External(texture)),
        f("a", vec3(), FragmentShaderVariableType::External(texture)),
        f("b", float(), FragmentShaderVariableType::External(uniform)),
        f("out", float(), FragmentShaderVariableType::FlatVertexInput),
    ];
    let externals = link_variables_by_name(&vertex_variables, &fragment_variables).unwrap();
    let names: Vec<&str> = externals.iter().map(|e| e.get_name()).collect();
    assert_eq!(names, vec!["a", "b"]);
    assert_eq!(externals[0].get_variable_type(), uniform);
    assert_eq!(externals[1].get_variable_type(), texture);
}

#[test]
fn a_later_fragment_external_conflicts_with_an_earlier_one() {
    let uniform = ExternalShaderVariableType::UniformInput;
    let fragment_variables = vec![
        f("b", float(), FragmentShaderVariableType::External(uniform)),
        f("b", vec3(), FragmentShaderVariableType::External(uniform)),
    ];
    match link_variables_by_name(&vec![], &fragment_variables) {
        Err(ShaderLinkErrorType::General(m)) => {
            assert_eq!(m.get_name(), "b");
            assert_eq!(m.get_vertex_type(), float());
            assert_eq!(m.get_fragment_type(), vec3());
        }
        other => panic!("unexpected result {:?}", other.map(|e| e.len())),
    }
}
