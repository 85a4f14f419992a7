use crate::data::DataType;
use crate::shader::variable::{
    ExternalShaderVariable, ExternalVariableModel,
    FragmentShaderVariable, FragmentShaderVariableType, FragmentVariableModel,
    VertexShaderVariable, VertexShaderVariableType, VertexVariableModel,
};
use crate::shader::{FragmentShader, VertexShader};
use crate::util::str_eq;
use std::sync::Arc;
use vstd::prelude::*;

verus! {

/// The view of a data type.
pub type DataTypeModel = <DataType as View>::V;

/// Two external variables with one name and two data types: the name, the
/// data type in the vertex shader and the one in the fragment shader.
pub type ExternalMismatchModel = (Seq<char>, DataTypeModel, DataTypeModel);

/// Why two shaders could not be linked by the names of their variables.
pub enum NameLinkErrorModel {
    TypeMismatch(VertexVariableModel, FragmentVariableModel),
    MissingFragmentInput(Seq<char>),
    MissingVertexOutput(Seq<char>),
}

/// The first variable of `fs` of role `ft` that has the name of `v` and
/// another data type.
pub open spec fn first_type_mismatch_with(
    v: VertexVariableModel,
    fs: Seq<FragmentVariableModel>,
    ft: FragmentShaderVariableType,
) -> Option<FragmentVariableModel>
    decreases fs.len(),
{
    if fs.len() == 0 {
        None
    } else if fs[0].2 == ft && fs[0].0 == v.0 && fs[0].1 != v.1 {
        Some(fs[0])
    } else {
        first_type_mismatch_with(v, fs.skip(1), ft)
    }
}

/// The first variable of `vs` of role `vt` that has a type mismatch with a
/// variable of `fs` of role `ft`, and the first such variable of `fs`.
pub open spec fn first_type_mismatch(
    vs: Seq<VertexVariableModel>,
    fs: Seq<FragmentVariableModel>,
    vt: VertexShaderVariableType,
    ft: FragmentShaderVariableType,
) -> Option<(VertexVariableModel, FragmentVariableModel)>
    decreases vs.len(),
{
    if vs.len() == 0 {
        None
    } else if vs[0].2 == vt && first_type_mismatch_with(vs[0], fs, ft) is Some {
        Some((vs[0], first_type_mismatch_with(vs[0], fs, ft)->Some_0))
    } else {
        first_type_mismatch(vs.skip(1), fs, vt, ft)
    }
}

/// The names of the variables of `vs` of role `vt`, in order.
pub open spec fn vertex_names(vs: Seq<VertexVariableModel>, vt: VertexShaderVariableType) -> Seq<
    Seq<char>,
>
    decreases vs.len(),
{
    if vs.len() == 0 {
        Seq::empty()
    } else if vs.last().2 == vt {
        vertex_names(vs.drop_last(), vt).push(vs.last().0)
    } else {
        vertex_names(vs.drop_last(), vt)
    }
}

/// The names of the variables of `fs` of role `ft`, in order.
pub open spec fn fragment_names(
    fs: Seq<FragmentVariableModel>,
    ft: FragmentShaderVariableType,
) -> Seq<Seq<char>>
    decreases fs.len(),
{
    if fs.len() == 0 {
        Seq::empty()
    } else if fs.last().2 == ft {
        fragment_names(fs.drop_last(), ft).push(fs.last().0)
    } else {
        fragment_names(fs.drop_last(), ft)
    }
}

/// The first name of `required` that is not in `available`.
pub open spec fn first_missing(required: Seq<Seq<char>>, available: Seq<Seq<char>>) -> Option<
    Seq<char>,
>
    decreases required.len(),
{
    if required.len() == 0 {
        None
    } else if available.contains(required[0]) {
        first_missing(required.skip(1), available)
    } else {
        Some(required[0])
    }
}

/// Why linking shaders with the variables `vs` and `fs` by name fails, if it
/// does: a flat, then a smooth output whose matching input has another data
/// type; else a flat, then a smooth output with no matching input; else a
/// flat, then a smooth input with no matching output.
pub open spec fn name_link_error(
    vs: Seq<VertexVariableModel>,
    fs: Seq<FragmentVariableModel>,
) -> Option<NameLinkErrorModel> {
    let flat_mismatch = first_type_mismatch(
        vs,
        fs,
        VertexShaderVariableType::FlatFragmentOutput,
        FragmentShaderVariableType::FlatVertexInput,
    );
    let smooth_mismatch = first_type_mismatch(
        vs,
        fs,
        VertexShaderVariableType::SmoothFragmentOutput,
        FragmentShaderVariableType::SmoothVertexInput,
    );
    let flat_outputs = vertex_names(vs, VertexShaderVariableType::FlatFragmentOutput);
    let smooth_outputs = vertex_names(vs, VertexShaderVariableType::SmoothFragmentOutput);
    let flat_inputs = fragment_names(fs, FragmentShaderVariableType::FlatVertexInput);
    let smooth_inputs = fragment_names(fs, FragmentShaderVariableType::SmoothVertexInput);
    if flat_mismatch is Some {
        Some(NameLinkErrorModel::TypeMismatch(flat_mismatch->Some_0.0, flat_mismatch->Some_0.1))
    } else if smooth_mismatch is Some {
        Some(
            NameLinkErrorModel::TypeMismatch(smooth_mismatch->Some_0.0, smooth_mismatch->Some_0.1),
        )
    } else if first_missing(flat_outputs, flat_inputs) is Some {
        Some(NameLinkErrorModel::MissingFragmentInput(first_missing(flat_outputs, flat_inputs)->Some_0))
    } else if first_missing(smooth_outputs, smooth_inputs) is Some {
        Some(
            NameLinkErrorModel::MissingFragmentInput(
                first_missing(smooth_outputs, smooth_inputs)->Some_0,
            ),
        )
    } else if first_missing(flat_inputs, flat_outputs) is Some {
        Some(NameLinkErrorModel::MissingVertexOutput(first_missing(flat_inputs, flat_outputs)->Some_0))
    } else if first_missing(smooth_inputs, smooth_outputs) is Some {
        Some(
            NameLinkErrorModel::MissingVertexOutput(
                first_missing(smooth_inputs, smooth_outputs)->Some_0,
            ),
        )
    } else {
        None
    }
}

/// The external variables of `vs`, in order.
pub open spec fn vertex_externals(vs: Seq<VertexVariableModel>) -> Seq<ExternalVariableModel>
    decreases vs.len(),
{
    if vs.len() == 0 {
        Seq::empty()
    } else {
        let rest = vertex_externals(vs.drop_last());
        match vs.last().2 {
            VertexShaderVariableType::External(ext) => rest.push((vs.last().0, vs.last().1, ext)),
            _ => rest,
        }
    }
}

/// The first variable of `es` named `name`.
pub open spec fn find_external(es: Seq<ExternalVariableModel>, name: Seq<char>) -> Option<
    ExternalVariableModel,
>
    decreases es.len(),
{
    if es.len() == 0 {
        None
    } else if es[0].0 == name {
        Some(es[0])
    } else {
        find_external(es.skip(1), name)
    }
}

/// The external variables `es` joined, in order, by the external variables
/// of `fs` whose names are not taken yet; or the first external variable of
/// `fs` whose name is taken by a variable of another data type.
pub open spec fn merge_externals(
    es: Seq<ExternalVariableModel>,
    fs: Seq<FragmentVariableModel>,
) -> Result<Seq<ExternalVariableModel>, ExternalMismatchModel>
    decreases fs.len(),
{
    if fs.len() == 0 {
        Ok(es)
    } else {
        let f = fs[0];
        match f.2 {
            FragmentShaderVariableType::External(ext) => match find_external(es, f.0) {
                Some(e) => if e.1 != f.1 {
                    Err((f.0, e.1, f.1))
                } else {
                    merge_externals(es, fs.skip(1))
                },
                None => merge_externals(es.push((f.0, f.1, ext)), fs.skip(1)),
            },
            _ => merge_externals(es, fs.skip(1)),
        }
    }
}

pub open spec fn vertex_models(vs: Seq<VertexShaderVariable>) -> Seq<VertexVariableModel> {
    vs.map_values(|v: VertexShaderVariable| v@)
}

pub open spec fn fragment_models(fs: Seq<FragmentShaderVariable>) -> Seq<FragmentVariableModel> {
    fs.map_values(|v: FragmentShaderVariable| v@)
}

pub open spec fn external_models(es: Seq<ExternalShaderVariable>) -> Seq<ExternalVariableModel> {
    es.map_values(|v: ExternalShaderVariable| v@)
}

pub open spec fn string_models(names: Seq<String>) -> Seq<Seq<char>> {
    names.map_values(|n: String| n@)
}

fn copy_vertex_variable(v: &VertexShaderVariable) -> (r: VertexShaderVariable)
    ensures
        r@ == v@,
{
    VertexShaderVariable::new(v.get_name(), v.get_data_type(), v.get_variable_type())
}

fn copy_fragment_variable(v: &FragmentShaderVariable) -> (r: FragmentShaderVariable)
    ensures
        r@ == v@,
{
    FragmentShaderVariable::new(v.get_name(), v.get_data_type(), v.get_variable_type())
}

/// Finds the first variable of `variables1` of role `role1` and the first
/// variable of `variables2` of role `role2` with the same name and another
/// data type.
fn match_shader_variables_types(
    variables1: &Vec<VertexShaderVariable>,
    variables2: &Vec<FragmentShaderVariable>,
    role1: VertexShaderVariableType,
    role2: FragmentShaderVariableType,
) -> (r: Result<(), (VertexShaderVariable, FragmentShaderVariable)>)
    ensures
        match r {
            Ok(()) => first_type_mismatch(
                vertex_models(variables1@),
                fragment_models(variables2@),
                role1,
                role2,
            ) is None,
            Err((v, f)) => first_type_mismatch(
                vertex_models(variables1@),
                fragment_models(variables2@),
                role1,
                role2,
            ) == Some((v@, f@)),
        },
{
    let ghost vs = vertex_models(variables1@);
    let ghost fs = fragment_models(variables2@);
    assert(vs.skip(0) =~= vs);
    let mut i: usize = 0;
    while i < variables1.len()
        invariant
            i <= vs.len(),
            vs == vertex_models(variables1@),
            fs == fragment_models(variables2@),
            first_type_mismatch(vs, fs, role1, role2) == first_type_mismatch(
                vs.skip(i as int),
                fs,
                role1,
                role2,
            ),
        decreases vs.len() - i,
    {
        let var1 = &variables1[i];
        proof {
            assert(vs.skip(i as int)[0] == var1@);
            assert(vs.skip(i as int).skip(1) =~= vs.skip(i + 1));
        }
        if var1.get_variable_type() == role1 {
            assert(fs.skip(0) =~= fs);
            let mut j: usize = 0;
            while j < variables2.len()
                invariant
                    j <= fs.len(),
                    i < vs.len(),
                    var1@ == vs[i as int],
                    var1@.2 == role1,
                    vs == vertex_models(variables1@),
                    vs.skip(i as int)[0] == var1@,
                    vs.skip(i as int).len() > 0,
                    first_type_mismatch(vs, fs, role1, role2) == first_type_mismatch(
                        vs.skip(i as int),
                        fs,
                        role1,
                        role2,
                    ),
                    fs == fragment_models(variables2@),
                    first_type_mismatch_with(var1@, fs, role2) == first_type_mismatch_with(
                        var1@,
                        fs.skip(j as int),
                        role2,
                    ),
                decreases fs.len() - j,
            {
                let var2 = &variables2[j];
                proof {
                    assert(fs.skip(j as int)[0] == var2@);
                    assert(fs.skip(j as int).skip(1) =~= fs.skip(j + 1));
                }
                if var2.get_variable_type() == role2 && str_eq(var1.get_name(), var2.get_name())
                    && var1.get_data_type() != var2.get_data_type() {
                    let v = copy_vertex_variable(var1);
                    let f = copy_fragment_variable(var2);
                    proof {
                        assert(first_type_mismatch_with(var1@, fs.skip(j as int), role2) == Some(
                            var2@,
                        ));
                        assert(first_type_mismatch(vs.skip(i as int), fs, role1, role2) == Some(
                            (var1@, var2@),
                        ));
                    }
                    return Err((v, f));
                }
                j += 1;
            }
            proof {
                assert(fs.skip(j as int).len() == 0);
            }
        }
        i += 1;
    }
    proof {
        assert(vs.skip(i as int).len() == 0);
    }
    Ok(())
}

/// The names of the variables of `variables` of role `role`, in order.
fn vertex_names_of(variables: &Vec<VertexShaderVariable>, role: VertexShaderVariableType) -> (r:
    Vec<String>)
    ensures
        string_models(r@) == vertex_names(vertex_models(variables@), role),
{
    let ghost vs = vertex_models(variables@);
    let mut r: Vec<String> = Vec::new();
    let mut i: usize = 0;
    while i < variables.len()
        invariant
            i <= vs.len(),
            vs == vertex_models(variables@),
            string_models(r@) == vertex_names(vs.take(i as int), role),
        decreases vs.len() - i,
    {
        let ghost before = r@;
        proof {
            assert(vs.take(i + 1).drop_last() =~= vs.take(i as int));
            assert(vs.take(i + 1).last() == vs[i as int]);
        }
        if variables[i].get_variable_type() == role {
            r.push(variables[i].get_name().to_owned());
            proof {
                assert(string_models(r@) =~= string_models(before).push(vs[i as int].0));
            }
        }
        i += 1;
    }
    proof {
        assert(vs.take(i as int) =~= vs);
    }
    r
}

/// The names of the variables of `variables` of role `role`, in order.
fn fragment_names_of(
    variables: &Vec<FragmentShaderVariable>,
    role: FragmentShaderVariableType,
) -> (r: Vec<String>)
    ensures
        string_models(r@) == fragment_names(fragment_models(variables@), role),
{
    let ghost fs = fragment_models(variables@);
    let mut r: Vec<String> = Vec::new();
    let mut i: usize = 0;
    while i < variables.len()
        invariant
            i <= fs.len(),
            fs == fragment_models(variables@),
            string_models(r@) == fragment_names(fs.take(i as int), role),
        decreases fs.len() - i,
    {
        let ghost before = r@;
        proof {
            assert(fs.take(i + 1).drop_last() =~= fs.take(i as int));
            assert(fs.take(i + 1).last() == fs[i as int]);
        }
        if variables[i].get_variable_type() == role {
            r.push(variables[i].get_name().to_owned());
            proof {
                assert(string_models(r@) =~= string_models(before).push(fs[i as int].0));
            }
        }
        i += 1;
    }
    proof {
        assert(fs.take(i as int) =~= fs);
    }
    r
}

/// Finds the first name of `required_names` that is not in
/// `available_names`.
fn match_shader_variable_names(required_names: &Vec<String>, available_names: &Vec<String>) -> (r:
    Result<(), String>)
    ensures
        match r {
            Ok(()) => first_missing(string_models(required_names@), string_models(available_names@))
                is None,
            Err(name) => first_missing(
                string_models(required_names@),
                string_models(available_names@),
            ) == Some(name@),
        },
{
    let ghost req = string_models(required_names@);
    let ghost av = string_models(available_names@);
    assert(req.skip(0) =~= req);
    let mut i: usize = 0;
    while i < required_names.len()
        invariant
            i <= req.len(),
            req == string_models(required_names@),
            av == string_models(available_names@),
            first_missing(req, av) == first_missing(req.skip(i as int), av),
        decreases req.len() - i,
    {
        let required = &required_names[i];
        proof {
            assert(req.skip(i as int)[0] == required@);
            assert(req.skip(i as int).skip(1) =~= req.skip(i + 1));
        }
        let mut found = false;
        let mut j: usize = 0;
        while j < available_names.len() && !found
            invariant
                j <= av.len(),
                av == string_models(available_names@),
                !found ==> forall|k: int| 0 <= k < j ==> av[k] != required@,
                found ==> av.contains(required@),
            decreases av.len() - j,
        {
            if available_names[j] == *required {
                assert(av[j as int] == required@);
                found = true;
            }
            j += 1;
        }
        if !found {
            return Err(required.clone());
        }
        i += 1;
    }
    proof {
        assert(req.skip(i as int).len() == 0);
    }
    Ok(())
}

/// Two shaders have an external variable of one name and two data types.
#[derive(Debug)]
pub struct ShaderExternalVariableMismatch {
    name: String,
    vertex_type: DataType,
    fragment_type: DataType,
}

impl View for ShaderExternalVariableMismatch {
    type V = ExternalMismatchModel;

    closed spec fn view(&self) -> ExternalMismatchModel {
        (self.name@, self.vertex_type@, self.fragment_type@)
    }
}

impl ShaderExternalVariableMismatch {
    fn new(name: &str, vertex_type: DataType, fragment_type: DataType) -> (r: Self)
        ensures
            r@ == (name@, vertex_type@, fragment_type@),
    {
        Self { name: name.to_owned(), vertex_type, fragment_type }
    }

    /// Gets the name of the two variables.
    pub fn get_name(&self) -> (r: &str)
        ensures
            r@ == self@.0,
    {
        self.name.as_str()
    }

    /// Gets the data type of the variable of the vertex shader.
    pub fn get_vertex_type(&self) -> (r: DataType)
        ensures
            r@ == self@.1,
    {
        self.vertex_type
    }

    /// Gets the data type of the variable of the fragment shader.
    pub fn get_fragment_type(&self) -> (r: DataType)
        ensures
            r@ == self@.2,
    {
        self.fragment_type
    }
}

/// Why two shaders could not be linked: their external variables disagree,
/// or the way of linking them found an error of its own.
#[derive(Debug)]
pub enum ShaderLinkErrorType<E> {
    General(ShaderExternalVariableMismatch),
    Specific(E),
}

/// A vertex shader could not be linked to a fragment shader. Holds the debug
/// names of both and the reason.
#[derive(Debug)]
pub struct ShaderLinkError<E> {
    vertex_name: String,
    fragment_name: String,
    error: ShaderLinkErrorType<E>,
}

impl<E> ShaderLinkError<E> {
    pub closed spec fn vertex_name(self) -> Seq<char> {
        self.vertex_name@
    }

    pub closed spec fn fragment_name(self) -> Seq<char> {
        self.fragment_name@
    }

    pub closed spec fn error(self) -> ShaderLinkErrorType<E> {
        self.error
    }

    fn specific<V: VertexShader, F: FragmentShader>(
        vertex_shader: &V,
        fragment_shader: &F,
        error: E,
    ) -> (r: Self)
        ensures
            r.vertex_name() == vertex_shader.debug_name(),
            r.fragment_name() == fragment_shader.debug_name(),
            r.error() == ShaderLinkErrorType::<E>::Specific(error),
    {
        Self {
            vertex_name: vertex_shader.get_debug_name().to_owned(),
            fragment_name: fragment_shader.get_debug_name().to_owned(),
            error: ShaderLinkErrorType::Specific(error),
        }
    }

    fn general<V: VertexShader, F: FragmentShader>(
        vertex_shader: &V,
        fragment_shader: &F,
        error: ShaderExternalVariableMismatch,
    ) -> (r: Self)
        ensures
            r.vertex_name() == vertex_shader.debug_name(),
            r.fragment_name() == fragment_shader.debug_name(),
            r.error() == ShaderLinkErrorType::<E>::General(error),
    {
        Self {
            vertex_name: vertex_shader.get_debug_name().to_owned(),
            fragment_name: fragment_shader.get_debug_name().to_owned(),
            error: ShaderLinkErrorType::General(error),
        }
    }

    /// Gets the debug name of the vertex shader.
    pub fn get_vertex_name(&self) -> (r: &str)
        ensures
            r@ == self.vertex_name(),
    {
        self.vertex_name.as_str()
    }

    /// Gets the debug name of the fragment shader.
    pub fn get_fragment_name(&self) -> (r: &str)
        ensures
            r@ == self.fragment_name(),
    {
        self.fragment_name.as_str()
    }

    /// Gets the reason why the shaders could not be linked.
    pub fn get_error(&self) -> (r: &ShaderLinkErrorType<E>)
        ensures
            *r == self.error(),
    {
        &self.error
    }
}

/// Why linking two shaders by the names of their variables failed.
#[derive(Debug)]
pub enum ShaderNameLinkError {
    /// An output of the vertex shader and the input of the fragment shader
    /// with its name have different data types.
    TypeMismatch { vertex_output: VertexShaderVariable, fragment_input: FragmentShaderVariable },
    /// An output of the vertex shader has no input of its name in the
    /// fragment shader.
    MissingFragmentInput { vertex_output_name: String },
    /// An input of the fragment shader has no output of its name in the
    /// vertex shader.
    MissingVertexOutput { fragment_input_name: String },
}

impl View for ShaderNameLinkError {
    type V = NameLinkErrorModel;

    open spec fn view(&self) -> NameLinkErrorModel {
        match self {
            ShaderNameLinkError::TypeMismatch { vertex_output, fragment_input } =>
                NameLinkErrorModel::TypeMismatch(vertex_output@, fragment_input@),
            ShaderNameLinkError::MissingFragmentInput { vertex_output_name } =>
                NameLinkErrorModel::MissingFragmentInput(vertex_output_name@),
            ShaderNameLinkError::MissingVertexOutput { fragment_input_name } =>
                NameLinkErrorModel::MissingVertexOutput(fragment_input_name@),
        }
    }
}

/// A vertex shader linked to a fragment shader, with the external variables
/// of both: those of the vertex shader, then those of the fragment shader
/// whose names the vertex shader does not use.
pub struct ShaderPair<V: VertexShader, F: FragmentShader> {
    vertex_shader: Arc<V>,
    fragment_shader: Arc<F>,
    external_variables: Vec<ExternalShaderVariable>,
}

/// The external variables of `variables`, in order.
fn vertex_externals_of(variables: &Vec<VertexShaderVariable>) -> (r: Vec<ExternalShaderVariable>)
    ensures
        external_models(r@) == vertex_externals(vertex_models(variables@)),
{
    let ghost vs = vertex_models(variables@);
    let mut r: Vec<ExternalShaderVariable> = Vec::new();
    let mut i: usize = 0;
    while i < variables.len()
        invariant
            i <= vs.len(),
            vs == vertex_models(variables@),
            external_models(r@) == vertex_externals(vs.take(i as int)),
        decreases vs.len() - i,
    {
        let ghost before = r@;
        proof {
            assert(vs.take(i + 1).drop_last() =~= vs.take(i as int));
            assert(vs.take(i + 1).last() == vs[i as int]);
        }
        let variable = &variables[i];
        match variable.get_variable_type() {
            VertexShaderVariableType::External(ext) => {
                r.push(
                    ExternalShaderVariable::new(variable.get_name(), variable.get_data_type(), ext),
                );
                proof {
                    assert(external_models(r@) =~= external_models(before).push(
                        (vs[i as int].0, vs[i as int].1, ext),
                    ));
                }
            },
            _ => {},
        }
        i += 1;
    }
    proof {
        assert(vs.take(i as int) =~= vs);
    }
    r
}

/// The first variable of `variables` named `name`.
fn external_named(variables: &Vec<ExternalShaderVariable>, name: &str) -> (r: Option<usize>)
    ensures
        match r {
            Some(k) => k < variables@.len() && find_external(external_models(variables@), name@)
                == Some(variables@[k as int]@),
            None => find_external(external_models(variables@), name@) is None,
        },
{
    let ghost es = external_models(variables@);
    assert(es.skip(0) =~= es);
    let mut i: usize = 0;
    while i < variables.len()
        invariant
            i <= es.len(),
            es == external_models(variables@),
            find_external(es, name@) == find_external(es.skip(i as int), name@),
        decreases es.len() - i,
    {
        proof {
            assert(es.skip(i as int)[0] == variables@[i as int]@);
            assert(es.skip(i as int).skip(1) =~= es.skip(i + 1));
        }
        if str_eq(variables[i].get_name(), name) {
            return Some(i);
        }
        i += 1;
    }
    proof {
        assert(es.skip(i as int).len() == 0);
    }
    None
}

/// Checks that each flat (smooth) output of `vertex_variables` has a flat
/// (smooth) input of its name and data type in `fragment_variables`, and the
/// other way round; returns the first error found.
fn check_names(
    vertex_variables: &Vec<VertexShaderVariable>,
    fragment_variables: &Vec<FragmentShaderVariable>,
) -> (r: Result<(), ShaderNameLinkError>)
    ensures
        match r {
            Ok(()) => name_link_error(
                vertex_models(vertex_variables@),
                fragment_models(fragment_variables@),
            ) is None,
            Err(e) => name_link_error(
                vertex_models(vertex_variables@),
                fragment_models(fragment_variables@),
            ) == Some(e@),
        },
{
    let maybe_flat_type_mismatch = match_shader_variables_types(
        vertex_variables,
        fragment_variables,
        VertexShaderVariableType::FlatFragmentOutput,
        FragmentShaderVariableType::FlatVertexInput,
    );
    let maybe_smooth_type_mismatch = match_shader_variables_types(
        vertex_variables,
        fragment_variables,
        VertexShaderVariableType::SmoothFragmentOutput,
        FragmentShaderVariableType::SmoothVertexInput,
    );
    match maybe_flat_type_mismatch {
        Err((vertex_output, fragment_input)) => {
            return Err(ShaderNameLinkError::TypeMismatch { vertex_output, fragment_input });
        },
        Ok(()) => {},
    }
    match maybe_smooth_type_mismatch {
        Err((vertex_output, fragment_input)) => {
            return Err(ShaderNameLinkError::TypeMismatch { vertex_output, fragment_input });
        },
        Ok(()) => {},
    }

    let flat_vertex_output_names = vertex_names_of(
        vertex_variables,
        VertexShaderVariableType::FlatFragmentOutput,
    );
    let smooth_vertex_output_names = vertex_names_of(
        vertex_variables,
        VertexShaderVariableType::SmoothFragmentOutput,
    );
    let flat_fragment_input_names = fragment_names_of(
        fragment_variables,
        FragmentShaderVariableType::FlatVertexInput,
    );
    let smooth_fragment_input_names = fragment_names_of(
        fragment_variables,
        FragmentShaderVariableType::SmoothVertexInput,
    );
    match match_shader_variable_names(&flat_vertex_output_names, &flat_fragment_input_names) {
        Err(vertex_output_name) => {
            return Err(ShaderNameLinkError::MissingFragmentInput { vertex_output_name });
        },
        Ok(()) => {},
    }
    match match_shader_variable_names(&smooth_vertex_output_names, &smooth_fragment_input_names) {
        Err(vertex_output_name) => {
            return Err(ShaderNameLinkError::MissingFragmentInput { vertex_output_name });
        },
        Ok(()) => {},
    }
    match match_shader_variable_names(&flat_fragment_input_names, &flat_vertex_output_names) {
        Err(fragment_input_name) => {
            return Err(ShaderNameLinkError::MissingVertexOutput { fragment_input_name });
        },
        Ok(()) => {},
    }
    match match_shader_variable_names(&smooth_fragment_input_names, &smooth_vertex_output_names) {
        Err(fragment_input_name) => {
            return Err(ShaderNameLinkError::MissingVertexOutput { fragment_input_name });
        },
        Ok(()) => {},
    }
    Ok(())
}

/// Collects the external variables of both shaders: those of
/// `vertex_variables`, then those of `fragment_variables` whose names are not
/// taken yet. Fails on the first external variable of the fragment shader
/// whose name is taken by one of another data type.
fn merge_external_variables(
    vertex_variables: &Vec<VertexShaderVariable>,
    fragment_variables: &Vec<FragmentShaderVariable>,
) -> (r: Result<Vec<ExternalShaderVariable>, ShaderExternalVariableMismatch>)
    ensures
        match r {
            Ok(es) => merge_externals(
                vertex_externals(vertex_models(vertex_variables@)),
                fragment_models(fragment_variables@),
            ) == Ok::<Seq<ExternalVariableModel>, ExternalMismatchModel>(external_models(es@)),
            Err(m) => merge_externals(
                vertex_externals(vertex_models(vertex_variables@)),
                fragment_models(fragment_variables@),
            ) == Err::<Seq<ExternalVariableModel>, ExternalMismatchModel>(m@),
        },
{
    let mut external_variables = vertex_externals_of(vertex_variables);
    let ghost fs = fragment_models(fragment_variables@);
    let ghost start = vertex_externals(vertex_models(vertex_variables@));
    assert(fs.skip(0) =~= fs);
    let mut i: usize = 0;
    while i < fragment_variables.len()
        invariant
            i <= fs.len(),
            fs == fragment_models(fragment_variables@),
            start == vertex_externals(vertex_models(vertex_variables@)),
            merge_externals(start, fs) == merge_externals(
                external_models(external_variables@),
                fs.skip(i as int),
            ),
        decreases fs.len() - i,
    {
        let variable = &fragment_variables[i];
        proof {
            assert(fs.skip(i as int)[0] == variable@);
            assert(fs.skip(i as int).skip(1) =~= fs.skip(i + 1));
        }
        match variable.get_variable_type() {
            FragmentShaderVariableType::External(ext) => {
                match external_named(&external_variables, variable.get_name()) {
                    Some(k) => {
                        let found_type = external_variables[k].get_data_type();
                        if found_type != variable.get_data_type() {
                            return Err(
                                ShaderExternalVariableMismatch::new(
                                    variable.get_name(),
                                    found_type,
                                    variable.get_data_type(),
                                ),
                            );
                        }
                    },
                    None => {
                        let ghost before = external_variables@;
                        external_variables.push(
                            ExternalShaderVariable::new(
                                variable.get_name(),
                                variable.get_data_type(),
                                ext,
                            ),
                        );
                        proof {
                            assert(external_models(external_variables@) =~= external_models(
                                before,
                            ).push((variable@.0, variable@.1, ext)));
                        }
                    },
                }
            },
            _ => {},
        }
        i += 1;
    }
    proof {
        assert(fs.skip(i as int).len() == 0);
    }
    Ok(external_variables)
}

/// Links the variables of a vertex shader to those of a fragment shader by
/// name, as `ShaderPair::link_by_attribute_names` does with the variables of
/// two shaders, and returns the external variables of both. Fails with the
/// first of these errors: a flat, then a smooth output whose input of its
/// name has another data type; a flat, then a smooth output with no input
/// of its name; a flat, then a smooth input with no output of its name; an
/// external variable of the fragment shader whose name is taken by an
/// external variable of another data type.
pub fn link_variables_by_name(
    vertex_variables: &Vec<VertexShaderVariable>,
    fragment_variables: &Vec<FragmentShaderVariable>,
) -> (r: Result<Vec<ExternalShaderVariable>, ShaderLinkErrorType<ShaderNameLinkError>>)
    ensures
        match r {
            Ok(es) => name_link_error(
                vertex_models(vertex_variables@),
                fragment_models(fragment_variables@),
            ) is None && merge_externals(
                vertex_externals(vertex_models(vertex_variables@)),
                fragment_models(fragment_variables@),
            ) == Ok::<Seq<ExternalVariableModel>, ExternalMismatchModel>(external_models(es@)),
            Err(ShaderLinkErrorType::Specific(e)) => name_link_error(
                vertex_models(vertex_variables@),
                fragment_models(fragment_variables@),
            ) == Some(e@),
            Err(ShaderLinkErrorType::General(m)) => name_link_error(
                vertex_models(vertex_variables@),
                fragment_models(fragment_variables@),
            ) is None && merge_externals(
                vertex_externals(vertex_models(vertex_variables@)),
                fragment_models(fragment_variables@),
            ) == Err::<Seq<ExternalVariableModel>, ExternalMismatchModel>(m@),
        },
{
    match check_names(vertex_variables, fragment_variables) {
        Err(e) => Err(ShaderLinkErrorType::Specific(e)),
        Ok(()) => match merge_external_variables(vertex_variables, fragment_variables) {
            Ok(es) => Ok(es),
            Err(m) => Err(ShaderLinkErrorType::General(m)),
        },
    }
}

impl<V: VertexShader, F: FragmentShader> ShaderPair<V, F> {
    pub closed spec fn vertex_shader(self) -> V {
        *self.vertex_shader
    }

    pub closed spec fn fragment_shader(self) -> F {
        *self.fragment_shader
    }

    pub closed spec fn external_variables(self) -> Seq<ExternalVariableModel> {
        external_models(self.external_variables@)
    }

    fn new(
        vertex_shader: &Arc<V>,
        fragment_shader: &Arc<F>,
        external_variables: Vec<ExternalShaderVariable>,
    ) -> (r: Self)
        ensures
            r.vertex_shader() == **vertex_shader,
            r.fragment_shader() == **fragment_shader,
            r.external_variables() == external_models(external_variables@),
    {
        Self {
            vertex_shader: Arc::clone(vertex_shader),
            fragment_shader: Arc::clone(fragment_shader),
            external_variables,
        }
    }

    /// Links `vertex_shader` to `fragment_shader` by the names of their
    /// variables, as `link_variables_by_name` links the variables that the
    /// two shaders report. The pair holds both shaders and the merged
    /// external variables; an error holds the debug names of both shaders.
    pub fn link_by_attribute_names(vertex_shader: &Arc<V>, fragment_shader: &Arc<F>) -> (r:
        Result<Self, ShaderLinkError<ShaderNameLinkError>>)
        ensures
            match r {
                Ok(pair) => name_link_error(vertex_shader.variables(), fragment_shader.variables())
                    is None && merge_externals(
                    vertex_externals(vertex_shader.variables()),
                    fragment_shader.variables(),
                ) == Ok::<Seq<ExternalVariableModel>, ExternalMismatchModel>(
                    pair.external_variables(),
                ) && pair.vertex_shader() == **vertex_shader && pair.fragment_shader()
                    == **fragment_shader,
                Err(e) => e.vertex_name() == vertex_shader.debug_name() && e.fragment_name()
                    == fragment_shader.debug_name() && if name_link_error(
                    vertex_shader.variables(),
                    fragment_shader.variables(),
                ) is Some {
                    e.error() is Specific && e.error()->Specific_0@ == name_link_error(
                        vertex_shader.variables(),
                        fragment_shader.variables(),
                    )->Some_0
                } else {
                    merge_externals(
                        vertex_externals(vertex_shader.variables()),
                        fragment_shader.variables(),
                    ) is Err && e.error() is General && e.error()->General_0@ == merge_externals(
                        vertex_externals(vertex_shader.variables()),
                        fragment_shader.variables(),
                    )->Err_0
                },
            },
    {
        let vertex_variables = vertex_shader.get_variables();
        let fragment_variables = fragment_shader.get_variables();
        match link_variables_by_name(vertex_variables, fragment_variables) {
            Ok(external_variables) => Ok(
                ShaderPair::new(vertex_shader, fragment_shader, external_variables),
            ),
            Err(ShaderLinkErrorType::Specific(e)) => Err(
                ShaderLinkError::specific(&**vertex_shader, &**fragment_shader, e),
            ),
            Err(ShaderLinkErrorType::General(m)) => Err(
                ShaderLinkError::general(&**vertex_shader, &**fragment_shader, m),
            ),
        }
    }

    /// Gets the vertex shader of this pair.
    pub fn get_vertex_shader(&self) -> (r: &Arc<V>)
        ensures
            **r == self.vertex_shader(),
    {
        &self.vertex_shader
    }

    /// Gets the fragment shader of this pair.
    pub fn get_fragment_shader(&self) -> (r: &Arc<F>)
        ensures
            **r == self.fragment_shader(),
    {
        &self.fragment_shader
    }

    /// Gets the external variables of both shaders: those of the vertex
    /// shader, then those of the fragment shader whose names the vertex
    /// shader does not use.
    pub fn get_external_variables(&self) -> (r: &Vec<ExternalShaderVariable>)
        ensures
            external_models(r@) == self.external_variables(),
    {
        &self.external_variables
    }
}

} // verus!
