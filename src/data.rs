use crate::util::str_eq;
use vstd::prelude::*;
use vstd::string::StringExecFns;

verus! {

/// The kind of a shader value: int, float or bool. Together with a
/// `DataShape` it makes a `DataType`. The only kinds are those that
/// `DataKind::integer`, `DataKind::float` and `DataKind::boolean` return.
#[derive(Debug, Clone, Copy)]
pub struct DataKind {
    long_name: &'static str,
    short_name: &'static str,
}

impl View for DataKind {
    /// The long name and the short name.
    type V = (Seq<char>, Seq<char>);

    closed spec fn view(&self) -> (Seq<char>, Seq<char>) {
        (self.long_name@, self.short_name@)
    }
}

impl PartialEq for DataKind {
    fn eq(&self, other: &DataKind) -> (r: bool) {
        str_eq(self.long_name, other.long_name) && str_eq(self.short_name, other.short_name)
    }
}

impl vstd::std_specs::cmp::PartialEqSpecImpl for DataKind {
    open spec fn obeys_eq_spec() -> bool {
        true
    }

    open spec fn eq_spec(&self, other: &DataKind) -> bool {
        self@ == other@
    }
}

impl Eq for DataKind {

}

fn data_kind(long_name: &'static str, short_name: &'static str) -> (r: DataKind)
    ensures
        r@ == (long_name@, short_name@),
{
    DataKind { long_name, short_name }
}

impl DataKind {
    /// The int kind: a 32-bit signed integer in GLSL.
    pub fn integer() -> (r: DataKind)
        ensures
            r@ == ("int"@, "i"@),
    {
        data_kind("int", "i")
    }

    /// The float kind: a 32-bit float in GLSL.
    pub fn float() -> (r: DataKind)
        ensures
            r@ == ("float"@, ""@),
    {
        data_kind("float", "")
    }

    /// The bool kind.
    pub fn boolean() -> (r: DataKind)
        ensures
            r@ == ("bool"@, "b"@),
    {
        data_kind("bool", "b")
    }

    /// Gets the full name of this kind: "int", "float" or "bool".
    pub fn get_long_name(&self) -> (r: &'static str)
        ensures
            r@ == self@.0,
    {
        self.long_name
    }

    /// Gets the prefix of this kind in GLSL vector names: "i", "" or "b".
    pub fn get_short_name(&self) -> (r: &'static str)
        ensures
            r@ == self@.1,
    {
        self.short_name
    }
}

/// The shape of a shader value: a single value, a vector or a square matrix.
/// Together with a `DataKind` it makes a `DataType`. The only shapes are
/// those that the associated functions of this type return.
#[derive(Debug, Clone, Copy)]
pub struct DataShape {
    raw_name: &'static str,
    size: u8,
}

impl View for DataShape {
    /// The raw name and the size.
    type V = (Seq<char>, u8);

    closed spec fn view(&self) -> (Seq<char>, u8) {
        (self.raw_name@, self.size)
    }
}

impl PartialEq for DataShape {
    fn eq(&self, other: &DataShape) -> (r: bool) {
        str_eq(self.raw_name, other.raw_name) && self.size == other.size
    }
}

impl vstd::std_specs::cmp::PartialEqSpecImpl for DataShape {
    open spec fn obeys_eq_spec() -> bool {
        true
    }

    open spec fn eq_spec(&self, other: &DataShape) -> bool {
        self@ == other@
    }
}

impl Eq for DataShape {

}

fn data_shape(raw_name: &'static str, size: u8) -> (r: DataShape)
    ensures
        r@ == (raw_name@, size),
{
    DataShape { raw_name, size }
}

/// The view of the single-value shape.
pub open spec fn single_shape() -> (Seq<char>, u8) {
    (Seq::empty(), 1)
}

impl DataShape {
    /// A single value.
    pub fn single() -> (r: DataShape)
        ensures
            r@ == single_shape(),
    {
        proof {
            reveal_strlit("");
        }
        data_shape("", 1)
    }

    /// A vector of 2 values.
    pub fn vec2() -> (r: DataShape)
        ensures
            r@ == ("vec2"@, 2u8),
    {
        data_shape("vec2", 2)
    }

    /// A vector of 3 values.
    pub fn vec3() -> (r: DataShape)
        ensures
            r@ == ("vec3"@, 3u8),
    {
        data_shape("vec3", 3)
    }

    /// A vector of 4 values.
    pub fn vec4() -> (r: DataShape)
        ensures
            r@ == ("vec4"@, 4u8),
    {
        data_shape("vec4", 4)
    }

    /// A 2 x 2 matrix.
    pub fn mat2() -> (r: DataShape)
        ensures
            r@ == ("mat2"@, 4u8),
    {
        data_shape("mat2", 4)
    }

    /// A 3 x 3 matrix.
    pub fn mat3() -> (r: DataShape)
        ensures
            r@ == ("mat3"@, 9u8),
    {
        data_shape("mat3", 9)
    }

    /// A 4 x 4 matrix.
    pub fn mat4() -> (r: DataShape)
        ensures
            r@ == ("mat4"@, 16u8),
    {
        data_shape("mat4", 16)
    }

    /// Gets the prefix of the GLSL type names of this shape.
    pub fn get_raw_name(&self) -> (r: &'static str)
        ensures
            r@ == self@.0,
    {
        self.raw_name
    }

    /// Gets the size of this shape in units of 4 bytes.
    pub fn get_size(&self) -> (r: u8)
        ensures
            r == self@.1,
    {
        self.size
    }
}

/// The GLSL name of a type of the given kind and shape: the long name of the
/// kind for a single value, else the short name of the kind followed by the
/// raw name of the shape.
pub open spec fn glsl_name(kind: (Seq<char>, Seq<char>), shape: (Seq<char>, u8)) -> Seq<char> {
    if shape == single_shape() {
        kind.0
    } else {
        kind.1 + shape.0
    }
}

/// The type of a shader value: a kind and a shape.
#[derive(Debug, Clone, Copy)]
pub struct DataType {
    kind: DataKind,
    shape: DataShape,
}

impl View for DataType {
    type V = ((Seq<char>, Seq<char>), (Seq<char>, u8));

    closed spec fn view(&self) -> ((Seq<char>, Seq<char>), (Seq<char>, u8)) {
        (self.kind@, self.shape@)
    }
}

impl PartialEq for DataType {
    fn eq(&self, other: &DataType) -> (r: bool) {
        self.kind == other.kind && self.shape == other.shape
    }
}

impl vstd::std_specs::cmp::PartialEqSpecImpl for DataType {
    open spec fn obeys_eq_spec() -> bool {
        true
    }

    open spec fn eq_spec(&self, other: &DataType) -> bool {
        self@ == other@
    }
}

impl Eq for DataType {

}

impl DataType {
    /// Creates the type with the given kind and shape.
    pub fn new(kind: DataKind, shape: DataShape) -> (r: DataType)
        ensures
            r@ == (kind@, shape@),
    {
        DataType { kind, shape }
    }

    /// Gets the kind of this type.
    pub fn get_kind(&self) -> (r: DataKind)
        ensures
            r@ == self@.0,
    {
        self.kind
    }

    /// Gets the shape of this type.
    pub fn get_shape(&self) -> (r: DataShape)
        ensures
            r@ == self@.1,
    {
        self.shape
    }

    /// Gets the name of this type in GLSL, such as "float", "ivec3" or "mat4".
    pub fn get_glsl_name(&self) -> (r: String)
        ensures
            r@ == glsl_name(self@.0, self@.1),
    {
        if self.shape == DataShape::single() {
            self.kind.long_name.to_owned()
        } else {
            self.kind.short_name.to_owned().concat(self.shape.raw_name)
        }
    }
}

} // verus!
