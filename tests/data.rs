use griphin::data::{DataKind, DataShape, DataType};

#[test]
fn glsl_names_of_single_values_are_the_long_names() {
    assert_eq!(DataType::new(DataKind::float(), DataShape::single()).get_glsl_name(), "float");
    assert_eq!(DataType::new(DataKind::integer(), DataShape::single()).get_glsl_name(), "int");
    assert_eq!(DataType::new(DataKind::boolean(), DataShape::single()).get_glsl_name(), "bool");
}

#[test]
fn glsl_names_of_vectors_and_matrices() {
    assert_eq!(DataType::new(DataKind::float(), DataShape::vec3()).get_glsl_name(), "vec3");
    assert_eq!(DataType::new(DataKind::integer(), DataShape::vec2()).get_glsl_name(), "ivec2");
    assert_eq!(DataType::new(DataKind::boolean(), DataShape::vec4()).get_glsl_name(), "bvec4");
    assert_eq!(DataType::new(DataKind::float(), DataShape::mat4()).get_glsl_name(), "mat4");
}

#[test]
fn kinds_and_shapes_have_their_names_and_sizes() {
    assert_eq!(DataKind::integer().get_long_name(), "int");
    assert_eq!(DataKind::integer().get_short_name(), "i");
    assert_eq!(DataKind::float().get_short_name(), "");
    assert_eq!(DataShape::single().get_size(), 1);
    assert_eq!(DataShape::mat2().get_size(), 4);
    assert_eq!(DataShape::mat3().get_size(), 9);
    assert_eq!(DataShape::mat4().get_raw_name(), "mat4");
    let t = DataType::new(DataKind::integer(), DataShape::vec3());
    assert_eq!(t.get_kind(), DataKind::integer());
    assert_eq!(t.get_shape(), DataShape::vec3());
    assert!(t != DataType::new(DataKind::float(), DataShape::vec3()));
    assert!(DataShape::vec4() != DataShape::mat2());
}
