use griphin::{str_ref, string_ref, StringRef};

#[test]
fn test_static_ref() {
    let hello_world: StringRef = str_ref("HelloWorld");
    assert_eq!("HelloWorld", hello_world.to_str());
    assert_eq!(hello_world, "HelloWorld");
    assert_eq!(hello_world, str_ref("HelloWorld"));
    assert_eq!(hello_world, string_ref(String::from("HelloWorld")));
    assert_eq!(hello_world, hello_world.clone());
}

#[test]
fn test_string() {
    let hello_world = string_ref(String::from("HelloWorld"));
    assert_eq!("HelloWorld", hello_world.to_str());
    assert_eq!(hello_world, "HelloWorld");
    assert_eq!(hello_world, string_ref(String::from("HelloWorld")));
    assert_eq!(hello_world, str_ref("HelloWorld"));
    assert_eq!(hello_world, hello_world.clone());
}

#[test]
fn string_refs_with_other_characters_differ() {
    assert_ne!(str_ref("Hello"), str_ref("World"));
    assert_ne!(string_ref(String::from("Hello")), str_ref("Hello!"));
    assert!(str_ref("Hello") != "hello");
    assert_eq!(str_ref(""), string_ref(String::new()));
}

#[test]
fn concat_joins_the_characters() {
    let joined = str_ref("Hello").concat(&string_ref(String::from("World")));
    assert_eq!(joined, "HelloWorld");
    assert_eq!(str_ref("").concat(&str_ref("")), "");
}
