use ai_tools_ox::object::describe_object;
use ai_tools_ox::object::FieldSpec;
use ai_tools_ox::Jsonify;
use std::collections::HashMap;

#[test]
fn test_jsonify() {
    assert_eq!(String::jsonify(), "string".to_string());
    assert_eq!(i32::jsonify(), "number".to_string());
    assert_eq!(Vec::<i32>::jsonify(), "number[]".to_string());
    assert_eq!(
        HashMap::<String, String>::jsonify(),
        "Map<string, string>".to_string()
    );
}

#[test]
fn primitive_tags_fixed_for_every_width() {
    assert_eq!(<&str>::jsonify(), "string");
    assert_eq!(char::jsonify(), "string");
    assert_eq!(i8::jsonify(), "number");
    assert_eq!(i16::jsonify(), "number");
    assert_eq!(i64::jsonify(), "number");
    assert_eq!(i128::jsonify(), "number");
    assert_eq!(u8::jsonify(), "number");
    assert_eq!(u16::jsonify(), "number");
    assert_eq!(u32::jsonify(), "number");
    assert_eq!(u64::jsonify(), "number");
    assert_eq!(u128::jsonify(), "number");
    assert_eq!(bool::jsonify(), "boolean");
}

#[test]
fn composite_tags_build_from_inner_tags() {
    assert_eq!(Vec::<bool>::jsonify(), "boolean[]");
    assert_eq!(Vec::<Vec<i32>>::jsonify(), "number[][]");
    assert_eq!(HashMap::<String, u8>::jsonify(), "Map<string, number>");
    assert_eq!(
        HashMap::<String, Vec<u64>>::jsonify(),
        "Map<string, number[]>"
    );
}

#[test]
fn object_derivation_round_trip() {
    let fields = vec![
        FieldSpec {
            name: "a".to_string(),
            type_tag: i32::jsonify(),
            description: Some("a is some number".to_string()),
        },
        FieldSpec {
            name: "b".to_string(),
            type_tag: String::jsonify(),
            description: None,
        },
        FieldSpec {
            name: "c".to_string(),
            type_tag: Vec::<i64>::jsonify(),
            description: None,
        },
    ];
    let schema = describe_object(fields);
    assert_eq!(schema.entries.len(), 3);
    assert_eq!(schema.entries[0].0, "a");
    assert_eq!(schema.entries[0].1.type_tag, "number");
    assert_eq!(
        schema.entries[0].1.description.as_deref(),
        Some("a is some number")
    );
    assert_eq!(schema.entries[1].0, "b");
    assert_eq!(schema.entries[1].1.type_tag, "string");
    assert_eq!(schema.entries[1].1.description, None);
    assert_eq!(schema.entries[2].0, "c");
    assert_eq!(schema.entries[2].1.type_tag, "number[]");
    assert_eq!(schema.entries[2].1.description, None);
}

#[test]
fn object_derivation_last_declaration_wins() {
    let fields = vec![
        FieldSpec {
            name: "a".to_string(),
            type_tag: "number".to_string(),
            description: None,
        },
        FieldSpec {
            name: "a".to_string(),
            type_tag: "string".to_string(),
            description: Some("kept".to_string()),
        },
    ];
    let schema = describe_object(fields);
    assert_eq!(schema.entries.len(), 1);
    assert_eq!(schema.entries[0].0, "a");
    assert_eq!(schema.entries[0].1.type_tag, "string");
    assert_eq!(schema.entries[0].1.description.as_deref(), Some("kept"));
}
