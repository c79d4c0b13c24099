use flwrs_plugin::schema::{FieldDefinition, FieldType, InitializeRequest, SchemaDefinition};

fn nested_headers() -> FieldDefinition {
    FieldDefinition::new()
        .with_key("headers".to_string())
        .with_description("HTTP headers".to_string())
        .with_type(FieldType::Array)
        .with_nested_type_definition(
            FieldDefinition::new()
                .with_type(FieldType::Mapping)
                .with_nested_type_definition(FieldDefinition::new().with_type(FieldType::String)),
        )
}

#[test]
fn nested_array_of_map_of_string_keeps_all_levels() {
    let schema = SchemaDefinition::new().add_field(nested_headers());
    let wire = schema.into_wire();
    assert_eq!(wire.fields.len(), 1);
    let top = &wire.fields[0];
    assert_eq!(top.key, "headers");
    assert_eq!(top.description, "HTTP headers");
    assert_eq!(top.type_code, FieldType::Array.code());
    let second = top.nested_type_definition.as_ref().unwrap();
    assert_eq!(second.type_code, FieldType::Mapping.code());
    assert_eq!(second.description, "");
    let third = second.nested_type_definition.as_ref().unwrap();
    assert_eq!(third.type_code, FieldType::String.code());
    assert!(third.nested_type_definition.is_none());
    assert!(third.object_fields.is_empty());
}

#[test]
fn object_members_keep_their_order() {
    let f = FieldDefinition::new().with_key("obj".to_string()).with_type(FieldType::Object).with_object_fields(vec![
        FieldDefinition::new().with_key("a".to_string()).with_type(FieldType::Int),
        FieldDefinition::new().with_key("b".to_string()).with_type(FieldType::Bool),
        nested_headers(),
    ]);
    let w = f.to_wire();
    let keys: Vec<&str> = w.object_fields.iter().map(|m| m.key.as_str()).collect();
    assert_eq!(keys, vec!["a", "b", "headers"]);
    assert_eq!(w.object_fields[1].type_code, 3);
    assert!(w.object_fields[2].nested_type_definition.as_ref().unwrap().nested_type_definition.is_some());
}

#[test]
fn field_defaults() {
    let f = FieldDefinition::new();
    assert_eq!(f.key, "");
    assert_eq!(f.description, None);
    assert_eq!(f.type_, FieldType::String);
    assert!(f.nested_type_definition.is_none());
    assert!(f.object_fields.is_none());
}

#[test]
fn type_codes_round_trip() {
    let all = [
        FieldType::Undefined,
        FieldType::String,
        FieldType::Int,
        FieldType::Bool,
        FieldType::Float,
        FieldType::Bytes,
        FieldType::Mapping,
        FieldType::Array,
        FieldType::Object,
    ];
    for (i, t) in all.iter().enumerate() {
        assert_eq!(t.code(), i as i32);
        assert_eq!(FieldType::from_code(i as i32), Some(*t));
    }
    assert_eq!(FieldType::from_code(9), None);
    assert_eq!(FieldType::from_code(-1), None);
}

#[test]
fn schema_fields_are_added_and_removed_in_order() {
    let schema = SchemaDefinition::new()
        .add_field(FieldDefinition::new().with_key("a".to_string()))
        .add_field(FieldDefinition::new().with_key("b".to_string()))
        .add_field(FieldDefinition::new().with_key("c".to_string()))
        .remove_field(1);
    let keys: Vec<&str> = schema.fields.iter().map(|f| f.key.as_str()).collect();
    assert_eq!(keys, vec!["a", "c"]);
    let replaced = schema.with_fields(vec![FieldDefinition::new().with_key("z".to_string())]);
    assert_eq!(replaced.fields.len(), 1);
}

#[test]
fn initialize_request_becomes_handshake() {
    let req = InitializeRequest::new()
        .with_id("plugin-1".to_string())
        .with_version("0.3.0".to_string())
        .with_schema(SchemaDefinition::new().add_field(nested_headers()));
    let init = req.into_initialize();
    assert_eq!(init.plugin_id, "plugin-1");
    assert_eq!(init.plugin_version, "0.3.0");
    let schema = init.schema.unwrap();
    assert_eq!(schema.fields.len(), 1);
    assert_eq!(schema.fields[0].key, "headers");
}
