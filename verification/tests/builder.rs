use ai_tools_ox::tools::ToolBuilder;
use ai_tools_ox::tools::ToolBuilderError;
use ai_tools_ox::tools::ToolType;

#[test]
fn build_without_name_fails() {
    assert!(matches!(
        ToolBuilder::new().build(),
        Err(ToolBuilderError::NameNotSet)
    ));
    assert!(matches!(
        ToolBuilder::new().description("described").build(),
        Err(ToolBuilderError::NameNotSet)
    ));
}

#[test]
fn build_without_description_fails() {
    assert!(matches!(
        ToolBuilder::new().name("named").build(),
        Err(ToolBuilderError::DescriptionNotSet)
    ));
}

#[test]
fn build_with_no_parameters_succeeds_empty() {
    let tool = ToolBuilder::new()
        .name("bare")
        .description("a tool with no parameters")
        .build()
        .unwrap();
    assert!(matches!(tool.tool_type, ToolType::Function));
    assert_eq!(tool.function.name, "bare");
    assert_eq!(tool.function.description, "a tool with no parameters");
    assert_eq!(tool.function.parameters.parameter_type, "object");
    assert!(tool.function.parameters.properties.is_empty());
    assert!(tool.function.parameters.required.is_empty());
}

#[test]
fn builder_required_then_optional_enum() {
    let tool = ToolBuilder::new()
        .name("mixed")
        .description("one required number, one optional enum")
        .add_parameter::<i64>("x", "the operand")
        .add_optional_enum_parameter(
            "y",
            "the flavour",
            vec!["a".to_string(), "b".to_string()],
        )
        .build()
        .unwrap();
    let params = &tool.function.parameters;
    assert_eq!(params.required, vec!["x".to_string()]);
    assert_eq!(params.properties.len(), 2);

    let x = &params.properties.iter().find(|e| e.0 == "x").unwrap().1;
    assert_eq!(x.argument_type, "number");
    assert_eq!(x.description, "the operand");
    assert!(x.argument_enum.is_none());

    let y = &params.properties.iter().find(|e| e.0 == "y").unwrap().1;
    assert_eq!(y.argument_type, "string");
    assert_eq!(y.description, "the flavour");
    assert_eq!(
        y.argument_enum,
        Some(vec!["a".to_string(), "b".to_string()])
    );
}

#[test]
fn enum_parameter_is_required_and_string_tagged() {
    let tool = ToolBuilder::new()
        .name("pick")
        .description("an enum-typed tool")
        .add_enum_parameter("mode", "how to run", vec!["fast".to_string(), "slow".to_string()])
        .build()
        .unwrap();
    let params = &tool.function.parameters;
    assert_eq!(params.required, vec!["mode".to_string()]);
    let mode = &params.properties[0];
    assert_eq!(mode.0, "mode");
    assert_eq!(mode.1.argument_type, "string");
    assert_eq!(
        mode.1.argument_enum,
        Some(vec!["fast".to_string(), "slow".to_string()])
    );
}

#[test]
fn optional_parameter_stays_out_of_required() {
    let tool = ToolBuilder::new()
        .name("opt")
        .description("an optional string")
        .add_optional_parameter::<String>("note", "a side note")
        .build()
        .unwrap();
    let params = &tool.function.parameters;
    assert!(params.required.is_empty());
    assert_eq!(params.properties.len(), 1);
    assert_eq!(params.properties[0].1.argument_type, "string");
}

#[test]
fn redeclared_required_name_overwrites_spec_and_duplicates_required() {
    let tool = ToolBuilder::new()
        .name("dup")
        .description("x declared twice")
        .add_parameter::<i64>("x", "first declaration")
        .add_parameter::<bool>("x", "second declaration")
        .build()
        .unwrap();
    let params = &tool.function.parameters;
    assert_eq!(params.properties.len(), 1);
    assert_eq!(params.properties[0].1.argument_type, "boolean");
    assert_eq!(params.properties[0].1.description, "second declaration");
    assert_eq!(params.required, vec!["x".to_string(), "x".to_string()]);
}

#[test]
fn builder_error_messages() {
    assert_eq!(ToolBuilderError::NameNotSet.message(), "Name not set");
    assert_eq!(
        ToolBuilderError::DescriptionNotSet.message(),
        "Description not set"
    );
}
