use rmcp::json::JsonValue;
use rmcp::macros::{
    empty_object_schema_value,
    find_parameters_type_in_sig, resolve_tool_attribute, GenericArg, InputSchema, OutputSchema, PathSegment,
    ToolAnnotationsAttribute, ToolAttribute, TypeShape,
};

fn path(name: &str) -> TypeShape {
    TypeShape::Path(vec![PathSegment { ident: name.to_string(), args: None }])
}

fn generic(name: &str, args: Vec<TypeShape>) -> TypeShape {
    TypeShape::Path(vec![PathSegment {
        ident: name.to_string(),
        args: Some(args.into_iter().map(GenericArg::Type).collect()),
    }])
}

#[test]
fn test_direct_tool_attributes() {
    let attr = ToolAttribute {
        name: Some("direct-annotated-tool".to_string()),
        annotations: Some(ToolAnnotationsAttribute {
            title: Some("Annotated Tool".to_string()),
            read_only_hint: Some(true),
            ..Default::default()
        }),
        ..Default::default()
    };
    let docs = vec![
        Some(" Direct annotation test tool".to_string()),
        Some(" This is used to test tool annotations".to_string()),
    ];
    let inputs = vec![None, Some(path("String"))];
    let tool = resolve_tool_attribute(attr, "direct_annotated_tool", &docs, &inputs, Some(path("String")));

    assert_eq!(tool.name, "direct-annotated-tool");
    assert!(tool.description.is_some());
    assert!(tool.description.as_ref().unwrap().contains("Direct annotation test tool"));
    let annotations = tool.annotations.unwrap();
    assert_eq!(annotations.title.as_ref().unwrap(), "Annotated Tool");
    assert_eq!(annotations.read_only_hint, Some(true));
    assert_eq!(tool.input_schema, InputSchema::Literal(empty_object_schema_value()));
    assert_eq!(tool.output_schema, None);
}

#[test]
fn tool_defaults_to_function_name_and_parameters_schema() {
    let inputs = vec![None, Some(path("Context")), Some(generic("Parameters", vec![path("Args")]))];
    assert_eq!(find_parameters_type_in_sig(&inputs), Some(2));
    let tool = resolve_tool_attribute(ToolAttribute::default(), "sum", &Vec::new(), &inputs, None);
    assert_eq!(tool.name, "sum");
    assert_eq!(tool.description, None);
    assert_eq!(tool.input_schema, InputSchema::FromParameters(2));
}

#[test]
fn output_schema_comes_from_json_return_types() {
    let json_ret = generic("Json", vec![path("Out")]);
    let tool = resolve_tool_attribute(ToolAttribute::default(), "t", &Vec::new(), &Vec::new(), Some(json_ret));
    assert_eq!(tool.output_schema, Some(OutputSchema::OfType(path("Out"))));

    let result_ret = generic("Result", vec![generic("Json", vec![path("Out")]), path("E")]);
    let tool = resolve_tool_attribute(ToolAttribute::default(), "t", &Vec::new(), &Vec::new(), Some(result_ret));
    assert_eq!(tool.output_schema, Some(OutputSchema::OfType(path("Out"))));

    let plain = generic("Result", vec![path("String"), path("E")]);
    let tool = resolve_tool_attribute(ToolAttribute::default(), "t", &Vec::new(), &Vec::new(), Some(plain));
    assert_eq!(tool.output_schema, None);

    let explicit = ToolAttribute { output_schema: Some("schema()".to_string()), ..Default::default() };
    let tool = resolve_tool_attribute(explicit, "t", &Vec::new(), &Vec::new(), Some(generic("Json", vec![path("Out")])));
    assert_eq!(tool.output_schema, Some(OutputSchema::Explicit("schema()".to_string())));
}

#[test]
fn test_tool_macros_with_empty_param() {
    let attr = resolve_tool_attribute(ToolAttribute::default(), "empty_param", &Vec::new(), &vec![None], None);
    let schema = match attr.input_schema {
        InputSchema::Literal(s) => s,
        other => panic!("unexpected input schema {other:?}"),
    };
    assert_eq!(schema.get("type"), Some(&JsonValue::String("object".to_string())));
    match schema.get("properties") {
        Some(JsonValue::Object(o)) => assert!(o.entries.is_empty()),
        other => panic!("unexpected properties {other:?}"),
    }
}
