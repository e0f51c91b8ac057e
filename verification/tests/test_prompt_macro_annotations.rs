use rmcp::json::{empty_object, json_array, json_object, json_string, put, JsonValue};
use rmcp::macros::{arguments_from_schema, attr_fn_ident, resolve_prompt_attribute};
use rmcp::mcp_core::prompt::{Prompt, PromptArgument};

fn property(ty: &str, nullable: bool, description: Option<&str>) -> JsonValue {
    let mut o = empty_object();
    put(&mut o, "type", json_string(ty));
    if nullable {
        put(&mut o, "nullable", JsonValue::Bool(true));
    }
    if let Some(d) = description {
        put(&mut o, "description", json_string(d));
    }
    json_object(o)
}

fn schema(properties: Vec<(&str, JsonValue)>, required: &[&str]) -> JsonValue {
    let mut props = empty_object();
    for (name, p) in properties {
        put(&mut props, name, p);
    }
    let mut o = empty_object();
    put(&mut o, "type", json_string("object"));
    put(&mut o, "properties", json_object(props));
    put(&mut o, "required", json_array(required.iter().map(|r| json_string(r)).collect()));
    json_object(o)
}

/// The schema of the test's `TestArgs` parameters.
fn test_args_schema() -> JsonValue {
    schema(
        vec![
            ("input", property("string", false, Some("The input text to process"))),
            ("config", property("string", true, Some("Optional configuration"))),
        ],
        &["input"],
    )
}

/// The schema of the test's `ComplexArgs` parameters.
fn complex_args_schema() -> JsonValue {
    schema(
        vec![
            ("required_field", property("string", false, Some("Required field"))),
            ("optional_string", property("string", true, Some("An optional string parameter"))),
            ("optional_number", property("integer", true, Some("Optional number field"))),
            ("items", property("array", false, Some("Array field"))),
        ],
        &["required_field", "items"],
    )
}

fn no_docs() -> Vec<Option<String>> {
    Vec::new()
}

fn docs(lines: &[&str]) -> Vec<Option<String>> {
    lines.iter().map(|l| Some(l.to_string())).collect()
}

fn basic_prompt_prompt_attr() -> Prompt {
    resolve_prompt_attribute("basic_prompt", None, None, &no_docs(), None)
}

fn named_prompt_prompt_attr() -> Prompt {
    resolve_prompt_attribute("named_prompt", Some("custom_name".to_string()), None, &no_docs(), None)
}

fn described_prompt_prompt_attr() -> Prompt {
    resolve_prompt_attribute(
        "described_prompt",
        None,
        Some("This is a custom description".to_string()),
        &no_docs(),
        None,
    )
}

fn fully_custom_prompt_prompt_attr() -> Prompt {
    resolve_prompt_attribute(
        "fully_custom_prompt",
        Some("full_custom".to_string()),
        Some("Fully customized prompt".to_string()),
        &no_docs(),
        None,
    )
}

fn doc_comment_prompt_prompt_attr() -> Prompt {
    resolve_prompt_attribute(
        "doc_comment_prompt",
        None,
        None,
        &docs(&[" This is a doc comment description", " that spans multiple lines"]),
        None,
    )
}

fn override_doc_prompt_prompt_attr() -> Prompt {
    resolve_prompt_attribute(
        "override_doc_prompt",
        None,
        Some("This overrides the doc comment".to_string()),
        &docs(&[" This is a doc comment"]),
        None,
    )
}

fn args_prompt_prompt_attr() -> Prompt {
    resolve_prompt_attribute("args_prompt", None, None, &no_docs(), arguments_from_schema(&test_args_schema()))
}

fn complex_args_prompt_prompt_attr() -> Prompt {
    resolve_prompt_attribute(
        "complex_args_prompt",
        None,
        None,
        &no_docs(),
        arguments_from_schema(&complex_args_schema()),
    )
}

fn sync_prompt_prompt_attr() -> Prompt {
    resolve_prompt_attribute("sync_prompt", None, None, &no_docs(), None)
}

fn generic_prompt_prompt_attr() -> Prompt {
    resolve_prompt_attribute("generic_prompt", None, None, &no_docs(), None)
}

fn find<'a>(args: &'a [PromptArgument], name: &str) -> &'a PromptArgument {
    args.iter().find(|a| a.name == name).unwrap()
}

#[test]
fn test_basic_prompt_attr() {
    let attr = basic_prompt_prompt_attr();
    assert_eq!(attr.name, "basic_prompt");
    assert_eq!(attr.description, None);
    assert!(attr.arguments.is_none());
}

#[test]
fn test_named_prompt_attr() {
    let attr = named_prompt_prompt_attr();
    assert_eq!(attr.name, "custom_name");
    assert_eq!(attr.description, None);
    assert!(attr.arguments.is_none());
}

#[test]
fn test_described_prompt_attr() {
    let attr = described_prompt_prompt_attr();
    assert_eq!(attr.name, "described_prompt");
    assert_eq!(attr.description.as_deref(), Some("This is a custom description"));
    assert!(attr.arguments.is_none());
}

#[test]
fn test_fully_custom_prompt_attr() {
    let attr = fully_custom_prompt_prompt_attr();
    assert_eq!(attr.name, "full_custom");
    assert_eq!(attr.description.as_deref(), Some("Fully customized prompt"));
    assert!(attr.arguments.is_none());
}

#[test]
fn test_doc_comment_prompt_attr() {
    let attr = doc_comment_prompt_prompt_attr();
    assert_eq!(attr.name, "doc_comment_prompt");
    assert!(attr.description.is_some());
    let desc = attr.description.unwrap();
    assert!(desc.contains("This is a doc comment description"));
    assert!(desc.contains("that spans multiple lines"));
}

#[test]
fn test_override_doc_prompt_attr() {
    let attr = override_doc_prompt_prompt_attr();
    assert_eq!(attr.name, "override_doc_prompt");
    assert_eq!(attr.description.as_deref(), Some("This overrides the doc comment"));
}

#[test]
fn test_args_prompt_attr() {
    let attr = args_prompt_prompt_attr();
    assert_eq!(attr.name, "args_prompt");

    let args = attr.arguments.as_ref().unwrap();
    assert_eq!(args.len(), 2);

    let input_arg = find(args, "input");
    assert_eq!(input_arg.required, Some(true));
    assert_eq!(input_arg.description.as_deref(), Some("The input text to process"));

    let config_arg = find(args, "config");
    assert_eq!(config_arg.required, Some(false));
    assert_eq!(config_arg.description.as_deref(), Some("Optional configuration"));
}

#[test]
fn test_complex_args_prompt_attr() {
    let attr = complex_args_prompt_prompt_attr();
    assert_eq!(attr.name, "complex_args_prompt");

    let args = attr.arguments.as_ref().unwrap();
    assert_eq!(args.len(), 4);

    let required_arg = find(args, "required_field");
    assert_eq!(required_arg.required, Some(true));
    assert_eq!(required_arg.description.as_deref(), Some("Required field"));

    let optional_string_arg = find(args, "optional_string");
    assert_eq!(optional_string_arg.required, Some(false));
    assert_eq!(optional_string_arg.description.as_deref(), Some("An optional string parameter"));

    let optional_number_arg = find(args, "optional_number");
    assert_eq!(optional_number_arg.required, Some(false));
    assert_eq!(optional_number_arg.description.as_deref(), Some("Optional number field"));

    let items_arg = find(args, "items");
    assert_eq!(items_arg.required, Some(true));
    assert_eq!(items_arg.description.as_deref(), Some("Array field"));
}

#[test]
fn test_sync_prompt_attr() {
    let attr = sync_prompt_prompt_attr();
    assert_eq!(attr.name, "sync_prompt");
    assert!(attr.arguments.is_none());
}

#[test]
fn test_prompt_attr_function_type() {
    fn assert_prompt_attr_fn(_: impl Fn() -> Prompt) {}

    assert_prompt_attr_fn(basic_prompt_prompt_attr);
    assert_prompt_attr_fn(named_prompt_prompt_attr);
    assert_prompt_attr_fn(described_prompt_prompt_attr);
    assert_prompt_attr_fn(fully_custom_prompt_prompt_attr);
    assert_prompt_attr_fn(doc_comment_prompt_prompt_attr);
    assert_prompt_attr_fn(override_doc_prompt_prompt_attr);
    assert_prompt_attr_fn(args_prompt_prompt_attr);
    assert_prompt_attr_fn(complex_args_prompt_prompt_attr);
    assert_prompt_attr_fn(sync_prompt_prompt_attr);
    assert_eq!(attr_fn_ident("basic_prompt", "prompt"), "basic_prompt_prompt_attr");
}

#[test]
fn test_generic_prompt_attr() {
    let attr = generic_prompt_prompt_attr();
    assert_eq!(attr.name, "generic_prompt");
    assert!(attr.arguments.is_none());
}

#[test]
fn test_prompt_macros_test_optional_field_schema_generation_via_macro() {
    let schema = schema(
        vec![("description", property("string", true, Some("An optional description field")))],
        &[],
    );
    let prompt_attr = resolve_prompt_attribute(
        "test_optional",
        None,
        Some("A prompt to test optional schema generation".to_string()),
        &no_docs(),
        arguments_from_schema(&schema),
    );
    let arguments = prompt_attr.arguments.expect("Should have arguments");
    let description_arg =
        arguments.iter().find(|arg| arg.name == "description").expect("Should have description argument");
    assert_eq!(description_arg.required, Some(false));
    assert_eq!(description_arg.description.as_deref(), Some("An optional description field"));
}

#[test]
fn doc_lines_are_trimmed_joined_and_skip_blanks() {
    let attr = resolve_prompt_attribute("p", None, None, &docs(&["  first  ", "   ", "\tsecond"]), None);
    assert_eq!(attr.description.as_deref(), Some("first\nsecond"));
}

#[test]
fn a_non_doc_attribute_ends_the_description_so_far() {
    let attrs = vec![Some(" earlier".to_string()), None, Some(" later".to_string())];
    let attr = resolve_prompt_attribute("p", None, None, &attrs, None);
    assert_eq!(attr.description.as_deref(), Some("later"));
}

#[test]
fn schema_without_properties_gives_no_arguments() {
    let mut o = empty_object();
    put(&mut o, "type", json_string("object"));
    assert!(arguments_from_schema(&json_object(o)).is_none());
    assert!(arguments_from_schema(&schema(vec![], &[])).is_none());
}
