use rmcp::assoc::AssocList;
use rmcp::model::{
    ArgumentInfo, CompleteRequestParam, CompleteResult, CompletionContext, CompletionInfo, ProtocolVersion,
    Reference, ResourceReference,
};

fn args(pairs: &[(&str, &str)]) -> AssocList<String, String> {
    let mut a = AssocList::new();
    for (k, v) in pairs {
        a.insert(k.to_string(), v.to_string());
    }
    a
}

#[test]
fn test_protocol_version_order() {
    let v1 = ProtocolVersion::V_2024_11_05();
    let v2 = ProtocolVersion::V_2025_03_26();
    assert!(v1 < v2);
}

#[test]
fn test_completion_context_methods() {
    let context = CompletionContext::with_arguments(args(&[("city", "San Francisco"), ("country", "USA")]));

    assert!(context.has_arguments());
    assert_eq!(context.get_argument("city"), Some(&"San Francisco".to_string()));
    assert_eq!(context.get_argument("missing"), None);

    let names: Vec<&str> = context.argument_names();
    assert!(names.contains(&"city"));
    assert!(names.contains(&"country"));
    assert_eq!(names.len(), 2);
}

#[test]
fn test_completion_info_helper_methods() {
    let values = vec!["test1".to_string(), "test2".to_string()];

    let completion = CompletionInfo::with_all_values(values.clone()).unwrap();
    assert_eq!(completion.values, values);
    assert_eq!(completion.total, Some(2));
    assert_eq!(completion.has_more, Some(false));
    assert!(!completion.has_more_results());
    assert_eq!(completion.total_available(), Some(2));

    let paginated = CompletionInfo::with_pagination(values.clone(), Some(10), true).unwrap();
    assert_eq!(paginated.values, values);
    assert_eq!(paginated.total, Some(10));
    assert_eq!(paginated.has_more, Some(true));
    assert!(paginated.has_more_results());
    assert_eq!(paginated.total_available(), Some(10));
}

#[test]
fn test_completion_info_bounds() {
    let max_values: Vec<String> = (0..CompletionInfo::MAX_VALUES).map(|i| format!("value_{}", i)).collect();
    assert!(CompletionInfo::new(max_values).is_ok());

    let over_limit: Vec<String> = (0..=CompletionInfo::MAX_VALUES).map(|i| format!("value_{}", i)).collect();
    assert!(CompletionInfo::new(over_limit).is_err());
}

#[test]
fn test_resource_reference() {
    let resource_ref = ResourceReference { uri: "test://uri".to_string() };
    let another_ref = ResourceReference { uri: "test://uri".to_string() };
    assert_eq!(resource_ref.uri, another_ref.uri);
}

#[test]
fn test_complete_result_default() {
    let result = CompleteResult::default();
    assert!(result.completion.values.is_empty());
    assert_eq!(result.completion.total, None);
    assert_eq!(result.completion.has_more, None);
}

#[test]
fn test_completion_context_empty() {
    let context = CompletionContext::new();
    assert!(!context.has_arguments());
    assert_eq!(context.get_argument("any"), None);
    assert!(context.argument_names().len() == 0);
}

#[test]
fn test_completion_info_validation() {
    let values = vec!["option1".to_string(), "option2".to_string()];
    let completion = CompletionInfo::new(values.clone()).unwrap();
    assert_eq!(completion.values, values);
    assert!(completion.validate().is_ok());

    let many_values: Vec<String> = (0..=CompletionInfo::MAX_VALUES).map(|i| format!("option_{}", i)).collect();
    let result = CompletionInfo::new(many_values);
    assert!(result.is_err());
}

#[test]
fn test_reference_convenience_methods() {
    let prompt_ref = Reference::for_prompt("test_prompt");
    assert_eq!(prompt_ref.reference_type(), "ref/prompt");
    assert_eq!(prompt_ref.as_prompt_name(), Some("test_prompt"));
    assert_eq!(prompt_ref.as_resource_uri(), None);

    let resource_ref = Reference::for_resource("file://path/to/resource");
    assert_eq!(resource_ref.reference_type(), "ref/resource");
    assert_eq!(resource_ref.as_resource_uri(), Some("file://path/to/resource"));
    assert_eq!(resource_ref.as_prompt_name(), None);
}

#[test]
fn completion_error_text_names_the_count() {
    let over: Vec<String> = (0..101).map(|i| format!("v{}", i)).collect();
    assert_eq!(CompletionInfo::new(over).unwrap_err(), "Too many completion values: 101 (max: 100)");
    let info = CompletionInfo { values: (0..102).map(|i| format!("v{}", i)).collect(), total: None, has_more: None };
    assert_eq!(info.validate().unwrap_err(), "Too many completion values: 102 (max: 100)");
}

#[test]
fn has_arguments_is_false_for_empty_map() {
    let context = CompletionContext::with_arguments(AssocList::new());
    assert!(!context.has_arguments());
}

#[test]
fn complete_request_carries_reference_and_context() {
    let request = CompleteRequestParam {
        reference: Reference::for_prompt("weather_prompt"),
        argument: ArgumentInfo { name: "location".to_string(), value: "San".to_string() },
        context: Some(CompletionContext::with_arguments(args(&[("previous_input", "test")]))),
    };
    assert_eq!(request.reference.as_prompt_name(), Some("weather_prompt"));
    assert_eq!(request.context.unwrap().get_argument("previous_input"), Some(&"test".to_string()));
}

#[test]
fn protocol_versions_order_as_text() {
    assert!(!(ProtocolVersion::V_2025_03_26() < ProtocolVersion::V_2024_11_05()));
    assert!(ProtocolVersion::from_text("2024".to_string()) < ProtocolVersion::from_text("2024-01".to_string()));
    assert_eq!(ProtocolVersion::LATEST(), ProtocolVersion::V_2025_03_26());
    assert_eq!(ProtocolVersion::default().to_string(), "2025-03-26");
}
