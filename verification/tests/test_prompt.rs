use rmcp::mcp_core::handler::{PromptError, ResourceError, ToolError};
use rmcp::mcp_core::prompt::{PromptMessage, PromptMessageContent, PromptMessageRole};
use rmcp::mcp_core::resource::ResourceContents;

#[test]
fn image_messages_need_base64_data_and_an_image_type() {
    let ok = PromptMessage::new_image(PromptMessageRole::User, "aGVsbG8=".to_string(), "image/png".to_string(), None)
        .unwrap();
    match ok.content {
        PromptMessageContent::Image { image } => {
            assert_eq!(image.data, "aGVsbG8=");
            assert_eq!(image.mime_type, "image/png");
        }
        _ => panic!("expected an image"),
    }
    let e = PromptMessage::new_image(PromptMessageRole::User, "not base64!".to_string(), "image/png".to_string(), None)
        .unwrap_err();
    assert_eq!(e, PromptError::InvalidParameters("Image data must be valid base64".to_string()));
    let e = PromptMessage::new_image(PromptMessageRole::User, "aGVsbG8=".to_string(), "text/plain".to_string(), None)
        .unwrap_err();
    assert_eq!(
        e,
        PromptError::InvalidParameters("MIME type must be a valid image type (e.g. image/jpeg)".to_string())
    );
    assert_eq!(e.to_string(), "Invalid parameters: MIME type must be a valid image type (e.g. image/jpeg)");
}

#[test]
fn image_checks_run_on_the_decoded_result() {
    let r = PromptMessage::new_image_decoded(
        PromptMessageRole::Assistant,
        "x".to_string(),
        "image/gif".to_string(),
        None,
        Some(vec![1, 2]),
    );
    assert!(r.is_ok());
    let r = PromptMessage::new_image_decoded(PromptMessageRole::Assistant, "x".to_string(), "image/gif".to_string(), None, None);
    assert_eq!(r.unwrap_err(), PromptError::InvalidParameters("Image data must be valid base64".to_string()));
}

#[test]
fn resource_messages_default_missing_text() {
    let m = PromptMessage::new_resource(PromptMessageRole::User, "u".to_string(), "text/md".to_string(), None, None);
    match m.content {
        PromptMessageContent::Resource { resource } => assert_eq!(
            resource.resource,
            ResourceContents::TextResourceContents {
                uri: "u".to_string(),
                mime_type: Some("text/md".to_string()),
                text: String::new(),
            }
        ),
        _ => panic!("expected a resource"),
    }
    let t = PromptMessage::new_text(PromptMessageRole::Assistant, "hi");
    assert_eq!(t.role, PromptMessageRole::Assistant);
}

#[test]
fn handler_error_texts() {
    assert_eq!(ToolError::ExecutionError("x".to_string()).to_string(), "Execution failed: x");
    assert_eq!(ToolError::SchemaError("x".to_string()).to_string(), "Schema error: x");
    assert_eq!(ResourceError::NotFound("x".to_string()).to_string(), "Resource not found: x");
    assert_eq!(PromptError::NotFound("x".to_string()).to_string(), "Prompt not found: x");
}
