use rmcp::mcp_core::content::{priority_bits_in_range, Annotations, Content, TextContent, Timestamp};
use rmcp::mcp_core::resource::ResourceContents;
use rmcp::mcp_core::role::Role;

fn p(x: f32) -> u32 {
    x.to_bits()
}

#[test]
fn test_content_text() {
    let content = Content::text("hello");
    assert_eq!(content.as_text(), Some("hello"));
    assert_eq!(content.as_image(), None);
}

#[test]
fn test_content_image() {
    let content = Content::image("data", "image/png");
    assert_eq!(content.as_text(), None);
    assert_eq!(content.as_image(), Some(("data", "image/png")));
}

#[test]
fn test_content_annotations_basic() {
    let content = Content::text("hello").with_audience(vec![Role::User]).with_priority(p(0.5));
    assert_eq!(content.audience(), Some(&vec![Role::User]));
    assert_eq!(content.priority(), Some(p(0.5)));
}

#[test]
fn test_content_annotations_order_independence() {
    let content1 = Content::text("hello").with_audience(vec![Role::User]).with_priority(p(0.5));
    let content2 = Content::text("hello").with_priority(p(0.5)).with_audience(vec![Role::User]);
    assert_eq!(content1.audience(), content2.audience());
    assert_eq!(content1.priority(), content2.priority());
}

#[test]
fn test_content_annotations_overwrite() {
    let content = Content::text("hello")
        .with_audience(vec![Role::User])
        .with_priority(p(0.5))
        .with_audience(vec![Role::Assistant])
        .with_priority(p(0.8));
    assert_eq!(content.audience(), Some(&vec![Role::Assistant]));
    assert_eq!(content.priority(), Some(p(0.8)));
}

#[test]
fn test_content_annotations_image() {
    let content = Content::image("data", "image/png").with_audience(vec![Role::User]).with_priority(p(0.5));
    assert_eq!(content.audience(), Some(&vec![Role::User]));
    assert_eq!(content.priority(), Some(p(0.5)));
}

#[test]
fn test_content_annotations_preservation() {
    let text_content = Content::text("hello").with_audience(vec![Role::User]).with_priority(p(0.5));
    match &text_content {
        Content::Text(TextContent { annotations, .. }) => {
            assert!(annotations.is_some());
            let ann = annotations.as_ref().unwrap();
            assert_eq!(ann.audience, Some(vec![Role::User]));
            assert_eq!(ann.priority, Some(p(0.5)));
        }
        _ => panic!("Expected Text content"),
    }
}

#[test]
fn test_unannotated() {
    let content = Content::text("hello").with_audience(vec![Role::User]).with_priority(p(0.5));
    let unannotated = content.unannotated();
    assert_eq!(unannotated.audience(), None);
    assert_eq!(unannotated.priority(), None);
}

#[test]
fn test_partial_annotations() {
    let content = Content::text("hello").with_priority(p(0.5));
    assert_eq!(content.audience(), None);
    assert_eq!(content.priority(), Some(p(0.5)));

    let content = Content::text("hello").with_audience(vec![Role::User]);
    assert_eq!(content.audience(), Some(&vec![Role::User]));
    assert_eq!(content.priority(), None);
}

#[test]
fn priority_range_is_zero_to_one() {
    assert!(priority_bits_in_range(p(0.0)));
    assert!(priority_bits_in_range(p(-0.0)));
    assert!(priority_bits_in_range(p(1.0)));
    assert!(priority_bits_in_range(p(0.25)));
    assert!(!priority_bits_in_range(p(1.5)));
    assert!(!priority_bits_in_range(p(-0.1)));
    assert!(!priority_bits_in_range(p(f32::NAN)));
}

#[test]
fn embedded_text_resource() {
    let content = Content::embedded_text("file:///a", "body");
    match &content {
        Content::Resource(e) => {
            assert_eq!(e.get_text(), "body");
            assert_eq!(
                e.resource,
                ResourceContents::TextResourceContents {
                    uri: "file:///a".to_string(),
                    mime_type: Some("text".to_string()),
                    text: "body".to_string(),
                }
            );
        }
        _ => panic!("Expected resource content"),
    }
    let blob = Content::resource(ResourceContents::BlobResourceContents {
        uri: "u".to_string(),
        mime_type: None,
        blob: "AAAA".to_string(),
    });
    match &blob {
        Content::Resource(e) => assert_eq!(e.get_text(), ""),
        _ => panic!("Expected resource content"),
    }
}

#[test]
fn resource_annotations() {
    let a = Annotations::for_resource(p(0.3), Timestamp { secs: 10, nanos: 5 });
    assert_eq!(a.priority, Some(p(0.3)));
    assert_eq!(a.audience, None);
    assert_eq!(a.timestamp, Some(Timestamp { secs: 10, nanos: 5 }));
}
