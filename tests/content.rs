use mcp_core::content::{Content, Priority, TextContent};
use mcp_core::resource::ResourceContents;
use mcp_core::role::Role;

fn half() -> Priority {
    Priority::new(500_000).unwrap()
}

#[test]
fn test_content_text() {
    let content = Content::text("hello".to_string());
    assert_eq!(content.as_text(), Some("hello"));
    assert_eq!(content.as_image(), None);
}

#[test]
fn test_content_image() {
    let content = Content::image("data".to_string(), "image/png".to_string());
    assert_eq!(content.as_text(), None);
    assert_eq!(content.as_image(), Some(("data", "image/png")));
}

#[test]
fn test_content_annotations_basic() {
    let content = Content::text("hello".to_string())
        .with_audience(vec![Role::User])
        .with_priority(half());
    assert_eq!(content.audience(), Some(&vec![Role::User]));
    assert_eq!(content.priority(), Some(half()));
}

#[test]
fn test_content_annotations_order_independence() {
    let content1 = Content::text("hello".to_string())
        .with_audience(vec![Role::User])
        .with_priority(half());
    let content2 = Content::text("hello".to_string())
        .with_priority(half())
        .with_audience(vec![Role::User]);

    assert_eq!(content1.audience(), content2.audience());
    assert_eq!(content1.priority(), content2.priority());
}

#[test]
fn test_content_annotations_overwrite() {
    let content = Content::text("hello".to_string())
        .with_audience(vec![Role::User])
        .with_priority(half())
        .with_audience(vec![Role::Assistant])
        .with_priority(Priority::new(800_000).unwrap());

    assert_eq!(content.audience(), Some(&vec![Role::Assistant]));
    assert_eq!(content.priority(), Priority::new(800_000));
}

#[test]
fn test_content_annotations_image() {
    let content = Content::image("data".to_string(), "image/png".to_string())
        .with_audience(vec![Role::User])
        .with_priority(half());

    assert_eq!(content.audience(), Some(&vec![Role::User]));
    assert_eq!(content.priority(), Some(half()));
}

#[test]
fn test_content_annotations_preservation() {
    let text_content = Content::text("hello".to_string())
        .with_audience(vec![Role::User])
        .with_priority(half());

    match &text_content {
        Content::Text(TextContent { annotations, .. }) => {
            assert!(annotations.is_some());
            let ann = annotations.as_ref().unwrap();
            assert_eq!(ann.audience, Some(vec![Role::User]));
            assert_eq!(ann.priority, Some(half()));
        }
        _ => panic!("Expected Text content"),
    }
}

#[test]
fn test_unannotated() {
    let content = Content::text("hello".to_string())
        .with_audience(vec![Role::User])
        .with_priority(half());
    let unannotated = content.unannotated();
    assert_eq!(unannotated.audience(), None);
    assert_eq!(unannotated.priority(), None);
}

#[test]
fn test_partial_annotations() {
    let content = Content::text("hello".to_string()).with_priority(half());
    assert_eq!(content.audience(), None);
    assert_eq!(content.priority(), Some(half()));

    let content = Content::text("hello".to_string()).with_audience(vec![Role::User]);
    assert_eq!(content.audience(), Some(&vec![Role::User]));
    assert_eq!(content.priority(), None);
}

#[test]
fn priority_outside_range_is_rejected() {
    assert!(Priority::new(1_500_000).is_none());
    assert!(Priority::new(1_000_001).is_none());
    assert_eq!(Priority::new(1_000_000).map(|p| p.millionths()), Some(1_000_000));
    assert_eq!(Priority::new(0).map(|p| p.millionths()), Some(0));
}

#[test]
fn unannotated_keeps_embedded_resource() {
    let content = Content::embedded_text("file:///a.txt".to_string(), "body".to_string())
        .with_priority(half());
    let plain = content.unannotated();
    assert_eq!(plain.priority(), None);
    match plain {
        Content::Resource(e) => {
            assert_eq!(e.get_text(), "body");
            match e.resource {
                ResourceContents::TextResourceContents { uri, mime_type, .. } => {
                    assert_eq!(uri, "file:///a.txt");
                    assert_eq!(mime_type, Some("text".to_string()));
                }
                _ => panic!("expected text contents"),
            }
        }
        _ => panic!("expected a resource"),
    }
}

#[test]
fn blob_resource_has_empty_text() {
    let content = Content::resource(ResourceContents::BlobResourceContents {
        uri: "file:///a.bin".to_string(),
        mime_type: None,
        blob: "AAAA".to_string(),
    });
    match content {
        Content::Resource(e) => assert_eq!(e.get_text(), ""),
        _ => panic!("expected a resource"),
    }
}
