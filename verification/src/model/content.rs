//! Content sent around agents, extensions and models, and the results of tool calls.
use vstd::prelude::*;

use crate::json::{json_text, to_json_text, JsonValue};
use crate::mcp_core::content::Annotations;
use crate::mcp_core::resource::ResourceContents;

verus! {

#[derive(Debug, Clone, PartialEq)]
pub struct RawTextContent {
    pub text: String,
}

/// An image, its data in base64.
#[derive(Debug, Clone, PartialEq)]
pub struct RawImageContent {
    pub data: String,
    pub mime_type: String,
}

/// A resource embedded in a message; `meta` is the object sent as `_meta`.
#[derive(Debug, PartialEq)]
pub struct RawEmbeddedResource {
    pub meta: Option<JsonValue>,
    pub resource: ResourceContents,
}

/// Audio, its data in base64.
#[derive(Debug, Clone, PartialEq)]
pub struct RawAudioContent {
    pub data: String,
    pub mime_type: String,
}

/// A resource a server can read: where it is and what it is.
#[derive(Debug, Clone, PartialEq)]
pub struct RawResource {
    pub uri: String,
    pub name: String,
    pub description: Option<String>,
    pub mime_type: Option<String>,
    pub size: Option<u32>,
}

impl RawResource {
    /// A resource with only its URI and name known.
    pub fn new(uri: &str, name: &str) -> (r: Self)
        ensures
            r.uri@ == uri@,
            r.name@ == name@,
            r.description is None,
            r.mime_type is None,
            r.size is None,
    {
        RawResource { uri: uri.to_owned(), name: name.to_owned(), description: None, mime_type: None, size: None }
    }
}

/// A value with optional annotations.
#[derive(Debug, PartialEq)]
pub struct Annotated<T> {
    pub raw: T,
    pub annotations: Option<Annotations>,
}

impl<T> Annotated<T> {
    /// The value without annotations.
    pub fn no_annotation(raw: T) -> (r: Self)
        ensures
            r.raw == raw,
            r.annotations is None,
    {
        Annotated { raw, annotations: None }
    }
}

pub type AudioContent = Annotated<RawAudioContent>;

/// A piece of content.
#[derive(Debug, PartialEq)]
pub enum RawContent {
    Text(RawTextContent),
    Image(RawImageContent),
    Resource(RawEmbeddedResource),
    Audio(AudioContent),
    ResourceLink(RawResource),
}

/// A piece of content with optional annotations.
pub type Content = Annotated<RawContent>;

impl RawContent {
    pub fn text(text: &str) -> (r: Self)
        ensures
            r matches RawContent::Text(t) && t.text@ == text@,
    {
        RawContent::Text(RawTextContent { text: text.to_owned() })
    }

    pub fn image(data: &str, mime_type: &str) -> (r: Self)
        ensures
            r matches RawContent::Image(i) && i.data@ == data@ && i.mime_type@ == mime_type@,
    {
        RawContent::Image(RawImageContent { data: data.to_owned(), mime_type: mime_type.to_owned() })
    }

    pub fn resource(resource: ResourceContents) -> (r: Self)
        ensures
            r == RawContent::Resource(RawEmbeddedResource { meta: None, resource }),
    {
        RawContent::Resource(RawEmbeddedResource { meta: None, resource })
    }

    /// An embedded text resource of MIME type `text`.
    pub fn embedded_text(uri: &str, content: &str) -> (r: Self)
        ensures
            r matches RawContent::Resource(e) && e.meta is None && (e.resource matches
                ResourceContents::TextResourceContents { uri: u, mime_type: Some(m), text: t } && u@ == uri@
                && m@ == "text"@ && t@ == content@),
    {
        RawContent::Resource(
            RawEmbeddedResource {
                meta: None,
                resource: ResourceContents::TextResourceContents {
                    uri: uri.to_owned(),
                    mime_type: Some("text".to_owned()),
                    text: content.to_owned(),
                },
            },
        )
    }

    pub fn as_text(&self) -> (r: Option<&RawTextContent>)
        ensures
            match self {
                RawContent::Text(t) => r == Some(t),
                _ => r is None,
            },
    {
        match self {
            RawContent::Text(t) => Some(t),
            _ => None,
        }
    }

    pub fn as_image(&self) -> (r: Option<&RawImageContent>)
        ensures
            match self {
                RawContent::Image(i) => r == Some(i),
                _ => r is None,
            },
    {
        match self {
            RawContent::Image(i) => Some(i),
            _ => None,
        }
    }

    pub fn as_resource(&self) -> (r: Option<&RawEmbeddedResource>)
        ensures
            match self {
                RawContent::Resource(e) => r == Some(e),
                _ => r is None,
            },
    {
        match self {
            RawContent::Resource(e) => Some(e),
            _ => None,
        }
    }

    pub fn as_resource_link(&self) -> (r: Option<&RawResource>)
        ensures
            match self {
                RawContent::ResourceLink(l) => r == Some(l),
                _ => r is None,
            },
    {
        match self {
            RawContent::ResourceLink(l) => Some(l),
            _ => None,
        }
    }

    pub fn resource_link(resource: RawResource) -> (r: Self)
        ensures
            r == RawContent::ResourceLink(resource),
    {
        RawContent::ResourceLink(resource)
    }
}

impl Annotated<RawContent> {
    /// Text content without annotations.
    pub fn text(text: &str) -> (r: Self)
        ensures
            r.annotations is None,
            r.raw matches RawContent::Text(t) && t.text@ == text@,
    {
        Annotated::no_annotation(RawContent::text(text))
    }

    /// Image content without annotations.
    pub fn image(data: &str, mime_type: &str) -> (r: Self)
        ensures
            r.annotations is None,
            r.raw matches RawContent::Image(i) && i.data@ == data@ && i.mime_type@ == mime_type@,
    {
        Annotated::no_annotation(RawContent::image(data, mime_type))
    }

    /// An embedded resource without annotations.
    pub fn resource(resource: ResourceContents) -> (r: Self)
        ensures
            r.annotations is None,
            r.raw == RawContent::Resource(RawEmbeddedResource { meta: None, resource }),
    {
        Annotated::no_annotation(RawContent::resource(resource))
    }

    /// An embedded text resource of MIME type `text`, without annotations.
    pub fn embedded_text(uri: &str, content: &str) -> (r: Self)
        ensures
            r.annotations is None,
            r.raw matches RawContent::Resource(e) && e.meta is None && (e.resource matches
                ResourceContents::TextResourceContents { uri: u, mime_type: Some(m), text: t } && u@ == uri@
                && m@ == "text"@ && t@ == content@),
    {
        Annotated::no_annotation(RawContent::embedded_text(uri, content))
    }

    /// A link to a resource, without annotations.
    pub fn resource_link(resource: RawResource) -> (r: Self)
        ensures
            r.annotations is None,
            r.raw == RawContent::ResourceLink(resource),
    {
        Annotated::no_annotation(RawContent::resource_link(resource))
    }

    pub fn as_text(&self) -> (r: Option<&RawTextContent>)
        ensures
            match self.raw {
                RawContent::Text(t) => r == Some(&t),
                _ => r is None,
            },
    {
        self.raw.as_text()
    }

    pub fn as_image(&self) -> (r: Option<&RawImageContent>)
        ensures
            match self.raw {
                RawContent::Image(i) => r == Some(&i),
                _ => r is None,
            },
    {
        self.raw.as_image()
    }

    pub fn as_resource(&self) -> (r: Option<&RawEmbeddedResource>)
        ensures
            match self.raw {
                RawContent::Resource(e) => r == Some(&e),
                _ => r is None,
            },
    {
        self.raw.as_resource()
    }

    pub fn as_resource_link(&self) -> (r: Option<&RawResource>)
        ensures
            match self.raw {
                RawContent::ResourceLink(l) => r == Some(&l),
                _ => r is None,
            },
    {
        self.raw.as_resource_link()
    }
}

/// The result of a tool call: content, structured content, or both.
#[derive(Debug, PartialEq)]
pub struct CallToolResult {
    pub content: Option<Vec<Content>>,
    pub structured_content: Option<JsonValue>,
    pub is_error: Option<bool>,
}

/// `c` is text content `s` without annotations.
pub open spec fn is_text_item(c: Content, s: Seq<char>) -> bool {
    &&& c.annotations is None
    &&& c.raw matches RawContent::Text(t) && t.text@ == s
}

/// `r` carries `value` as structured content with the error flag `is_error`, and
/// as content one text item holding the value's JSON text.
pub open spec fn is_structured_result(r: CallToolResult, value: JsonValue, is_error: bool) -> bool {
    &&& r.structured_content == Some(value)
    &&& r.is_error == Some(is_error)
    &&& r.content matches Some(cs) && cs@.len() == 1 && is_text_item(cs@[0], json_text(value))
}

/// The text of the error for a tool result that carries nothing.
pub open spec fn empty_result_text() -> Seq<char> {
    "either content or structured_content must be provided"@
}

impl CallToolResult {
    /// A successful result with unstructured content.
    pub fn success(content: Vec<Content>) -> (r: Self)
        ensures
            r == (CallToolResult { content: Some(content), structured_content: None, is_error: Some(false) }),
    {
        CallToolResult { content: Some(content), structured_content: None, is_error: Some(false) }
    }

    /// A failed result with unstructured content.
    pub fn error(content: Vec<Content>) -> (r: Self)
        ensures
            r == (CallToolResult { content: Some(content), structured_content: None, is_error: Some(true) }),
    {
        CallToolResult { content: Some(content), structured_content: None, is_error: Some(true) }
    }

    /// A successful result with structured content, and beside it one text item
    /// holding the value's JSON text.
    pub fn structured(value: JsonValue) -> (r: Self)
        ensures
            is_structured_result(r, value, false),
    {
        let text = to_json_text(&value);
        CallToolResult {
            content: Some(vec![Content::text(text.as_str())]),
            structured_content: Some(value),
            is_error: Some(false),
        }
    }

    /// A failed result with structured content, and beside it one text item
    /// holding the value's JSON text.
    pub fn structured_error(value: JsonValue) -> (r: Self)
        ensures
            is_structured_result(r, value, true),
    {
        let text = to_json_text(&value);
        CallToolResult {
            content: Some(vec![Content::text(text.as_str())]),
            structured_content: Some(value),
            is_error: Some(true),
        }
    }

    /// Refuses a result that carries neither content nor structured content.
    pub fn validate(&self) -> (r: Result<(), &'static str>)
        ensures
            (self.content is None && self.structured_content is None) ==> (r matches Err(m) && m@
                == empty_result_text()),
            !(self.content is None && self.structured_content is None) ==> r is Ok,
    {
        match (&self.content, &self.structured_content) {
            (None, None) => Err("either content or structured_content must be provided"),
            _ => Ok(()),
        }
    }

    /// A result read from its fields, refused when it carries nothing (what
    /// deserialising a result checks).
    pub fn from_parts(content: Option<Vec<Content>>, structured_content: Option<JsonValue>, is_error: Option<bool>) -> (r:
        Result<Self, &'static str>)
        ensures
            (content is None && structured_content is None) ==> (r matches Err(m) && m@ == empty_result_text()),
            !(content is None && structured_content is None) ==> r == Ok::<Self, &'static str>(
                CallToolResult { content, structured_content, is_error },
            ),
    {
        let result = CallToolResult { content, structured_content, is_error };
        match result.validate() {
            Ok(()) => Ok(result),
            Err(m) => Err(m),
        }
    }
}

} // verus!
