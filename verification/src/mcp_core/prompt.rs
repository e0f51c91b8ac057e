//! Prompts: named, parameterised conversation starters and the messages they produce.
use vstd::prelude::*;

use super::content::{Annotations, EmbeddedResource, ImageContent};
use super::handler::PromptError;
use super::resource::ResourceContents;
use crate::text::{chars_of, starts_with, starts_with_chars};
use base64::Engine;

verus! {

/// A prompt that can be used to generate text from a model.
#[derive(Debug, Clone, PartialEq)]
pub struct Prompt {
    pub name: String,
    pub description: Option<String>,
    pub arguments: Option<Vec<PromptArgument>>,
}

impl Prompt {
    /// A prompt with the given name, description and arguments.
    pub fn new(name: &str, description: Option<&str>, arguments: Option<Vec<PromptArgument>>) -> (r: Self)
        ensures
            r.name@ == name@,
            r.description is Some <==> description is Some,
            description matches Some(d) ==> r.description.unwrap()@ == d@,
            r.arguments == arguments,
    {
        Prompt {
            name: name.to_owned(),
            description: match description {
                Some(d) => Some(d.to_owned()),
                None => None,
            },
            arguments,
        }
    }
}

/// An argument that can be passed to customise a prompt.
#[derive(Debug, PartialEq)]
pub struct PromptArgument {
    pub name: String,
    pub description: Option<String>,
    pub required: Option<bool>,
}

/// Who sends a message in a prompt conversation.
#[derive(Debug, Clone, Copy, PartialEq, Eq, Structural)]
pub enum PromptMessageRole {
    User,
    Assistant,
}

/// What a prompt message carries.
#[derive(Debug, PartialEq)]
pub enum PromptMessageContent {
    Text { text: String },
    Image { image: ImageContent },
    Resource { resource: EmbeddedResource },
}

/// A message in a prompt conversation.
#[derive(Debug, PartialEq)]
pub struct PromptMessage {
    pub role: PromptMessageRole,
    pub content: PromptMessageContent,
}

/// The bytes that `base64`'s standard engine (standard alphabet, padding
/// required) decodes `data` to, or `None` where it refuses `data`.
pub uninterp spec fn base64_standard_decode(data: Seq<char>) -> Option<Seq<u8>>;

/// Decodes `data` with `base64::engine::general_purpose::STANDARD`. The
/// contract claims only that the result is what the engine gives for `data`:
/// the decoded bytes, or `None` where the engine returns an error.
#[verifier::external_body]
fn decode_base64_standard(data: &str) -> (r: Option<Vec<u8>>)
    ensures
        match r {
            Some(v) => base64_standard_decode(data@) == Some(v@),
            None => base64_standard_decode(data@) is None,
        },
{
    match base64::engine::general_purpose::STANDARD.decode(data) {
        Ok(v) => Some(v),
        Err(_) => None,
    }
}

/// The text of the error for image data that is not base64.
pub open spec fn bad_base64_text() -> Seq<char> {
    "Image data must be valid base64"@
}

/// The text of the error for a MIME type that is not an image type.
pub open spec fn bad_image_mime_text() -> Seq<char> {
    "MIME type must be a valid image type (e.g. image/jpeg)"@
}

impl PromptMessage {
    /// A text message.
    pub fn new_text(role: PromptMessageRole, text: &str) -> (r: Self)
        ensures
            r.role == role,
            r.content matches PromptMessageContent::Text { text: t } && t@ == text@,
    {
        PromptMessage { role, content: PromptMessageContent::Text { text: text.to_owned() } }
    }

    /// An image message built once the data has been decoded: `decoded` is
    /// what the base64 engine gave for `data`. It fails when the data did not
    /// decode, and otherwise when the MIME type does not begin with `image/`.
    pub fn new_image_decoded(
        role: PromptMessageRole,
        data: String,
        mime_type: String,
        annotations: Option<Annotations>,
        decoded: Option<Vec<u8>>,
    ) -> (r: Result<Self, PromptError>)
        ensures
            decoded is None ==> (r matches Err(PromptError::InvalidParameters(m)) && m@ == bad_base64_text()),
            decoded is Some && !starts_with(mime_type@, "image/"@) ==> (r matches Err(
                PromptError::InvalidParameters(m),
            ) && m@ == bad_image_mime_text()),
            decoded is Some && starts_with(mime_type@, "image/"@) ==> r == Ok::<Self, PromptError>(
                PromptMessage {
                    role,
                    content: PromptMessageContent::Image { image: ImageContent { data, mime_type, annotations } },
                },
            ),
    {
        if decoded.is_none() {
            return Err(PromptError::InvalidParameters("Image data must be valid base64".to_owned()));
        }
        let m = chars_of(mime_type.as_str());
        let p = chars_of("image/");
        if !starts_with_chars(m.as_slice(), p.as_slice()) {
            return Err(
                PromptError::InvalidParameters("MIME type must be a valid image type (e.g. image/jpeg)".to_owned()),
            );
        }
        Ok(
            PromptMessage {
                role,
                content: PromptMessageContent::Image { image: ImageContent { data, mime_type, annotations } },
            },
        )
    }

    /// An image message: the data must be valid standard base64 and the MIME
    /// type must begin with `image/`.
    pub fn new_image(role: PromptMessageRole, data: String, mime_type: String, annotations: Option<Annotations>) -> (r:
        Result<Self, PromptError>)
        ensures
            base64_standard_decode(data@) is None ==> (r matches Err(PromptError::InvalidParameters(m)) && m@
                == bad_base64_text()),
            base64_standard_decode(data@) is Some && !starts_with(mime_type@, "image/"@) ==> (r matches Err(
                PromptError::InvalidParameters(m),
            ) && m@ == bad_image_mime_text()),
            base64_standard_decode(data@) is Some && starts_with(mime_type@, "image/"@) ==> r == Ok::<
                Self,
                PromptError,
            >(
                PromptMessage {
                    role,
                    content: PromptMessageContent::Image { image: ImageContent { data, mime_type, annotations } },
                },
            ),
    {
        let decoded = decode_base64_standard(data.as_str());
        Self::new_image_decoded(role, data, mime_type, annotations, decoded)
    }

    /// A message embedding a text resource; missing text becomes the empty string.
    pub fn new_resource(
        role: PromptMessageRole,
        uri: String,
        mime_type: String,
        text: Option<String>,
        annotations: Option<Annotations>,
    ) -> (r: Self)
        ensures
            r.role == role,
            r.content matches PromptMessageContent::Resource { resource: e } && e.annotations == annotations
                && (e.resource matches ResourceContents::TextResourceContents { uri: u, mime_type: m, text: t }
                && u == uri && m == Some(mime_type) && t@ == match text {
                Some(t) => t@,
                None => Seq::<char>::empty(),
            }),
    {
        let text = match text {
            Some(t) => t,
            None => String::new(),
        };
        PromptMessage {
            role,
            content: PromptMessageContent::Resource {
                resource: EmbeddedResource {
                    resource: ResourceContents::TextResourceContents { uri, mime_type: Some(mime_type), text },
                    annotations,
                },
            },
        }
    }
}

/// A template for a prompt.
#[derive(Debug)]
pub struct PromptTemplate {
    pub id: String,
    pub template: String,
    pub arguments: Vec<PromptArgumentTemplate>,
}

/// A template for a prompt argument; it carries what a `PromptArgument` carries.
#[derive(Debug)]
pub struct PromptArgumentTemplate {
    pub name: String,
    pub description: Option<String>,
    pub required: Option<bool>,
}

} // verus!
