//! The contents of a resource.
use vstd::prelude::*;


verus! {

/// The contents of a resource: text, or binary data in base64.
#[derive(Debug, PartialEq)]
pub enum ResourceContents {
    TextResourceContents { uri: String, mime_type: Option<String>, text: String },
    BlobResourceContents { uri: String, mime_type: Option<String>, blob: String },
}

impl Clone for ResourceContents {
    fn clone(&self) -> (r: Self)
        ensures
            r == *self,
    {
        match self {
            ResourceContents::TextResourceContents { uri, mime_type, text } => {
                ResourceContents::TextResourceContents {
                    uri: uri.clone(),
                    mime_type: match mime_type {
                        Some(m) => Some(m.clone()),
                        None => None,
                    },
                    text: text.clone(),
                }
            },
            ResourceContents::BlobResourceContents { uri, mime_type, blob } => {
                ResourceContents::BlobResourceContents {
                    uri: uri.clone(),
                    mime_type: match mime_type {
                        Some(m) => Some(m.clone()),
                        None => None,
                    },
                    blob: blob.clone(),
                }
            },
        }
    }
}

} // verus!
