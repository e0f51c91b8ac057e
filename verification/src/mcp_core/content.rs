//! Content sent around agents, extensions and models, with optional annotations
//! (audience, priority, time) that inform how it is used.
use vstd::prelude::*;

use super::resource::ResourceContents;
use super::role::Role;

verus! {

/// A moment in time: seconds since the Unix epoch and nanoseconds within the second.
#[derive(Debug, Clone, Copy, PartialEq, Eq, Structural)]
pub struct Timestamp {
    pub secs: i64,
    pub nanos: u32,
}

/// The bit pattern of an `f32` that lies in `0.0..=1.0`: from +0.0 up to 1.0, or -0.0.
pub open spec fn priority_in_range(bits: u32) -> bool {
    bits <= 0x3F80_0000u32 || bits == 0x8000_0000u32
}

/// Whether the `f32` with bit pattern `bits` lies in `0.0..=1.0`.
pub fn priority_bits_in_range(bits: u32) -> (r: bool)
    ensures
        r == priority_in_range(bits),
{
    bits <= 0x3F80_0000u32 || bits == 0x8000_0000u32
}

/// Hints on how content is meant to be used. A priority is held as the bit pattern of its `f32`.
#[derive(Debug, PartialEq)]
pub struct Annotations {
    pub audience: Option<Vec<Role>>,
    pub priority: Option<u32>,
    pub timestamp: Option<Timestamp>,
}

impl Annotations {
    /// Annotations for a resource: a priority in `0.0..=1.0` and a time.
    pub fn for_resource(priority: u32, timestamp: Timestamp) -> (r: Self)
        requires
            priority_in_range(priority),
        ensures
            r == (Annotations { audience: None, priority: Some(priority), timestamp: Some(timestamp) }),
    {
        Annotations { priority: Some(priority), timestamp: Some(timestamp), audience: None }
    }
}

#[derive(Debug, PartialEq)]
pub struct TextContent {
    pub text: String,
    pub annotations: Option<Annotations>,
}

#[derive(Debug, PartialEq)]
pub struct ImageContent {
    pub data: String,
    pub mime_type: String,
    pub annotations: Option<Annotations>,
}

#[derive(Debug, PartialEq)]
pub struct EmbeddedResource {
    pub resource: ResourceContents,
    pub annotations: Option<Annotations>,
}

impl EmbeddedResource {
    /// The text of the resource, or the empty string for binary contents.
    pub fn get_text(&self) -> (r: String)
        ensures
            r@ == match self.resource {
                ResourceContents::TextResourceContents { text, .. } => text@,
                _ => Seq::<char>::empty(),
            },
    {
        match &self.resource {
            ResourceContents::TextResourceContents { text, .. } => text.clone(),
            _ => String::new(),
        }
    }
}

/// A piece of content: text, an image, or an embedded resource.
#[derive(Debug, PartialEq)]
pub enum Content {
    Text(TextContent),
    Image(ImageContent),
    Resource(EmbeddedResource),
}

/// The annotations of a piece of content.
pub open spec fn annotations_of(c: Content) -> Option<Annotations> {
    match c {
        Content::Text(t) => t.annotations,
        Content::Image(i) => i.annotations,
        Content::Resource(r) => r.annotations,
    }
}

/// The content with its annotations replaced by `a`.
pub open spec fn with_annotations(c: Content, a: Option<Annotations>) -> Content {
    match c {
        Content::Text(t) => Content::Text(TextContent { text: t.text, annotations: a }),
        Content::Image(i) => Content::Image(ImageContent { data: i.data, mime_type: i.mime_type, annotations: a }),
        Content::Resource(r) => Content::Resource(EmbeddedResource { resource: r.resource, annotations: a }),
    }
}

/// The audience of content once set to `audience`; the rest of its annotations stay.
pub open spec fn set_audience(a: Option<Annotations>, audience: Vec<Role>) -> Option<Annotations> {
    match a {
        Some(a) => Some(Annotations { audience: Some(audience), priority: a.priority, timestamp: a.timestamp }),
        None => Some(Annotations { audience: Some(audience), priority: None, timestamp: None }),
    }
}

/// The priority of content once set to `priority`; the rest of its annotations stay.
pub open spec fn set_priority(a: Option<Annotations>, priority: u32) -> Option<Annotations> {
    match a {
        Some(a) => Some(Annotations { audience: a.audience, priority: Some(priority), timestamp: a.timestamp }),
        None => Some(Annotations { audience: None, priority: Some(priority), timestamp: None }),
    }
}

/// The audience of content.
pub open spec fn audience_of(c: Content) -> Option<Vec<Role>> {
    match annotations_of(c) {
        Some(a) => a.audience,
        None => None,
    }
}

/// The priority of content, as the bit pattern of its `f32`.
pub open spec fn priority_of(c: Content) -> Option<u32> {
    match annotations_of(c) {
        Some(a) => a.priority,
        None => None,
    }
}

impl Content {
    /// Text content without annotations.
    pub fn text(text: &str) -> (r: Self)
        ensures
            r matches Content::Text(t) && t.text@ == text@ && t.annotations is None,
    {
        Content::Text(TextContent { text: text.to_owned(), annotations: None })
    }

    /// Image content without annotations.
    pub fn image(data: &str, mime_type: &str) -> (r: Self)
        ensures
            r matches Content::Image(i) && i.data@ == data@ && i.mime_type@ == mime_type@ && i.annotations is None,
    {
        Content::Image(ImageContent { data: data.to_owned(), mime_type: mime_type.to_owned(), annotations: None })
    }

    /// An embedded resource without annotations.
    pub fn resource(resource: ResourceContents) -> (r: Self)
        ensures
            r == Content::Resource(EmbeddedResource { resource, annotations: None }),
    {
        Content::Resource(EmbeddedResource { resource, annotations: None })
    }

    /// An embedded text resource of MIME type `text`.
    pub fn embedded_text(uri: &str, content: &str) -> (r: Self)
        ensures
            r matches Content::Resource(e) && e.annotations is None && (e.resource matches
                ResourceContents::TextResourceContents { uri: u, mime_type: Some(m), text: t } && u@
                == uri@ && m@ == "text"@ && t@ == content@),
    {
        proof {
            reveal_strlit("text");
        }
        Content::Resource(
            EmbeddedResource {
                resource: ResourceContents::TextResourceContents {
                    uri: uri.to_owned(),
                    mime_type: Some("text".to_owned()),
                    text: content.to_owned(),
                },
                annotations: None,
            },
        )
    }

    /// The text, if this is text content.
    pub fn as_text(&self) -> (r: Option<&str>)
        ensures
            r matches Some(s) ==> (*self matches Content::Text(t) && t.text@ == s@),
            r is None ==> !(*self is Text),
    {
        match self {
            Content::Text(text) => Some(text.text.as_str()),
            _ => None,
        }
    }

    /// The data and MIME type, if this is image content.
    pub fn as_image(&self) -> (r: Option<(&str, &str)>)
        ensures
            r matches Some((d, m)) ==> (*self matches Content::Image(i) && i.data@ == d@ && i.mime_type@ == m@),
            r is None ==> !(*self is Image),
    {
        match self {
            Content::Image(image) => Some((image.data.as_str(), image.mime_type.as_str())),
            _ => None,
        }
    }

    /// Sets the audience; the other annotations stay.
    pub fn with_audience(self, audience: Vec<Role>) -> (r: Self)
        ensures
            r == with_annotations(self, set_audience(annotations_of(self), audience)),
    {
        match self {
            Content::Text(t) => Content::Text(
                TextContent { text: t.text, annotations: Some(add_audience(t.annotations, audience)) },
            ),
            Content::Image(i) => Content::Image(
                ImageContent {
                    data: i.data,
                    mime_type: i.mime_type,
                    annotations: Some(add_audience(i.annotations, audience)),
                },
            ),
            Content::Resource(e) => Content::Resource(
                EmbeddedResource { resource: e.resource, annotations: Some(add_audience(e.annotations, audience)) },
            ),
        }
    }

    /// Sets the priority (the bit pattern of an `f32` in `0.0..=1.0`); the other annotations stay.
    pub fn with_priority(self, priority: u32) -> (r: Self)
        requires
            priority_in_range(priority),
        ensures
            r == with_annotations(self, set_priority(annotations_of(self), priority)),
    {
        match self {
            Content::Text(t) => Content::Text(
                TextContent { text: t.text, annotations: Some(add_priority(t.annotations, priority)) },
            ),
            Content::Image(i) => Content::Image(
                ImageContent {
                    data: i.data,
                    mime_type: i.mime_type,
                    annotations: Some(add_priority(i.annotations, priority)),
                },
            ),
            Content::Resource(e) => Content::Resource(
                EmbeddedResource { resource: e.resource, annotations: Some(add_priority(e.annotations, priority)) },
            ),
        }
    }

    /// The audience, if set.
    pub fn audience(&self) -> (r: Option<&Vec<Role>>)
        ensures
            r matches Some(v) ==> audience_of(*self) == Some(*v),
            r is None ==> audience_of(*self) is None,
    {
        let a = match self {
            Content::Text(t) => &t.annotations,
            Content::Image(i) => &i.annotations,
            Content::Resource(e) => &e.annotations,
        };
        match a {
            Some(a) => match &a.audience {
                Some(v) => Some(v),
                None => None,
            },
            None => None,
        }
    }

    /// The priority, if set, as the bit pattern of its `f32`.
    pub fn priority(&self) -> (r: Option<u32>)
        ensures
            r == priority_of(*self),
    {
        let a = match self {
            Content::Text(t) => &t.annotations,
            Content::Image(i) => &i.annotations,
            Content::Resource(e) => &e.annotations,
        };
        match a {
            Some(a) => a.priority,
            None => None,
        }
    }

    /// The same content without annotations.
    pub fn unannotated(&self) -> (r: Self)
        ensures
            r matches Content::Text(t) ==> (*self matches Content::Text(s) && t.text@ == s.text@),
            r matches Content::Image(t) ==> (*self matches Content::Image(s) && t.data@ == s.data@ && t.mime_type@
                == s.mime_type@),
            r matches Content::Resource(t) ==> (*self matches Content::Resource(s) && t.resource == s.resource),
            annotations_of(r) is None,
            (r is Text) == (*self is Text) && (r is Image) == (*self is Image),
    {
        match self {
            Content::Text(text) => Content::text(text.text.as_str()),
            Content::Image(image) => Content::image(image.data.as_str(), image.mime_type.as_str()),
            Content::Resource(resource) => Content::resource(resource.resource.clone()),
        }
    }
}

fn add_audience(a: Option<Annotations>, audience: Vec<Role>) -> (r: Annotations)
    ensures
        Some(r) == set_audience(a, audience),
{
    match a {
        Some(a) => Annotations { audience: Some(audience), priority: a.priority, timestamp: a.timestamp },
        None => Annotations { audience: Some(audience), priority: None, timestamp: None },
    }
}

fn add_priority(a: Option<Annotations>, priority: u32) -> (r: Annotations)
    ensures
        Some(r) == set_priority(a, priority),
{
    match a {
        Some(a) => Annotations { audience: a.audience, priority: Some(priority), timestamp: a.timestamp },
        None => Annotations { audience: None, priority: Some(priority), timestamp: None },
    }
}

/// Setting the audience and the priority gives the same content in either order.
pub proof fn lemma_annotations_order_independent(c: Content, audience: Vec<Role>, priority: u32)
    ensures
        with_annotations(
            with_annotations(c, set_audience(annotations_of(c), audience)),
            set_priority(annotations_of(with_annotations(c, set_audience(annotations_of(c), audience))), priority),
        ) == with_annotations(
            with_annotations(c, set_priority(annotations_of(c), priority)),
            set_audience(annotations_of(with_annotations(c, set_priority(annotations_of(c), priority))), audience),
        ),
{
}

/// A later audience or priority replaces an earlier one, and leaves the other annotation as it was.
pub proof fn lemma_annotations_overwrite(c: Content, a1: Vec<Role>, a2: Vec<Role>, p1: u32, p2: u32)
    ensures
        audience_of(with_annotations(c, set_audience(annotations_of(c), a1))) == Some(a1),
        priority_of(with_annotations(c, set_priority(annotations_of(c), p1))) == Some(p1),
        ({
            let c1 = with_annotations(c, set_audience(annotations_of(c), a1));
            let c2 = with_annotations(c1, set_audience(annotations_of(c1), a2));
            audience_of(c2) == Some(a2) && priority_of(c2) == priority_of(c)
        }),
        ({
            let c1 = with_annotations(c, set_priority(annotations_of(c), p1));
            let c2 = with_annotations(c1, set_priority(annotations_of(c1), p2));
            priority_of(c2) == Some(p2) && audience_of(c2) == audience_of(c)
        }),
{
}

} // verus!
