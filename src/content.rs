//! Content exchanged between agents, extensions and models, with optional
//! annotations that say who it is for, how much it matters and when it was
//! made.
use crate::resource::ResourceContents;
use crate::role::Role;
use vstd::prelude::*;

verus! {

/// How many steps make up a priority of one.
pub const PRIORITY_SCALE: u32 = 1_000_000;

/// A priority between zero and one, counted in millionths.
#[derive(Clone, Copy, Debug, PartialEq, Eq, Structural)]
pub struct Priority {
    millionths: u32,
}

impl View for Priority {
    type V = int;

    /// The priority in millionths.
    closed spec fn view(&self) -> int {
        self.millionths as int
    }
}

impl Priority {
    #[verifier::type_invariant]
    spec fn in_range(self) -> bool {
        self.millionths <= PRIORITY_SCALE
    }

    /// The priority of so many millionths; none above one.
    pub fn new(millionths: u32) -> (r: Option<Priority>)
        ensures
            r is Some <==> millionths <= PRIORITY_SCALE,
            r matches Some(p) ==> p@ == millionths,
    {
        if millionths <= PRIORITY_SCALE {
            Some(Priority { millionths })
        } else {
            None
        }
    }

    /// The lowest priority, zero.
    pub fn zero() -> (r: Priority)
        ensures
            r@ == 0,
    {
        Priority { millionths: 0 }
    }

    /// The highest priority, one.
    pub fn one() -> (r: Priority)
        ensures
            r@ == PRIORITY_SCALE,
    {
        Priority { millionths: PRIORITY_SCALE }
    }

    /// The priority in millionths: never more than one.
    pub fn millionths(&self) -> (r: u32)
        ensures
            r == self@,
            r <= PRIORITY_SCALE,
    {
        proof {
            use_type_invariant(self);
        }
        self.millionths
    }
}

/// A moment, in milliseconds since the Unix epoch.
#[derive(Clone, Copy, Debug, PartialEq, Eq, Structural)]
pub struct Timestamp {
    pub millis: i64,
}

/// Relies on `std::time::SystemTime::now` and chrono's conversion of it to
/// `DateTime<Utc>`, which also takes a clock before 1970: the current time;
/// nothing is known of its value.
#[verifier::external_body]
pub(crate) fn now() -> (r: Timestamp)
{
    let t = chrono::DateTime::<chrono::Utc>::from(std::time::SystemTime::now());
    Timestamp { millis: t.timestamp_millis() }
}

/// Who content is for, how much it matters, and when it was made.
#[derive(Clone, Debug, PartialEq)]
pub struct Annotations {
    pub audience: Option<Vec<Role>>,
    pub priority: Option<Priority>,
    pub timestamp: Option<Timestamp>,
}

impl Annotations {
    /// The annotations of a resource: a priority and a time, no audience.
    pub fn for_resource(priority: Priority, timestamp: Timestamp) -> (r: Annotations)
        ensures
            r == (Annotations { audience: None, priority: Some(priority), timestamp: Some(timestamp) }),
    {
        Annotations { priority: Some(priority), timestamp: Some(timestamp), audience: None }
    }
}

/// Text.
#[derive(Clone, Debug, PartialEq)]
pub struct TextContent {
    pub text: String,
    pub annotations: Option<Annotations>,
}

/// An image, as base64 data and a MIME type.
#[derive(Clone, Debug, PartialEq)]
pub struct ImageContent {
    pub data: String,
    pub mime_type: String,
    pub annotations: Option<Annotations>,
}

/// A resource carried inside content.
#[derive(Clone, Debug, PartialEq)]
pub struct EmbeddedResource {
    pub resource: ResourceContents,
    pub annotations: Option<Annotations>,
}

impl EmbeddedResource {
    /// The resource's text, or an empty text if it holds a blob.
    pub fn get_text(&self) -> (r: String)
        ensures
            self.resource matches ResourceContents::TextResourceContents { text, .. } ==> r@
                == text@,
            self.resource is BlobResourceContents ==> r@ == Seq::<char>::empty(),
    {
        match &self.resource {
            ResourceContents::TextResourceContents { text, .. } => text.clone(),
            _ => String::new(),
        }
    }
}

/// Content: text, an image or an embedded resource.
#[derive(Clone, Debug, PartialEq)]
pub enum Content {
    Text(TextContent),
    Image(ImageContent),
    Resource(EmbeddedResource),
}

/// The annotations of content.
pub open spec fn annotations_of(c: Content) -> Option<Annotations> {
    match c {
        Content::Text(t) => t.annotations,
        Content::Image(i) => i.annotations,
        Content::Resource(r) => r.annotations,
    }
}

/// Content with other annotations and everything else kept.
pub open spec fn with_annotations(c: Content, a: Option<Annotations>) -> Content {
    match c {
        Content::Text(t) => Content::Text(TextContent { annotations: a, ..t }),
        Content::Image(i) => Content::Image(ImageContent { annotations: a, ..i }),
        Content::Resource(r) => Content::Resource(EmbeddedResource { annotations: a, ..r }),
    }
}

/// The audience of content, if set.
pub open spec fn audience_of(c: Content) -> Option<Vec<Role>> {
    match annotations_of(c) {
        Some(a) => a.audience,
        None => None,
    }
}

/// The priority of content, if set.
pub open spec fn priority_of(c: Content) -> Option<Priority> {
    match annotations_of(c) {
        Some(a) => a.priority,
        None => None,
    }
}

/// The annotations with the audience set, and the rest kept.
pub open spec fn set_audience(a: Option<Annotations>, audience: Vec<Role>) -> Annotations {
    match a {
        Some(a) => Annotations { audience: Some(audience), ..a },
        None => Annotations { audience: Some(audience), priority: None, timestamp: None },
    }
}

/// The annotations with the priority set, and the rest kept.
pub open spec fn set_priority(a: Option<Annotations>, priority: Priority) -> Annotations {
    match a {
        Some(a) => Annotations { priority: Some(priority), ..a },
        None => Annotations { audience: None, priority: Some(priority), timestamp: None },
    }
}

/// A copy of a resource's contents.
pub fn copy_resource_contents(rc: &ResourceContents) -> (r: ResourceContents)
    ensures
        r@ == rc@,
{
    match rc {
        ResourceContents::TextResourceContents { uri, mime_type, text } => {
            ResourceContents::TextResourceContents {
                uri: uri.clone(),
                mime_type: copy_opt_string(mime_type),
                text: text.clone(),
            }
        },
        ResourceContents::BlobResourceContents { uri, mime_type, blob } => {
            ResourceContents::BlobResourceContents {
                uri: uri.clone(),
                mime_type: copy_opt_string(mime_type),
                blob: blob.clone(),
            }
        },
    }
}

/// A copy of an optional string.
pub fn copy_opt_string(s: &Option<String>) -> (r: Option<String>)
    ensures
        crate::protocol::opt_view(r) == crate::protocol::opt_view(*s),
{
    match s {
        Some(s) => Some(s.clone()),
        None => None,
    }
}

impl Content {
    /// Text content without annotations.
    pub fn text(text: String) -> (r: Content)
        ensures
            r == Content::Text(TextContent { text, annotations: None }),
    {
        Content::Text(TextContent { text, annotations: None })
    }

    /// Image content without annotations.
    pub fn image(data: String, mime_type: String) -> (r: Content)
        ensures
            r == Content::Image(ImageContent { data, mime_type, annotations: None }),
    {
        Content::Image(ImageContent { data, mime_type, annotations: None })
    }

    /// An embedded resource without annotations.
    pub fn resource(resource: ResourceContents) -> (r: Content)
        ensures
            r == Content::Resource(EmbeddedResource { resource, annotations: None }),
    {
        Content::Resource(EmbeddedResource { resource, annotations: None })
    }

    /// An embedded text resource at a URI, of MIME type `text`.
    pub fn embedded_text(uri: String, content: String) -> (r: Content)
        ensures
            r matches Content::Resource(e) && e.annotations is None && (
            e.resource matches ResourceContents::TextResourceContents {
                uri: u,
                mime_type: Some(m),
                text: t,
            } && u == uri && t == content && m@ == "text"@),
    {
        Content::Resource(
            EmbeddedResource {
                resource: ResourceContents::TextResourceContents {
                    uri,
                    mime_type: Some("text".to_string()),
                    text: content,
                },
                annotations: None,
            },
        )
    }

    /// The text, if this is text content.
    pub fn as_text(&self) -> (r: Option<&str>)
        ensures
            self matches Content::Text(t) ==> r matches Some(s) && s@ == t.text@,
            !(self is Text) ==> r is None,
    {
        match self {
            Content::Text(text) => Some(text.text.as_str()),
            _ => None,
        }
    }

    /// The data and MIME type, if this is image content.
    pub fn as_image(&self) -> (r: Option<(&str, &str)>)
        ensures
            self matches Content::Image(i) ==> r matches Some((d, m)) && d@ == i.data@ && m@
                == i.mime_type@,
            !(self is Image) ==> r is None,
    {
        match self {
            Content::Image(image) => Some((image.data.as_str(), image.mime_type.as_str())),
            _ => None,
        }
    }

    /// The content with its audience set; the other annotations stay.
    pub fn with_audience(self, audience: Vec<Role>) -> (r: Content)
        ensures
            r == with_annotations(self, Some(set_audience(annotations_of(self), audience))),
    {
        match self {
            Content::Text(t) => Content::Text(
                TextContent {
                    text: t.text,
                    annotations: Some(Self::annotated_audience(t.annotations, audience)),
                },
            ),
            Content::Image(i) => Content::Image(
                ImageContent {
                    data: i.data,
                    mime_type: i.mime_type,
                    annotations: Some(Self::annotated_audience(i.annotations, audience)),
                },
            ),
            Content::Resource(e) => Content::Resource(
                EmbeddedResource {
                    resource: e.resource,
                    annotations: Some(Self::annotated_audience(e.annotations, audience)),
                },
            ),
        }
    }

    fn annotated_audience(a: Option<Annotations>, audience: Vec<Role>) -> (r: Annotations)
        ensures
            r == set_audience(a, audience),
    {
        match a {
            Some(a) => Annotations { audience: Some(audience), priority: a.priority, timestamp: a.timestamp },
            None => Annotations { audience: Some(audience), priority: None, timestamp: None },
        }
    }

    fn annotated_priority(a: Option<Annotations>, priority: Priority) -> (r: Annotations)
        ensures
            r == set_priority(a, priority),
    {
        match a {
            Some(a) => Annotations { audience: a.audience, priority: Some(priority), timestamp: a.timestamp },
            None => Annotations { audience: None, priority: Some(priority), timestamp: None },
        }
    }

    /// The content with its priority set; the other annotations stay.
    pub fn with_priority(self, priority: Priority) -> (r: Content)
        ensures
            r == with_annotations(self, Some(set_priority(annotations_of(self), priority))),
    {
        match self {
            Content::Text(t) => Content::Text(
                TextContent {
                    text: t.text,
                    annotations: Some(Self::annotated_priority(t.annotations, priority)),
                },
            ),
            Content::Image(i) => Content::Image(
                ImageContent {
                    data: i.data,
                    mime_type: i.mime_type,
                    annotations: Some(Self::annotated_priority(i.annotations, priority)),
                },
            ),
            Content::Resource(e) => Content::Resource(
                EmbeddedResource {
                    resource: e.resource,
                    annotations: Some(Self::annotated_priority(e.annotations, priority)),
                },
            ),
        }
    }

    /// The audience, if set.
    pub fn audience(&self) -> (r: Option<&Vec<Role>>)
        ensures
            match audience_of(*self) {
                Some(a) => r matches Some(x) && *x == a,
                None => r is None,
            },
    {
        let annotations = match self {
            Content::Text(t) => &t.annotations,
            Content::Image(i) => &i.annotations,
            Content::Resource(e) => &e.annotations,
        };
        match annotations {
            Some(a) => match &a.audience {
                Some(x) => Some(x),
                None => None,
            },
            None => None,
        }
    }

    /// The priority, if set.
    pub fn priority(&self) -> (r: Option<Priority>)
        ensures
            r == priority_of(*self),
    {
        let annotations = match self {
            Content::Text(t) => &t.annotations,
            Content::Image(i) => &i.annotations,
            Content::Resource(e) => &e.annotations,
        };
        match annotations {
            Some(a) => a.priority,
            None => None,
        }
    }

    /// A copy of the content without annotations.
    pub fn unannotated(&self) -> (r: Content)
        ensures
            annotations_of(r) is None,
            self matches Content::Text(t) ==> r matches Content::Text(u) && u.text@ == t.text@,
            self matches Content::Image(i) ==> r matches Content::Image(j) && j.data@ == i.data@
                && j.mime_type@ == i.mime_type@,
            self matches Content::Resource(e) ==> r matches Content::Resource(f) && f.resource@
                == e.resource@,
    {
        match self {
            Content::Text(text) => Content::text(text.text.clone()),
            Content::Image(image) => Content::image(image.data.clone(), image.mime_type.clone()),
            Content::Resource(resource) => Content::resource(
                copy_resource_contents(&resource.resource),
            ),
        }
    }
}

} // verus!
