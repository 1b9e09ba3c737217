//! Resources that a server offers to clients.
use crate::content::{now, Annotations, Priority, Timestamp, PRIORITY_SCALE};
use crate::framing::str_equals;
use crate::protocol::opt_view;
use vstd::prelude::*;

verus! {

/// The contents of a resource: text or a base64 blob.
#[derive(Clone, Debug, PartialEq)]
pub enum ResourceContents {
    TextResourceContents { uri: String, mime_type: Option<String>, text: String },
    BlobResourceContents { uri: String, mime_type: Option<String>, blob: String },
}

/// The mathematical model of [`ResourceContents`].
pub enum ResourceContentsModel {
    Text { uri: Seq<char>, mime_type: Option<Seq<char>>, text: Seq<char> },
    Blob { uri: Seq<char>, mime_type: Option<Seq<char>>, blob: Seq<char> },
}

impl View for ResourceContents {
    type V = ResourceContentsModel;

    open spec fn view(&self) -> ResourceContentsModel {
        match self {
            ResourceContents::TextResourceContents { uri, mime_type, text } => {
                ResourceContentsModel::Text { uri: uri@, mime_type: opt_view(*mime_type), text: text@ }
            },
            ResourceContents::BlobResourceContents { uri, mime_type, blob } => {
                ResourceContentsModel::Blob { uri: uri@, mime_type: opt_view(*mime_type), blob: blob@ }
            },
        }
    }
}

/// What `url::Url::parse` makes of a text: `None` if it is no URL, else the
/// URL's scheme and the last segment of its path, if its path has segments.
pub uninterp spec fn url_parts(text: Seq<char>) -> Option<(Seq<char>, Option<Seq<char>>)>;

/// What the library reads of a URL: its scheme and the last segment of its path.
pub struct UrlParts {
    pub scheme: String,
    pub last_segment: Option<String>,
}

/// Relies on `url::Url::parse`, with `Url::scheme` and `Url::path_segments`
/// on its result: the outcome depends on the text alone.
#[verifier::external_body]
pub(crate) fn parse_url(text: &str) -> (r: Option<UrlParts>)
    ensures
        r is Some <==> url_parts(text@) is Some,
        r matches Some(p) ==> url_parts(text@) == Some((p.scheme@, opt_view(p.last_segment))),
{
    let url = url::Url::parse(text).ok()?;
    let last_segment = url.path_segments().and_then(|segments| segments.last()).map(String::from);
    Some(UrlParts { scheme: url.scheme().to_string(), last_segment })
}

/// The text is no URL.
#[derive(Debug, Clone, PartialEq)]
pub struct InvalidUri {
    pub uri: String,
}

/// The MIME type that a resource gets: `text` or `blob` as given, anything
/// else `text`.
pub open spec fn resource_mime_type(given: Option<Seq<char>>) -> Seq<char> {
    match given {
        Some(t) => if t == "text"@ || t == "blob"@ {
            t
        } else {
            "text"@
        },
        None => "text"@,
    }
}

/// The name that a resource gets: the given one, else the last segment of its
/// URI's path, else `unnamed`.
pub open spec fn resource_name(given: Option<Seq<char>>, last_segment: Option<Seq<char>>) -> Seq<char> {
    match given {
        Some(n) => n,
        None => match last_segment {
            Some(s) => s,
            None => "unnamed"@,
        },
    }
}

/// The MIME type that resources get by default.
pub fn default_mime_type() -> (r: String)
    ensures
        r@ == "text"@,
{
    "text".to_string()
}

/// A valid resource MIME type as given, anything else the default.
fn checked_mime_type(given: Option<String>) -> (r: String)
    ensures
        r@ == resource_mime_type(opt_view(given)),
{
    match given {
        Some(t) => if str_equals(t.as_str(), "text") || str_equals(t.as_str(), "blob") {
            t
        } else {
            default_mime_type()
        },
        None => default_mime_type(),
    }
}

/// A resource, with its metadata.
#[derive(Debug, Clone, PartialEq)]
pub struct Resource {
    /// Where the resource lives, e.g. `file:///path/to/file`.
    pub uri: String,
    pub name: String,
    pub description: Option<String>,
    /// `text` or `blob`.
    pub mime_type: String,
    pub annotations: Option<Annotations>,
}

/// The priority of a resource, if set.
pub open spec fn resource_priority(r: Resource) -> Option<Priority> {
    match r.annotations {
        Some(a) => a.priority,
        None => None,
    }
}

impl Resource {
    /// A resource at a URI, from what the URI parsed to: none if it is no URL.
    /// The name is the given one, else the last segment of the URI's path,
    /// else `unnamed`; the MIME type is checked; the priority and the time are
    /// the given ones.
    pub fn from_parts(
        uri: String,
        parsed: Option<UrlParts>,
        mime_type: Option<String>,
        name: Option<String>,
        priority: Priority,
        timestamp: Timestamp,
    ) -> (r: Result<Resource, InvalidUri>)
        ensures
            parsed is None ==> (r matches Err(e) && e.uri == uri),
            parsed matches Some(p) ==> (r matches Ok(res) && res.uri == uri && res.name@
                == resource_name(opt_view(name), opt_view(p.last_segment)) && res.description
                is None && res.mime_type@ == resource_mime_type(opt_view(mime_type))
                && res.annotations == Some(
                (Annotations { audience: None, priority: Some(priority), timestamp: Some(timestamp) }),
            )),
    {
        let parts = match parsed {
            Some(p) => p,
            None => return Err(InvalidUri { uri }),
        };
        let name = match name {
            Some(n) => n,
            None => match parts.last_segment {
                Some(s) => s,
                None => "unnamed".to_string(),
            },
        };
        Ok(
            Resource {
                uri,
                name,
                description: None,
                mime_type: checked_mime_type(mime_type),
                annotations: Some(Annotations::for_resource(priority, timestamp)),
            },
        )
    }

    /// A resource at a URI, of priority zero, made now. It fails exactly when
    /// the URI is no URL.
    pub fn new(uri: &str, mime_type: Option<String>, name: Option<String>) -> (r: Result<
        Resource,
        InvalidUri,
    >)
        ensures
            r is Ok <==> url_parts(uri@) is Some,
            r matches Ok(res) ==> (res.uri@ == uri@ && res.name@ == resource_name(
                opt_view(name),
                url_parts(uri@).unwrap().1,
            ) && res.description is None && res.mime_type@ == resource_mime_type(
                opt_view(mime_type),
            ) && (res.annotations matches Some(a) && a.audience is None && (a.priority matches Some(
                p,
            ) && p@ == 0) && a.timestamp is Some)),
    {
        let parsed = parse_url(uri);
        Self::from_parts(uri.to_string(), parsed, mime_type, name, Priority::zero(), now())
    }

    /// A resource at a URI with a name and a priority, made now. It fails
    /// exactly when the URI is no URL.
    pub fn with_uri(uri: String, name: String, priority: Priority, mime_type: Option<String>) -> (r:
        Result<Resource, InvalidUri>)
        ensures
            r is Ok <==> url_parts(uri@) is Some,
            r matches Ok(res) ==> (res.uri == uri && res.name@ == name@ && res.description is None
                && res.mime_type@ == resource_mime_type(opt_view(mime_type)) && (
            res.annotations matches Some(a) && a.audience is None && a.priority == Some(priority)
                && a.timestamp is Some)),
    {
        let parsed = parse_url(uri.as_str());
        Self::from_parts(uri, parsed, mime_type, Some(name), priority, now())
    }

    /// Sets the resource's time to now.
    pub fn update_timestamp(&mut self)
        requires
            old(self).annotations is Some,
        ensures
            final(self).annotations matches Some(a) && a.timestamp is Some && a.audience == old(
                self,
            ).annotations.unwrap().audience && a.priority == old(self).annotations.unwrap().priority,
            final(self).uri == old(self).uri,
            final(self).name == old(self).name,
            final(self).description == old(self).description,
            final(self).mime_type == old(self).mime_type,
    {
        let t = now();
        let a = self.annotations.take().unwrap();
        self.annotations = Some(Annotations { audience: a.audience, priority: a.priority, timestamp: Some(t) });
    }

    /// The resource with another priority.
    pub fn with_priority(self, priority: Priority) -> (r: Resource)
        requires
            self.annotations is Some,
        ensures
            r.annotations == Some(
                (Annotations { priority: Some(priority), ..self.annotations.unwrap() }),
            ),
            r.uri == self.uri,
            r.name == self.name,
            r.description == self.description,
            r.mime_type == self.mime_type,
    {
        let Resource { uri, name, description, mime_type, annotations } = self;
        let a = annotations.unwrap();
        Resource {
            uri,
            name,
            description,
            mime_type,
            annotations: Some(Annotations { audience: a.audience, priority: Some(priority), timestamp: a.timestamp }),
        }
    }

    /// The resource marked active: its priority is one.
    pub fn mark_active(self) -> (r: Resource)
        requires
            self.annotations is Some,
        ensures
            r.annotations matches Some(a) && a.priority matches Some(p) && p@ == PRIORITY_SCALE
                && a.audience == self.annotations.unwrap().audience && a.timestamp
                == self.annotations.unwrap().timestamp,
            r.uri == self.uri,
            r.name == self.name,
            r.description == self.description,
            r.mime_type == self.mime_type,
    {
        self.with_priority(Priority::one())
    }

    /// Whether the resource is active: its priority is one.
    pub fn is_active(&self) -> (r: bool)
        ensures
            r == (resource_priority(*self) matches Some(p) && p@ == PRIORITY_SCALE),
    {
        match self.priority() {
            Some(p) => p.millionths() == PRIORITY_SCALE,
            None => false,
        }
    }

    /// The priority, if set.
    pub fn priority(&self) -> (r: Option<Priority>)
        ensures
            r == resource_priority(*self),
    {
        match &self.annotations {
            Some(a) => a.priority,
            None => None,
        }
    }

    /// The time, if set.
    pub fn timestamp(&self) -> (r: Option<Timestamp>)
        ensures
            r == (match self.annotations {
                Some(a) => a.timestamp,
                None => None,
            }),
    {
        match &self.annotations {
            Some(a) => a.timestamp,
            None => None,
        }
    }

    /// The scheme of the resource's URI; an error if the URI is no URL.
    pub fn scheme(&self) -> (r: Result<String, InvalidUri>)
        ensures
            r is Ok <==> url_parts(self.uri@) is Some,
            r matches Ok(s) ==> s@ == url_parts(self.uri@).unwrap().0,
    {
        match parse_url(self.uri.as_str()) {
            Some(p) => Ok(p.scheme),
            None => Err(InvalidUri { uri: self.uri.clone() }),
        }
    }

    /// The resource with a description.
    pub fn with_description(self, description: String) -> (r: Resource)
        ensures
            r == (Resource { description: Some(description), ..self }),
    {
        Resource { description: Some(description), ..self }
    }

    /// The resource with a MIME type: `text` or `blob` as given, anything else
    /// `text`.
    pub fn with_mime_type(self, mime_type: String) -> (r: Resource)
        ensures
            r.mime_type@ == resource_mime_type(Some(mime_type@)),
            r.uri == self.uri,
            r.name == self.name,
            r.description == self.description,
            r.annotations == self.annotations,
    {
        let m = checked_mime_type(Some(mime_type));
        Resource { mime_type: m, ..self }
    }
}

} // verus!
