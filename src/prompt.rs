//! Prompts: named templates that a server offers for producing model input.
use crate::content::{Annotations, EmbeddedResource, ImageContent};
use crate::handler::PromptError;
use crate::protocol::opt_view;
use crate::resource::ResourceContents;
use vstd::prelude::*;
use vstd::string::*;

verus! {

/// A prompt that can be used to generate text from a model.
#[derive(Debug, Clone, PartialEq)]
pub struct Prompt {
    pub name: String,
    pub description: Option<String>,
    pub arguments: Option<Vec<PromptArgument>>,
}

impl Prompt {
    /// A prompt with a name, and optionally a description and arguments.
    pub fn new(name: String, description: Option<String>, arguments: Option<
        Vec<PromptArgument>,
    >) -> (r: Prompt)
        ensures
            r == (Prompt { name, description, arguments }),
    {
        Prompt { name, description, arguments }
    }
}

/// An argument that customises a prompt.
#[derive(Debug, Clone, PartialEq)]
pub struct PromptArgument {
    pub name: String,
    pub description: Option<String>,
    pub required: Option<bool>,
}

/// Who sends a message of a prompt conversation.
#[derive(Clone, Copy, Debug, PartialEq, Eq, Structural)]
pub enum PromptMessageRole {
    User,
    Assistant,
}

/// What a prompt message holds.
#[derive(Debug, Clone, PartialEq)]
pub enum PromptMessageContent {
    /// Plain text.
    Text { text: String },
    /// An image, with base64 data.
    Image { image: ImageContent },
    /// A resource of the server.
    Resource { resource: EmbeddedResource },
}

/// A message of a prompt conversation.
#[derive(Debug, Clone, PartialEq)]
pub struct PromptMessage {
    pub role: PromptMessageRole,
    pub content: PromptMessageContent,
}

/// The bytes that the standard base64 alphabet, with padding, decodes a text
/// to; `None` if the text is no such base64.
pub uninterp spec fn base64_decoded(text: Seq<char>) -> Option<Seq<u8>>;

/// Relies on `base64::engine::general_purpose::STANDARD.decode`: the outcome
/// depends on the text alone.
#[verifier::external_body]
fn decode_base64(text: &str) -> (r: Option<Vec<u8>>)
    ensures
        r is Some <==> base64_decoded(text@) is Some,
        r matches Some(b) ==> base64_decoded(text@) == Some(b@),
{
    base64::Engine::decode(&base64::engine::general_purpose::STANDARD, text).ok()
}

/// The prefix of every image MIME type.
pub open spec fn image_prefix() -> Seq<char> {
    "image/"@
}

/// Whether a text starts with a prefix.
pub fn starts_with(text: &str, prefix: &str) -> (r: bool)
    ensures
        r == (prefix@.len() <= text@.len() && text@.subrange(0, prefix@.len() as int) == prefix@),
{
    let n = prefix.unicode_len();
    if n > text.unicode_len() {
        return false;
    }
    let mut i: usize = 0;
    while i < n
        invariant
            n == prefix@.len(),
            n <= text@.len(),
            i <= n,
            text@.subrange(0, i as int) == prefix@.subrange(0, i as int),
        decreases n - i,
    {
        if text.get_char(i) != prefix.get_char(i) {
            assert(text@.subrange(0, n as int)[i as int] != prefix@[i as int]);
            return false;
        }
        assert(text@.subrange(0, i + 1) =~= text@.subrange(0, i as int).push(text@[i as int]));
        assert(prefix@.subrange(0, i + 1) =~= prefix@.subrange(0, i as int).push(prefix@[i as int]));
        i = i + 1;
    }
    assert(prefix@ =~= prefix@.subrange(0, n as int));
    true
}

/// An image message is accepted when its data decodes as base64 and its MIME
/// type starts with `image/`.
pub open spec fn image_accepted(decodes: bool, mime_type: Seq<char>) -> bool {
    decodes && image_prefix().len() <= mime_type.len() && mime_type.subrange(
        0,
        image_prefix().len() as int,
    ) == image_prefix()
}

impl PromptMessage {
    /// A text message.
    pub fn new_text(role: PromptMessageRole, text: String) -> (r: PromptMessage)
        ensures
            r == (PromptMessage { role, content: PromptMessageContent::Text { text } }),
    {
        Self { role, content: PromptMessageContent::Text { text } }
    }

    /// An image message, given whether its data decodes as base64: it is made
    /// when the data decodes and the MIME type starts with `image/`, and
    /// refused as invalid parameters otherwise.
    pub fn new_image_checked(
        role: PromptMessageRole,
        data: String,
        mime_type: String,
        annotations: Option<Annotations>,
        data_decodes: bool,
    ) -> (r: Result<PromptMessage, PromptError>)
        ensures
            image_accepted(data_decodes, mime_type@) ==> r == Ok::<PromptMessage, PromptError>(
                PromptMessage {
                    role,
                    content: PromptMessageContent::Image {
                        image: ImageContent { data, mime_type, annotations },
                    },
                },
            ),
            !image_accepted(data_decodes, mime_type@) ==> r matches Err(
                PromptError::InvalidParameters(_),
            ),
    {
        if !data_decodes {
            return Err(PromptError::InvalidParameters("Image data must be valid base64".to_string()));
        }
        proof {
            reveal_strlit("image/");
        }
        if !starts_with(mime_type.as_str(), "image/") {
            return Err(
                PromptError::InvalidParameters(
                    "MIME type must be a valid image type (e.g. image/jpeg)".to_string(),
                ),
            );
        }
        Ok(
            Self {
                role,
                content: PromptMessageContent::Image {
                    image: ImageContent { data, mime_type, annotations },
                },
            },
        )
    }

    /// An image message: made when the data decodes as standard base64 and
    /// the MIME type starts with `image/`, refused as invalid parameters
    /// otherwise.
    pub fn new_image(
        role: PromptMessageRole,
        data: String,
        mime_type: String,
        annotations: Option<Annotations>,
    ) -> (r: Result<PromptMessage, PromptError>)
        ensures
            image_accepted(base64_decoded(data@) is Some, mime_type@) ==> r == Ok::<
                PromptMessage,
                PromptError,
            >(
                PromptMessage {
                    role,
                    content: PromptMessageContent::Image {
                        image: ImageContent { data, mime_type, annotations },
                    },
                },
            ),
            !image_accepted(base64_decoded(data@) is Some, mime_type@) ==> r matches Err(
                PromptError::InvalidParameters(_),
            ),
    {
        let decodes = decode_base64(data.as_str()).is_some();
        Self::new_image_checked(role, data, mime_type, annotations, decodes)
    }

    /// A message that embeds a text resource; a missing text is empty.
    pub fn new_resource(
        role: PromptMessageRole,
        uri: String,
        mime_type: String,
        text: Option<String>,
        annotations: Option<Annotations>,
    ) -> (r: PromptMessage)
        ensures
            r.role == role,
            r.content matches PromptMessageContent::Resource { resource } && resource.annotations
                == annotations && (resource.resource matches ResourceContents::TextResourceContents {
                uri: u,
                mime_type: m,
                text: t,
            } && u == uri && m == Some(mime_type) && t@ == (match text {
                Some(s) => s@,
                None => Seq::<char>::empty(),
            })),
    {
        let text = match text {
            Some(t) => t,
            None => String::new(),
        };
        Self {
            role,
            content: PromptMessageContent::Resource {
                resource: EmbeddedResource {
                    resource: ResourceContents::TextResourceContents {
                        uri,
                        mime_type: Some(mime_type),
                        text,
                    },
                    annotations,
                },
            },
        }
    }
}

/// A template for a prompt.
#[derive(Debug)]
pub struct PromptTemplate {
    pub id: String,
    pub template: String,
    pub arguments: Vec<PromptArgumentTemplate>,
}

/// A template for a prompt argument.
#[derive(Debug)]
pub struct PromptArgumentTemplate {
    pub name: String,
    pub description: Option<String>,
    pub required: Option<bool>,
}

} // verus!
