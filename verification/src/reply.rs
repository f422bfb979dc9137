//! The shape of an HTTP reply as the handlers produce it: a status code, a
//! body, and an optional `Location` header. The hosting server turns a
//! `HttpReply` into a real response; everything the handlers decide is here.

use vstd::prelude::*;
use vstd::string::StringExecFns;

verus! {

/// The payload of a successful shorten request: the submitted URL and the
/// full shortened URL built from the service's base URL and the short code.
pub struct ShortenedUrl {
    pub original: String,
    pub shortened: String,
}

/// Spec-level image of a `ShortenedUrl`.
#[verifier::ext_equal]
pub struct ShortenedUrlModel {
    pub original: Seq<char>,
    pub shortened: Seq<char>,
}

impl View for ShortenedUrl {
    type V = ShortenedUrlModel;

    open spec fn view(&self) -> ShortenedUrlModel {
        ShortenedUrlModel { original: self.original@, shortened: self.shortened@ }
    }
}

/// What a reply carries to the client.
pub enum Body {
    /// A plain message, sent as a JSON string.
    Message(String),
    /// The payload of a successful shorten request.
    Shortened(ShortenedUrl),
    /// No body (redirects carry only the `Location` header).
    Empty,
}

/// Spec-level image of a `Body`.
#[verifier::ext_equal]
pub enum BodyModel {
    Message(Seq<char>),
    Shortened(ShortenedUrlModel),
    Empty,
}

impl View for Body {
    type V = BodyModel;

    open spec fn view(&self) -> BodyModel {
        match self {
            Body::Message(m) => BodyModel::Message(m@),
            Body::Shortened(s) => BodyModel::Shortened(s@),
            Body::Empty => BodyModel::Empty,
        }
    }
}

/// One HTTP reply, as far as the handlers decide it.
pub struct HttpReply {
    pub status: u16,
    pub body: Body,
    pub location: Option<String>,
}

/// Spec-level image of a `HttpReply`.
#[verifier::ext_equal]
pub struct ReplyModel {
    pub status: u16,
    pub body: BodyModel,
    pub location: Option<Seq<char>>,
}

impl View for HttpReply {
    type V = ReplyModel;

    open spec fn view(&self) -> ReplyModel {
        ReplyModel {
            status: self.status,
            body: self.body@,
            location: match self.location {
                Option::Some(l) => Option::Some(l@),
                Option::None => Option::None,
            },
        }
    }
}

/// A reply that carries only a status and a plain message.
pub open spec fn message_model(status: u16, msg: Seq<char>) -> ReplyModel {
    ReplyModel { status, body: BodyModel::Message(msg), location: Option::None }
}

/// The fixed reply of the welcome endpoint.
pub open spec fn welcome_model() -> ReplyModel {
    message_model(200, "Welcome to Velox URL Shortener!"@)
}

/// The reply for a code with no stored mapping.
pub open spec fn not_found_model() -> ReplyModel {
    message_model(404, "URL not found"@)
}

/// The reply when the store is reachable.
pub open spec fn healthy_model() -> ReplyModel {
    message_model(200, "Healthy"@)
}

/// The reply when no store connection can be obtained.
pub open spec fn unhealthy_model() -> ReplyModel {
    message_model(503, "Unhealthy"@)
}

/// A permanent redirect to `target`.
pub open spec fn redirect_model(target: Seq<char>) -> ReplyModel {
    ReplyModel { status: 308, body: BodyModel::Empty, location: Option::Some(target) }
}

/// The reply of a successful shorten: the original URL together with
/// `base_url + "/" + code`.
pub open spec fn shorten_ok_model(original: Seq<char>, base_url: Seq<char>, code: Seq<char>) -> ReplyModel {
    ReplyModel {
        status: 200,
        body: BodyModel::Shortened(
            ShortenedUrlModel { original, shortened: base_url + "/"@ + code },
        ),
        location: Option::None,
    }
}

/// The welcome endpoint: a fixed informational message, status 200, no side
/// effects.
pub fn index() -> (r: HttpReply)
    ensures
        r@ == welcome_model(),
{
    HttpReply {
        status: 200,
        body: Body::Message(String::from_str("Welcome to Velox URL Shortener!")),
        location: Option::None,
    }
}

} // verus!
