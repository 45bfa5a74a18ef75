//! The two shapes of HTTP traffic the service deals in, as plain values: the
//! requests it sends upstream and the response it gives its own caller.

use vstd::prelude::*;

verus! {

/// Name of the one form field of a translation request.
pub const TRANSLATION_FIELD: &'static str = "text";

/// Whether an HTTP status reports success: the range 200 to 299.
pub open spec fn is_success(status: u16) -> bool {
    200 <= status <= 299
}

/// Whether a status is one of the four that the service answers with.
pub open spec fn is_served_status(status: u16) -> bool {
    status == 200 || status == 400 || status == 404 || status == 429
}

/// The HTTP method of a request.
#[derive(Clone, Copy, Debug, PartialEq, Eq, Structural)]
pub enum Method {
    Get,
    Post,
}

/// A request to one of the two upstream services.
#[derive(Debug)]
pub enum Request {
    /// `GET url` without a body; the answer is read as a species record.
    Species { url: String },
    /// `POST url` with an `application/x-www-form-urlencoded` body whose one
    /// field, named `TRANSLATION_FIELD`, holds `text` as it is; the answer is
    /// read as a translation envelope.
    Translation { url: String, text: String },
}

/// What a `Request` is, with its strings as sequences of characters.
pub enum RequestView {
    Species { url: Seq<char> },
    Translation { url: Seq<char>, text: Seq<char> },
}

impl View for Request {
    type V = RequestView;

    open spec fn view(&self) -> RequestView {
        match *self {
            Request::Species { url } => RequestView::Species { url: url@ },
            Request::Translation { url, text } => RequestView::Translation {
                url: url@,
                text: text@,
            },
        }
    }
}

impl RequestView {
    /// The method: the species record is fetched, the text to translate is
    /// posted.
    pub open spec fn method(self) -> Method {
        match self {
            RequestView::Species { .. } => Method::Get,
            RequestView::Translation { .. } => Method::Post,
        }
    }

    /// The URL that the request goes to.
    pub open spec fn url(self) -> Seq<char> {
        match self {
            RequestView::Species { url } => url,
            RequestView::Translation { url, .. } => url,
        }
    }

    /// The one field of the form that makes the body, as name and value, or
    /// `None` for a request without a body.
    pub open spec fn form(self) -> Option<(Seq<char>, Seq<char>)> {
        match self {
            RequestView::Species { .. } => None,
            RequestView::Translation { text, .. } => Some((TRANSLATION_FIELD@, text)),
        }
    }
}

impl Request {
    /// The method to send the request with.
    pub fn method(&self) -> (method: Method)
        ensures
            method == self@.method(),
    {
        match self {
            Request::Species { .. } => Method::Get,
            Request::Translation { .. } => Method::Post,
        }
    }

    /// The URL to send the request to.
    pub fn url(&self) -> (url: &str)
        ensures
            url@ == self@.url(),
    {
        match self {
            Request::Species { url } => url.as_str(),
            Request::Translation { url, .. } => url.as_str(),
        }
    }

    /// The form field to send as the body, as name and value, if the
    /// request has a body.
    pub fn form(&self) -> (field: Option<(&str, &str)>)
        ensures
            match field {
                Some((name, value)) => self@.form() == Some((name@, value@)),
                None => self@.form() is None,
            },
    {
        match self {
            Request::Species { .. } => None,
            Request::Translation { text, .. } => Some((TRANSLATION_FIELD, text.as_str())),
        }
    }
}

impl PartialEq for Request {
    fn eq(&self, other: &Request) -> (r: bool) {
        match (self, other) {
            (Request::Species { url: a }, Request::Species { url: b }) => *a == *b,
            (
                Request::Translation { url: a, text: s },
                Request::Translation { url: b, text: t },
            ) => *a == *b && *s == *t,
            _ => false,
        }
    }
}

impl vstd::std_specs::cmp::PartialEqSpecImpl for Request {
    open spec fn obeys_eq_spec() -> bool {
        true
    }

    open spec fn eq_spec(&self, other: &Request) -> bool {
        self@ == other@
    }
}

/// The one content type the service answers with.
pub const JSON_CONTENT_TYPE: &'static str = "application/json";

/// The response the service gives to its own caller.
#[derive(Debug)]
pub struct Response {
    pub status: u16,
    pub content_type: String,
    pub body: String,
}

/// What a `Response` is, with its strings as sequences of characters.
pub struct ResponseView {
    pub status: u16,
    pub content_type: Seq<char>,
    pub body: Seq<char>,
}

impl View for Response {
    type V = ResponseView;

    open spec fn view(&self) -> ResponseView {
        ResponseView { status: self.status, content_type: self.content_type@, body: self.body@ }
    }
}

impl ResponseView {
    /// A response of content type JSON with the given status and body.
    pub open spec fn json(status: u16, body: Seq<char>) -> ResponseView {
        ResponseView { status, content_type: JSON_CONTENT_TYPE@, body }
    }
}

impl Response {
    /// A response of content type JSON with the given status and body.
    pub fn json(status: u16, body: String) -> (response: Response)
        ensures
            response@ == ResponseView::json(status, body@),
    {
        Response { status, content_type: JSON_CONTENT_TYPE.to_owned(), body }
    }
}

impl PartialEq for Response {
    fn eq(&self, other: &Response) -> (r: bool) {
        self.status == other.status && self.content_type == other.content_type && self.body
            == other.body
    }
}

impl vstd::std_specs::cmp::PartialEqSpecImpl for Response {
    open spec fn obeys_eq_spec() -> bool {
        true
    }

    open spec fn eq_spec(&self, other: &Response) -> bool {
        self@ == other@
    }
}

} // verus!
