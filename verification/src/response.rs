//! The response values the error model hands to the HTTP layer.
//!
//! The HTTP machinery itself lives outside this crate; here a response is
//! just what the error model needs to state: a status code, an optional
//! content type, and a body.

use vstd::prelude::*;

use crate::status::StatusCode;

verus! {

/// What a response holds.
#[verifier::ext_equal]
pub struct SpecResponse {
    /// The status code.
    pub status: StatusCode,
    /// The content type, when one was set.
    pub content_type: Option<Seq<char>>,
    /// The body text.
    pub body: Seq<char>,
}

/// A bare response: a status code, an optional content type, and a body.
pub struct Response {
    status: StatusCode,
    content_type: Option<String>,
    body: String,
}

impl View for Response {
    type V = SpecResponse;

    closed spec fn view(&self) -> SpecResponse {
        SpecResponse {
            status: self.status,
            content_type: match self.content_type {
                Some(ct) => Some(ct@),
                None => None,
            },
            body: self.body@,
        }
    }
}

impl Response {
    /// An empty response under the given status code.
    pub fn new(status: StatusCode) -> (r: Response)
        ensures
            r@.status == status,
            r@.content_type is None,
            r@.body == Seq::<char>::empty(),
    {
        Response { status, content_type: None, body: String::new() }
    }

    /// The same response with this body.
    pub fn with_body(self, body: String) -> (r: Response)
        ensures
            r@ == (SpecResponse { body: body@, ..self@ }),
    {
        Response { body, ..self }
    }

    /// The same response with this content type.
    pub fn with_content_type(self, content_type: String) -> (r: Response)
        ensures
            r@ == (SpecResponse { content_type: Some(content_type@), ..self@ }),
    {
        Response { content_type: Some(content_type), ..self }
    }

    /// The status code.
    pub fn status(&self) -> (r: StatusCode)
        ensures
            r == self@.status,
    {
        self.status
    }

    /// The content type, when one was set.
    pub fn content_type(&self) -> (r: &Option<String>)
        ensures
            r matches Some(ct) ==> self@.content_type == Some(ct@),
            r is None <==> self@.content_type is None,
    {
        &self.content_type
    }

    /// The body text.
    pub fn body(&self) -> (r: &String)
        ensures
            r@ == self@.body,
    {
        &self.body
    }
}

/// A value the HTTP layer can send back as a response.
pub trait IntoResponse {
    /// Consume the value and build the response.
    fn into_response(self) -> Response;
}

impl IntoResponse for Response {
    fn into_response(self) -> Response {
        self
    }
}

impl IntoResponse for String {
    /// The text as a 200 response body.
    fn into_response(self) -> Response {
        let mut r = Response::new(StatusCode::ok());
        r = r.with_body(self);
        r
    }
}

impl IntoResponse for &'static str {
    /// The text as a 200 response body.
    fn into_response(self) -> Response {
        Response::new(StatusCode::ok()).with_body(String::from_str(self))
    }
}

impl IntoResponse for () {
    /// An empty 200 response.
    fn into_response(self) -> Response {
        Response::new(StatusCode::ok())
    }
}

} // verus!
