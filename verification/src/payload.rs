//! A binary payload carried over the wire in base64.
//!
//! Reading a request body and sending a response belong to the transport;
//! here stand the compute halves: decoding a body's bytes, encoding a
//! payload, and checking a request's content type.

use vstd::prelude::*;
use vstd::string::StringExecFns;

use base64::Engine;

use crate::error::Error;
use crate::response::{IntoResponse, Response};
use crate::status::StatusCode;

verus! {

/// What base64's standard-alphabet engine makes of input bytes: `None` for
/// input that is not valid base64, otherwise the decoded bytes.
pub uninterp spec fn base64_decoded(s: Seq<u8>) -> Option<Seq<u8>>;

/// The standard-alphabet, padded base64 rendering of bytes.
pub uninterp spec fn base64_encoded(b: Seq<u8>) -> Seq<char>;

/// What `str::parse::<mime::Mime>` yields of a content-type text: `None`
/// when it does not parse, otherwise its type, subtype, and optional suffix.
pub uninterp spec fn mime_parts(s: Seq<char>) -> Option<
    (Seq<char>, Seq<char>, Option<Seq<char>>),
>;

/// Relies on base64's `STANDARD` engine: decodes, rejecting input that is
/// not valid base64; the error is returned as its rendered text.
#[verifier::external_body]
fn base64_decode(data: &Vec<u8>) -> (r: Result<Vec<u8>, String>)
    ensures
        r is Ok <==> base64_decoded(data@) is Some,
        r matches Ok(v) ==> Some(v@) == base64_decoded(data@),
{
    base64::engine::general_purpose::STANDARD.decode(data).map_err(|err| err.to_string())
}

/// Relies on base64's `STANDARD` engine: the canonical encoding of the
/// bytes; empty input encodes to the empty string.
#[verifier::external_body]
fn base64_encode(data: &Vec<u8>) -> (r: String)
    ensures
        r@ == base64_encoded(data@),
        data@.len() == 0 ==> r@.len() == 0,
{
    base64::engine::general_purpose::STANDARD.encode(data)
}

/// Relies on `str::parse::<mime::Mime>`: the essence type, subtype and
/// suffix of a well-formed content type, and `None` otherwise.
#[verifier::external_body]
fn parse_mime(s: &str) -> (r: Option<(String, String, Option<String>)>)
    ensures
        r is Some <==> mime_parts(s@) is Some,
        r matches Some(p) ==> mime_parts(s@) == Some(
            (
                p.0@,
                p.1@,
                match p.2 {
                    Some(sfx) => Some(sfx@),
                    None => None,
                },
            ),
        ),
{
    match s.parse::<mime::Mime>() {
        Ok(m) => Some(
            (
                m.type_().as_str().to_owned(),
                m.subtype().as_str().to_owned(),
                m.suffix().map(|sfx| sfx.as_str().to_owned()),
            ),
        ),
        Err(_) => None,
    }
}

/// A binary payload encoded with `base64`.
#[derive(Debug, Clone, Eq, PartialEq)]
pub struct Base64<T>(pub T);

/// Whether a content type names a plain-text payload: its type is `text`,
/// and its subtype or its suffix is `plain`.
pub open spec fn spec_plain_text_type(s: Seq<char>) -> bool {
    mime_parts(s) matches Some(p) && p.0 == "text"@ && (p.1 == "plain"@ || p.2 == Some("plain"@))
}

impl Base64<Vec<u8>> {
    /// Whether a request under this content type carries such a payload.
    pub fn check_content_type(content_type: &str) -> (r: bool)
        ensures
            r == spec_plain_text_type(content_type@),
    {
        match parse_mime(content_type) {
            Some((typ, subtype, suffix)) => {
                let text = String::from_str("text");
                let plain = String::from_str("plain");
                if !(typ == text) {
                    return false;
                }
                if subtype == plain {
                    return true;
                }
                match suffix {
                    Some(sfx) => sfx == plain,
                    None => false,
                }
            },
            None => false,
        }
    }

    /// Decode a request body: the body's bytes must be valid base64, else
    /// the request is bad and is rejected with the decoder's reason.
    pub fn from_base64(body: &Vec<u8>) -> (r: Result<Base64<Vec<u8>>, Error>)
        ensures
            r is Ok <==> base64_decoded(body@) is Some,
            r matches Ok(v) ==> Some(v.0@) == base64_decoded(body@),
            r matches Err(e) ==> e.spec_status().spec_as_u16() == 400,
    {
        match base64_decode(body) {
            Ok(data) => Ok(Base64(data)),
            Err(reason) => Err(Error::from_string(reason, StatusCode::bad_request())),
        }
    }

    /// Encode the payload for a response body.
    pub fn to_base64_string(&self) -> (r: String)
        ensures
            r@ == base64_encoded(self.0@),
    {
        base64_encode(&self.0)
    }
}

impl IntoResponse for Base64<Vec<u8>> {
    /// A 200 response carrying the payload in base64, under the plain-text
    /// content type.
    fn into_response(self) -> Response {
        let body = self.to_base64_string();
        Response::new(StatusCode::ok()).with_content_type(
            String::from_str("text/plain; charset=utf-8"),
        ).with_body(body)
    }
}

} // verus!
