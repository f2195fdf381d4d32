//! The error model callers of the HTTP layer see.
//!
//! [`Error`] pairs a status code with the underlying error value, held as an
//! [`anyhow::Error`] so any standard error can be wrapped and recovered by a
//! downcast.  The concrete error types of the framework each map themselves
//! to a status code through [`ResponseError`]; that mapping is stated and
//! verified exactly, variant by variant.

use vstd::prelude::*;

use crate::response::{IntoResponse, Response};
use crate::status::StatusCode;

verus! {


// ---------------------------------------------------------------------------
// Trusted wrappers around anyhow and the type tags.
// ---------------------------------------------------------------------------

/// Relies on `anyhow::Error::new`: wraps a standard error value, preserving
/// its type for later downcasts.
#[verifier::external_body]
fn wrap_std_error<T: std::error::Error + Send + Sync + 'static>(err: T) -> anyhow::Error {
    anyhow::Error::new(err)
}

/// Relies on `anyhow::Error::msg`: an error value whose message is the
/// given string.
#[verifier::external_body]
fn string_source(msg: String) -> anyhow::Error {
    anyhow::Error::msg(msg)
}

/// Relies on the `Display` rendering of the value.
#[verifier::external_body]
fn display_string<T: core::fmt::Display>(value: &T) -> String {
    format!("{}", value)
}

/// Relies on `TypeId::of`: the runtime tag of a type.
#[verifier::external_body]
fn type_id_of<T: 'static>() -> core::any::TypeId {
    core::any::TypeId::of::<T>()
}

/// Relies on `TypeId`'s equality: equal exactly for one and the same type.
#[verifier::external_body]
fn type_id_eq(a: &core::any::TypeId, b: &core::any::TypeId) -> bool {
    a == b
}

/// Relies on `anyhow::Error::is` and `downcast_ref`: whether the wrapped
/// error has this type, looking behind a boxed error's box as well.
#[verifier::external_body]
fn source_is<T: std::error::Error + Send + Sync + 'static>(source: &anyhow::Error) -> bool {
    source.is::<T>()
        || source
            .downcast_ref::<Box<dyn std::error::Error + Send + Sync>>()
            .is_some_and(|boxed| boxed.is::<T>())
}

/// Relies on `anyhow::Error::downcast_ref`, looking behind a boxed error's
/// box as well.
#[verifier::external_body]
fn source_downcast_ref<'a, T: std::error::Error + Send + Sync + 'static>(
    source: &'a anyhow::Error,
) -> Option<&'a T> {
    match source.downcast_ref::<T>() {
        Some(err) => Some(err),
        None => source
            .downcast_ref::<Box<dyn std::error::Error + Send + Sync>>()
            .and_then(|boxed| boxed.downcast_ref::<T>()),
    }
}

/// Relies on `anyhow::Error::downcast`: the wrapped error when the type
/// matches, also behind a boxed error's box, and the error unchanged
/// otherwise.
#[verifier::external_body]
fn source_downcast<T: std::error::Error + Send + Sync + 'static>(source: anyhow::Error) -> Result<
    T,
    anyhow::Error,
> {
    let source = match source.downcast::<T>() {
        Ok(err) => return Ok(err),
        Err(source) => source,
    };
    match source.downcast::<Box<dyn std::error::Error + Send + Sync>>() {
        Ok(boxed) => match boxed.downcast::<T>() {
            Ok(err) => Ok(*err),
            Err(boxed) => Err(anyhow::Error::from_boxed(boxed)),
        },
        Err(source) => Err(source),
    }
}

// ---------------------------------------------------------------------------
// The error type.
// ---------------------------------------------------------------------------

/// Represents a type that can be converted to [`Error`].
pub trait ResponseError {
    /// The status code of this error.
    spec fn spec_status(&self) -> StatusCode;

    /// The status code of this error.
    fn status(&self) -> (r: StatusCode)
        ensures
            r == self.spec_status(),
    ;

    /// The error rendered as text.
    fn message(&self) -> String;
}

/// General response error: a status code and the underlying error value.
///
/// The source is held as an [`anyhow::Error`]; an error built from a
/// [`ResponseError`] value additionally carries that type's tag, so that
/// [`Error::is`] recognises it.
#[derive(Debug)]
pub struct Error {
    status: StatusCode,
    source: anyhow::Error,
    named: Option<core::any::TypeId>,
}

impl Error {
    /// The status code of this error.
    pub closed spec fn spec_status(self) -> StatusCode {
        self.status
    }

    /// Create a new error object from any error type, under the given
    /// status code.
    pub fn new<T: std::error::Error + Send + Sync + 'static>(err: T, status: StatusCode) -> (r:
        Self)
        ensures
            r.spec_status() == status,
    {
        Error { status, source: wrap_std_error(err), named: None }
    }

    /// Create a new error object from a status code; its message is the
    /// code rendered in decimal.
    pub fn from_status(status: StatusCode) -> (r: Self)
        ensures
            r.spec_status() == status,
    {
        let msg = status.to_decimal_string();
        Error { status, source: string_source(msg), named: None }
    }

    /// Create a new error object from a string, under the given status
    /// code.
    pub fn from_string(msg: String, status: StatusCode) -> (r: Self)
        ensures
            r.spec_status() == status,
    {
        Error { status, source: string_source(msg), named: None }
    }

    /// Returns the status code of this error.
    pub fn status(&self) -> (r: StatusCode)
        ensures
            r == self.spec_status(),
    {
        self.status
    }

    /// The error rendered as text.
    pub fn message(&self) -> String {
        display_string(&self.source)
    }

    /// Downcast this error object by reference.
    pub fn downcast_ref<T: std::error::Error + Send + Sync + 'static>(&self) -> Option<&T> {
        source_downcast_ref::<T>(&self.source)
    }

    /// Attempts to downcast the error to a concrete error type; the status
    /// code survives a failed attempt.
    pub fn downcast<T: std::error::Error + Send + Sync + 'static>(self) -> (r: Result<T, Error>)
        ensures
            r matches Err(e) ==> e.spec_status() == self.spec_status(),
    {
        let Error { status, source, named } = self;
        match source_downcast::<T>(source) {
            Ok(err) => Ok(err),
            Err(source) => Err(Error { status, source, named }),
        }
    }

    /// Returns `true` if the error type is the same as `T`.
    pub fn is<T: std::error::Error + core::fmt::Debug + Send + Sync + 'static>(&self) -> bool {
        source_is::<T>(&self.source) || self.is_from::<T>()
    }

    /// Returns `true` if this error was built from a value of type `T`
    /// through its [`ResponseError`] conversion.
    pub fn is_from<T: 'static>(&self) -> bool {
        match &self.named {
            Some(tag) => {
                let of_t = type_id_of::<T>();
                type_id_eq(tag, &of_t)
            },
            None => false,
        }
    }

    /// Consumes this to return a response object.
    pub fn as_response(&self) -> (r: Response)
        ensures
            r@.status == self.spec_status(),
    {
        Response::new(self.status).with_body(self.message())
    }
}

impl<T: ResponseError + Send + Sync + 'static> From<T> for Error {
    /// The error's own status code, its rendered message, and its type tag,
    /// so that [`Error::is`] still recognises the type.
    fn from(err: T) -> (r: Error) {
        let status = err.status();
        let msg = err.message();
        let tag = type_id_of::<T>();
        Error { status, source: string_source(msg), named: Some(tag) }
    }
}

impl<T: ResponseError + Send + Sync + 'static> vstd::std_specs::convert::FromSpecImpl<T> for Error {
    open spec fn obeys_from_spec() -> bool {
        false
    }

    open spec fn from_spec(t: T) -> Error {
        arbitrary()
    }
}

impl From<anyhow::Error> for Error {
    /// Any wrapped error, under 500 Internal Server Error.
    fn from(err: anyhow::Error) -> (r: Error) {
        Error { status: StatusCode::internal_server_error(), source: err, named: None }
    }
}

impl vstd::std_specs::convert::FromSpecImpl<anyhow::Error> for Error {
    open spec fn obeys_from_spec() -> bool {
        false
    }

    open spec fn from_spec(t: anyhow::Error) -> Error {
        arbitrary()
    }
}

impl From<(StatusCode, anyhow::Error)> for Error {
    /// A wrapped error under the given status code.
    fn from(p: (StatusCode, anyhow::Error)) -> (r: Error) {
        Error { status: p.0, source: p.1, named: None }
    }
}

impl vstd::std_specs::convert::FromSpecImpl<(StatusCode, anyhow::Error)> for Error {
    open spec fn obeys_from_spec() -> bool {
        false
    }

    open spec fn from_spec(t: (StatusCode, anyhow::Error)) -> Error {
        arbitrary()
    }
}

impl From<StatusCode> for Error {
    /// The bare status code as an error.
    fn from(status: StatusCode) -> (r: Error) {
        Error::from_status(status)
    }
}

impl vstd::std_specs::convert::FromSpecImpl<StatusCode> for Error {
    open spec fn obeys_from_spec() -> bool {
        false
    }

    open spec fn from_spec(t: StatusCode) -> Error {
        arbitrary()
    }
}

// ---------------------------------------------------------------------------
// Conversion into a result.
// ---------------------------------------------------------------------------

/// Represents a value that can be converted to a `Result<T, Error>`.
pub trait IntoResult<T: IntoResponse> {
    /// Consumes this value and returns a result.
    fn into_result(self) -> Result<T, Error>;
}

impl<T, E> IntoResult<T> for Result<T, E> where
    T: IntoResponse,
    E: Into<Error> + core::fmt::Debug + Send + Sync + 'static,
 {
    fn into_result(self) -> Result<T, Error> {
        match self {
            Ok(v) => Ok(v),
            Err(e) => Err(e.into()),
        }
    }
}

impl<T: IntoResponse> IntoResult<T> for T {
    fn into_result(self) -> Result<T, Error> {
        Ok(self)
    }
}

// ---------------------------------------------------------------------------
// The framework's concrete error types.
// ---------------------------------------------------------------------------

/// Only the endpoints under the router can get the path parameters,
/// otherwise this error will occur.
#[derive(Debug, Clone, Copy, PartialEq, Eq, Structural)]
pub struct ParsePathError;

impl ResponseError for ParsePathError {
    open spec fn spec_status(&self) -> StatusCode {
        StatusCode { code: 400 }
    }

    fn status(&self) -> (r: StatusCode) {
        StatusCode::bad_request()
    }

    fn message(&self) -> String {
        String::from_str("invalid path params")
    }
}

/// Error occurred in the router.
#[derive(Debug, Clone, Copy, PartialEq, Eq, Structural)]
pub struct NotFoundError;

impl ResponseError for NotFoundError {
    open spec fn spec_status(&self) -> StatusCode {
        StatusCode { code: 404 }
    }

    fn status(&self) -> (r: StatusCode) {
        StatusCode::not_found()
    }

    fn message(&self) -> String {
        String::from_str("not found")
    }
}

/// Error occurred in the router.
#[derive(Debug, Clone, Copy, PartialEq, Eq, Structural)]
pub struct MethodNotAllowedError;

impl ResponseError for MethodNotAllowedError {
    open spec fn spec_status(&self) -> StatusCode {
        StatusCode { code: 405 }
    }

    fn status(&self) -> (r: StatusCode) {
        StatusCode::method_not_allowed()
    }

    fn message(&self) -> String {
        String::from_str("method not allowed")
    }
}

/// Error occurred in the `Cors` middleware.
#[derive(Debug, Clone, Copy, PartialEq, Eq, Structural)]
pub struct CorsError;

impl ResponseError for CorsError {
    open spec fn spec_status(&self) -> StatusCode {
        StatusCode { code: 401 }
    }

    fn status(&self) -> (r: StatusCode) {
        StatusCode::unauthorized()
    }

    fn message(&self) -> String {
        String::from_str("unauthorized")
    }
}

/// A possible error value when reading the body.
#[derive(Debug)]
pub enum ReadBodyError {
    /// Body has been taken by other extractors.
    BodyHasBeenTaken,
    /// Body is not a valid utf8 string.
    Utf8(std::string::FromUtf8Error),
    /// Io error.
    Io(std::io::Error),
}

impl ResponseError for ReadBodyError {
    /// 500 when the body was already taken, 400 otherwise.
    open spec fn spec_status(&self) -> StatusCode {
        match self {
            ReadBodyError::BodyHasBeenTaken => StatusCode { code: 500 },
            ReadBodyError::Utf8(_) => StatusCode { code: 400 },
            ReadBodyError::Io(_) => StatusCode { code: 400 },
        }
    }

    fn status(&self) -> (r: StatusCode) {
        match self {
            ReadBodyError::BodyHasBeenTaken => StatusCode::internal_server_error(),
            ReadBodyError::Utf8(_) => StatusCode::bad_request(),
            ReadBodyError::Io(_) => StatusCode::bad_request(),
        }
    }

    fn message(&self) -> String {
        match self {
            ReadBodyError::BodyHasBeenTaken => String::from_str("the body has been taken"),
            ReadBodyError::Utf8(err) => String::from_str("parse utf8: ").concat(
                display_string(err).as_str(),
            ),
            ReadBodyError::Io(err) => String::from_str("io: ").concat(
                display_string(err).as_str(),
            ),
        }
    }
}

/// A possible error value when parsing cookie.
#[derive(Debug)]
pub enum ParseCookieError {
    /// Cookie value is illegal.
    CookieIllegal,
    /// A `Cookie` header is required.
    CookieHeaderRequired,
    /// Cookie value is illegal.
    ParseJsonValue(serde_json::Error),
}

impl ResponseError for ParseCookieError {
    open spec fn spec_status(&self) -> StatusCode {
        StatusCode { code: 400 }
    }

    fn status(&self) -> (r: StatusCode) {
        StatusCode::bad_request()
    }

    fn message(&self) -> String {
        match self {
            ParseCookieError::CookieIllegal => String::from_str("cookie is illegal"),
            ParseCookieError::CookieHeaderRequired => String::from_str(
                "`Cookie` header is required",
            ),
            ParseCookieError::ParseJsonValue(err) => String::from_str("cookie is illegal: ")
                .concat(display_string(err).as_str()),
        }
    }
}

/// A possible error value when extracts data from request fails.
#[derive(Debug, Clone, Copy, PartialEq, Eq)]
pub struct GetDataError(pub &'static str);

impl ResponseError for GetDataError {
    open spec fn spec_status(&self) -> StatusCode {
        StatusCode { code: 500 }
    }

    fn status(&self) -> (r: StatusCode) {
        StatusCode::internal_server_error()
    }

    fn message(&self) -> String {
        String::from_str("data of type `").concat(self.0).concat("` was not found.")
    }
}

/// A possible error value when parsing form.
#[derive(Debug)]
pub enum ParseFormError {
    /// Invalid content type.
    InvalidContentType(String),
    /// `Content-Type` header is required.
    ContentTypeRequired,
    /// Url decode error.
    UrlDecode(serde_urlencoded::de::Error),
}

impl ResponseError for ParseFormError {
    open spec fn spec_status(&self) -> StatusCode {
        StatusCode { code: 400 }
    }

    fn status(&self) -> (r: StatusCode) {
        StatusCode::bad_request()
    }

    fn message(&self) -> String {
        match self {
            ParseFormError::InvalidContentType(ct) => String::from_str("invalid content type `")
                .concat(ct.as_str()).concat("`, expect: `application/x-www-form-urlencoded`"),
            ParseFormError::ContentTypeRequired => String::from_str(
                "expect content type `application/x-www-form-urlencoded`",
            ),
            ParseFormError::UrlDecode(err) => String::from_str("url decode: ").concat(
                display_string(err).as_str(),
            ),
        }
    }
}

/// A possible error value when parsing JSON.
#[derive(Debug)]
pub struct ParseJsonError(pub serde_json::Error);

impl ResponseError for ParseJsonError {
    open spec fn spec_status(&self) -> StatusCode {
        StatusCode { code: 400 }
    }

    fn status(&self) -> (r: StatusCode) {
        StatusCode::bad_request()
    }

    fn message(&self) -> String {
        String::from_str("parse: ").concat(display_string(&self.0).as_str())
    }
}

/// A possible error value when parsing query.
#[derive(Debug)]
pub struct ParseQueryError(pub serde_urlencoded::de::Error);

impl ResponseError for ParseQueryError {
    open spec fn spec_status(&self) -> StatusCode {
        StatusCode { code: 400 }
    }

    fn status(&self) -> (r: StatusCode) {
        StatusCode::bad_request()
    }

    fn message(&self) -> String {
        display_string(&self.0)
    }
}

/// A possible error value when parsing multipart.
#[derive(Debug)]
pub enum ParseMultipartError {
    /// Invalid content type.
    InvalidContentType(String),
    /// `Content-Type` header is required.
    ContentTypeRequired,
    /// Parse error.
    Multipart(multer::Error),
}

impl ResponseError for ParseMultipartError {
    open spec fn spec_status(&self) -> StatusCode {
        StatusCode { code: 400 }
    }

    fn status(&self) -> (r: StatusCode) {
        StatusCode::bad_request()
    }

    fn message(&self) -> String {
        match self {
            ParseMultipartError::InvalidContentType(ct) => String::from_str(
                "invalid content type `",
            ).concat(ct.as_str()).concat("`, expect: `multipart/form-data`"),
            ParseMultipartError::ContentTypeRequired => String::from_str(
                "expect content type `multipart/form-data`",
            ),
            ParseMultipartError::Multipart(err) => String::from_str("parse: ").concat(
                display_string(err).as_str(),
            ),
        }
    }
}

/// A possible error value when parsing typed headers.
#[derive(Debug)]
pub enum ParseTypedHeaderError {
    /// A specified header is required.
    HeaderRequired(String),
    /// Parse error.
    TypedHeader(headers::Error),
}

impl ResponseError for ParseTypedHeaderError {
    open spec fn spec_status(&self) -> StatusCode {
        StatusCode { code: 400 }
    }

    fn status(&self) -> (r: StatusCode) {
        StatusCode::bad_request()
    }

    fn message(&self) -> String {
        match self {
            ParseTypedHeaderError::HeaderRequired(name) => String::from_str("header `").concat(
                name.as_str(),
            ).concat("` is required"),
            ParseTypedHeaderError::TypedHeader(err) => String::from_str("parse: ").concat(
                display_string(err).as_str(),
            ),
        }
    }
}

/// A possible error value when handling websocket.
#[derive(Debug)]
pub enum WebSocketError {
    /// Invalid protocol.
    InvalidProtocol,
    /// Upgrade error.
    UpgradeError(UpgradeError),
}

impl ResponseError for WebSocketError {
    /// 400 for an invalid protocol; an upgrade error keeps its own code.
    open spec fn spec_status(&self) -> StatusCode {
        match self {
            WebSocketError::InvalidProtocol => StatusCode { code: 400 },
            WebSocketError::UpgradeError(err) => err.spec_status(),
        }
    }

    fn status(&self) -> (r: StatusCode) {
        match self {
            WebSocketError::InvalidProtocol => StatusCode::bad_request(),
            WebSocketError::UpgradeError(err) => err.status(),
        }
    }

    fn message(&self) -> String {
        match self {
            WebSocketError::InvalidProtocol => String::from_str("invalid protocol"),
            WebSocketError::UpgradeError(err) => err.message(),
        }
    }
}

/// A possible error value when upgrading connection.
#[derive(Debug)]
pub enum UpgradeError {
    /// No upgrade.
    NoUpgrade,
    /// Other error.
    Other(String),
}

impl ResponseError for UpgradeError {
    /// 500 when no upgrade is possible, 400 otherwise.
    open spec fn spec_status(&self) -> StatusCode {
        match self {
            UpgradeError::NoUpgrade => StatusCode { code: 500 },
            UpgradeError::Other(_) => StatusCode { code: 400 },
        }
    }

    fn status(&self) -> (r: StatusCode) {
        match self {
            UpgradeError::NoUpgrade => StatusCode::internal_server_error(),
            UpgradeError::Other(_) => StatusCode::bad_request(),
        }
    }

    fn message(&self) -> String {
        match self {
            UpgradeError::NoUpgrade => String::from_str("no upgrade"),
            UpgradeError::Other(msg) => msg.clone(),
        }
    }
}

/// A possible error value when processing static files.
#[derive(Debug)]
pub enum StaticFileError {
    /// Method not allow.
    MethodNotAllowed(http::Method),
    /// Invalid path.
    InvalidPath,
    /// Forbidden.
    Forbidden(String),
    /// File not found.
    NotFound(String),
    /// Io error.
    Io(std::io::Error),
}

impl ResponseError for StaticFileError {
    open spec fn spec_status(&self) -> StatusCode {
        match self {
            StaticFileError::MethodNotAllowed(_) => StatusCode { code: 405 },
            StaticFileError::InvalidPath => StatusCode { code: 400 },
            StaticFileError::Forbidden(_) => StatusCode { code: 403 },
            StaticFileError::NotFound(_) => StatusCode { code: 404 },
            StaticFileError::Io(_) => StatusCode { code: 500 },
        }
    }

    fn status(&self) -> (r: StatusCode) {
        match self {
            StaticFileError::MethodNotAllowed(_) => StatusCode::method_not_allowed(),
            StaticFileError::InvalidPath => StatusCode::bad_request(),
            StaticFileError::Forbidden(_) => StatusCode::forbidden(),
            StaticFileError::NotFound(_) => StatusCode::not_found(),
            StaticFileError::Io(_) => StatusCode::internal_server_error(),
        }
    }

    fn message(&self) -> String {
        match self {
            StaticFileError::MethodNotAllowed(_) => String::from_str("method not found"),
            StaticFileError::InvalidPath => String::from_str("invalid path"),
            StaticFileError::Forbidden(path) => String::from_str("forbidden: ").concat(
                path.as_str(),
            ),
            StaticFileError::NotFound(path) => String::from_str("not found: ").concat(
                path.as_str(),
            ),
            StaticFileError::Io(err) => String::from_str("io: ").concat(
                display_string(err).as_str(),
            ),
        }
    }
}

/// A possible error value occurred in the `SizeLimit` middleware.
#[derive(Debug, Clone, Copy, PartialEq, Eq, Structural)]
pub enum SizedLimitError {
    /// Missing `Content-Length` header.
    MissingContentLength,
    /// Payload too large.
    PayloadTooLarge,
}

impl ResponseError for SizedLimitError {
    open spec fn spec_status(&self) -> StatusCode {
        StatusCode { code: 400 }
    }

    fn status(&self) -> (r: StatusCode) {
        StatusCode::bad_request()
    }

    fn message(&self) -> String {
        match self {
            SizedLimitError::MissingContentLength => String::from_str(
                "missing `Content-Length` header",
            ),
            SizedLimitError::PayloadTooLarge => String::from_str("payload too large"),
        }
    }
}

/// A possible error value occurred when adding a route.
#[derive(Debug, Clone, PartialEq, Eq)]
pub enum RouteError {
    /// Invalid path.
    InvalidPath(String),
    /// Duplicate path.
    Duplicate(String),
    /// Invalid regex in path.
    InvalidRegex {
        /// Path.
        path: String,
        /// Regex.
        regex: String,
    },
}

impl ResponseError for RouteError {
    open spec fn spec_status(&self) -> StatusCode {
        StatusCode { code: 500 }
    }

    fn status(&self) -> (r: StatusCode) {
        StatusCode::internal_server_error()
    }

    fn message(&self) -> String {
        match self {
            RouteError::InvalidPath(path) => String::from_str("invalid path: ").concat(
                path.as_str(),
            ),
            RouteError::Duplicate(path) => String::from_str("duplicate path: ").concat(
                path.as_str(),
            ),
            RouteError::InvalidRegex { path, regex: _ } => String::from_str(
                "invalid regex in path: ",
            ).concat(path.as_str()),
        }
    }
}

} // verus!
