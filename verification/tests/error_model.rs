//! Tests of the error model: construction, status codes, downcasts, and
//! conversion into results.

use std::error::Error as StdError;
use std::io::{Error as IoError, ErrorKind};

use poem::error::{
    CorsError, Error, GetDataError, IntoResult, MethodNotAllowedError, NotFoundError,
    ParsePathError, ReadBodyError, ResponseError, RouteError, SizedLimitError, StaticFileError,
    UpgradeError, WebSocketError,
};
use poem::status::StatusCode;

#[test]
fn test_into_result() {
    assert!(matches!("hello".into_result(), Ok("hello")));
    assert!(matches!(Ok::<_, Error>("hello").into_result(), Ok("hello")));
    assert!(matches!(
        Ok::<_, NotFoundError>("hello").into_result(),
        Ok("hello")
    ));
    assert!(Err::<String, _>(NotFoundError)
        .into_result()
        .unwrap_err()
        .is_from::<NotFoundError>());
}

#[test]
fn test_error() {
    let err = Error::new(
        IoError::new(ErrorKind::AlreadyExists, "aaa"),
        StatusCode::bad_gateway(),
    );
    assert_eq!(err.status(), StatusCode::bad_gateway());
    assert!(err.is::<IoError>());
    assert_eq!(
        err.downcast_ref::<IoError>().unwrap().kind(),
        ErrorKind::AlreadyExists
    );
}

#[test]
fn test_box_error() {
    let boxed_err: Box<dyn StdError + Send + Sync> =
        Box::new(IoError::new(ErrorKind::AlreadyExists, "aaa"));
    let err: Error = Error::from((
        StatusCode::bad_gateway(),
        anyhow::Error::from_boxed(boxed_err),
    ));
    assert_eq!(err.status(), StatusCode::bad_gateway());
    assert!(err.is::<IoError>());
    assert_eq!(
        err.downcast_ref::<IoError>().unwrap().kind(),
        ErrorKind::AlreadyExists
    );
}

#[test]
fn test_anyhow_error() {
    let anyhow_err: anyhow::Error = IoError::new(ErrorKind::AlreadyExists, "aaa").into();
    let err: Error = Error::from((StatusCode::bad_gateway(), anyhow_err));
    assert_eq!(err.status(), StatusCode::bad_gateway());
    assert!(err.is::<IoError>());
    assert_eq!(
        err.downcast_ref::<IoError>().unwrap().kind(),
        ErrorKind::AlreadyExists
    );
}

#[test]
fn test_downcast_keeps_status() {
    let err = Error::new(
        IoError::new(ErrorKind::NotFound, "gone"),
        StatusCode::not_found(),
    );
    let io = err.downcast::<IoError>().unwrap();
    assert_eq!(io.kind(), ErrorKind::NotFound);

    let err = Error::new(
        IoError::new(ErrorKind::NotFound, "gone"),
        StatusCode::bad_gateway(),
    );
    let still = err.downcast::<std::string::FromUtf8Error>().unwrap_err();
    assert_eq!(still.status(), StatusCode::bad_gateway());
    assert!(still.is::<IoError>());
}

#[test]
fn test_from_status_message_is_decimal() {
    let err = Error::from_status(StatusCode::bad_gateway());
    assert_eq!(err.status(), StatusCode::bad_gateway());
    assert_eq!(err.message(), "502");
}

#[test]
fn test_from_string() {
    let err = Error::from_string("boom".to_string(), StatusCode::bad_request());
    assert_eq!(err.status(), StatusCode::bad_request());
    assert_eq!(err.message(), "boom");
}

#[test]
fn test_as_response() {
    let err = Error::from_string("oh no".to_string(), StatusCode::forbidden());
    let resp = err.as_response();
    assert_eq!(resp.status(), StatusCode::forbidden());
    assert_eq!(resp.body(), "oh no");
}

#[test]
fn test_simple_error_statuses() {
    assert_eq!(ParsePathError.status(), StatusCode::bad_request());
    assert_eq!(NotFoundError.status(), StatusCode::not_found());
    assert_eq!(
        MethodNotAllowedError.status(),
        StatusCode::method_not_allowed()
    );
    assert_eq!(CorsError.status(), StatusCode::unauthorized());
    assert_eq!(NotFoundError.message(), "not found");
}

#[test]
fn test_read_body_error_status() {
    assert_eq!(
        ReadBodyError::BodyHasBeenTaken.status(),
        StatusCode::internal_server_error()
    );
    let utf8 = String::from_utf8(vec![0xff, 0xfe]).unwrap_err();
    assert_eq!(ReadBodyError::Utf8(utf8).status(), StatusCode::bad_request());
    assert_eq!(
        ReadBodyError::Io(IoError::new(ErrorKind::Other, "x")).status(),
        StatusCode::bad_request()
    );
}

#[test]
fn test_get_data_error() {
    let err = GetDataError("Config");
    assert_eq!(err.status(), StatusCode::internal_server_error());
    assert_eq!(err.message(), "data of type `Config` was not found.");
}

#[test]
fn test_static_file_error_statuses() {
    assert_eq!(
        StaticFileError::MethodNotAllowed(http::Method::POST).status(),
        StatusCode::method_not_allowed()
    );
    assert_eq!(
        StaticFileError::InvalidPath.status(),
        StatusCode::bad_request()
    );
    assert_eq!(
        StaticFileError::Forbidden("secret".to_string()).status(),
        StatusCode::forbidden()
    );
    assert_eq!(
        StaticFileError::NotFound("missing".to_string()).status(),
        StatusCode::not_found()
    );
    assert_eq!(
        StaticFileError::Io(IoError::new(ErrorKind::Other, "x")).status(),
        StatusCode::internal_server_error()
    );
}

#[test]
fn test_websocket_and_upgrade_statuses() {
    assert_eq!(
        WebSocketError::InvalidProtocol.status(),
        StatusCode::bad_request()
    );
    assert_eq!(
        WebSocketError::UpgradeError(UpgradeError::NoUpgrade).status(),
        StatusCode::internal_server_error()
    );
    assert_eq!(
        WebSocketError::UpgradeError(UpgradeError::Other("x".to_string())).status(),
        StatusCode::bad_request()
    );
    assert_eq!(
        UpgradeError::NoUpgrade.status(),
        StatusCode::internal_server_error()
    );
}

#[test]
fn test_sized_limit_and_route_statuses() {
    assert_eq!(
        SizedLimitError::MissingContentLength.status(),
        StatusCode::bad_request()
    );
    assert_eq!(
        SizedLimitError::PayloadTooLarge.status(),
        StatusCode::bad_request()
    );
    assert_eq!(
        RouteError::InvalidPath("a".to_string()).status(),
        StatusCode::internal_server_error()
    );
    assert_eq!(
        RouteError::Duplicate("a".to_string()).status(),
        StatusCode::internal_server_error()
    );
}

#[test]
fn test_response_error_conversion_keeps_status() {
    let err: Error = CorsError.into();
    assert_eq!(err.status(), StatusCode::unauthorized());
    assert!(err.is_from::<CorsError>());
    assert!(!err.is_from::<NotFoundError>());
    assert_eq!(err.message(), "unauthorized");
}

#[test]
fn test_status_code_from_u16() {
    assert_eq!(StatusCode::from_u16(502), Some(StatusCode::bad_gateway()));
    assert_eq!(StatusCode::from_u16(99), None);
    assert_eq!(StatusCode::from_u16(1000), None);
    assert_eq!(StatusCode::bad_gateway().as_u16(), 502);
}

#[test]
fn test_status_code_decimal_rendering() {
    assert_eq!(StatusCode::from_u16(100).unwrap().to_decimal_string(), "100");
    assert_eq!(StatusCode::from_u16(205).unwrap().to_decimal_string(), "205");
    assert_eq!(StatusCode::from_u16(999).unwrap().to_decimal_string(), "999");
}
