//! Declarations of the outside types the error model carries.
//!
//! Verus sees these types as opaque values; the error model stores them and
//! renders them, nothing more.

use vstd::prelude::*;

use anyhow::Error as AnyhowError;
use headers::Error as HeadersError;
use multer::Error as MulterError;
use serde_json::Error as SerdeJsonError;
use serde_urlencoded::de::Error as UrlencodedDeError;

verus! {

#[verifier::external_type_specification]
#[verifier::external_body]
pub struct ExAnyhowError(AnyhowError);

#[verifier::external_type_specification]
#[verifier::external_body]
pub struct ExIoError(std::io::Error);

#[verifier::external_type_specification]
#[verifier::external_body]
pub struct ExFromUtf8Error(std::string::FromUtf8Error);

#[verifier::external_type_specification]
#[verifier::external_body]
pub struct ExJsonError(SerdeJsonError);

#[verifier::external_type_specification]
#[verifier::external_body]
pub struct ExUrlencodedDeError(UrlencodedDeError);

#[verifier::external_type_specification]
#[verifier::external_body]
pub struct ExMulterError(MulterError);

#[verifier::external_type_specification]
#[verifier::external_body]
pub struct ExHeadersError(HeadersError);

#[verifier::external_type_specification]
#[verifier::external_body]
pub struct ExMethod(http::Method);

#[verifier::external_type_specification]
#[verifier::external_body]
pub struct ExTypeId(core::any::TypeId);

} // verus!
