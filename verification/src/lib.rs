//! A hot-reloadable TLS termination layer over an arbitrary stream listener,
//! together with the error model its callers see.
//!
//! The TLS side compiles PEM certificate descriptors into an immutable engine
//! configuration, selects certificates per connection by the requested server
//! name, and swaps configurations at runtime without dropping the listener.

pub mod error;
pub mod externals;
pub mod listener;
pub mod payload;
pub mod response;
pub mod status;
