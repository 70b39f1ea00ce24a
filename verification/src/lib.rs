//! ACME (RFC 8555) client core: JWS request signing, replay-nonce management,
//! account-key handling, and the order/authorization state machine.
//!
//! The crate is transport-agnostic: it builds the exact bytes that go on the
//! wire and interprets the plain values that come back, while the caller
//! performs the HTTP exchanges and feeds the responses back in.

pub mod acc;
pub mod api;
pub mod auth;
pub mod b64;
pub mod dir;
pub mod error;
pub mod json;
pub mod jws;
pub mod key;
pub mod nonce;
pub mod order;
pub mod text;
pub mod trans;

pub use acc::Account;
pub use dir::{Directory, DirectoryUrl};
pub use error::Error;
pub use order::{Certificate, CertOrder, CsrOrder, NewOrder, Order};
