//! Client-side logic for a deCONZ-style light gateway: typed resource
//! models, the success/error response envelope, token-request validation,
//! authenticated URL construction, and bounded state mutation for lights.
//!
//! Network transport is out of scope here; an embedding application sends
//! the requests and hands the decoded responses back to this crate's
//! interpretation functions.

pub mod connection;
pub mod endpoints;
pub mod groups;
pub mod light;
pub mod wire;
