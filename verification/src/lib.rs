//! Types of the Subsonic API: requests and their encoding in URL query
//! strings, the value types they carry, and the errors and plain records of
//! responses.
//!
//! A request type is described by a schema of fields (`codec`); writing a
//! request as a query string and reading it back gives the same request
//! (`request::lemma_request_roundtrip`).
pub mod attrs;
pub mod codec;
pub mod common;
pub mod deser;
pub mod obj;
pub mod percent;
pub mod query;
pub mod request;
pub mod response;
pub mod roundtrip;
pub mod text;
