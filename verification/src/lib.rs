//! Client-side model of a remote search engine's batches reporting API:
//! the batch record types, the decoding of their JSON wire shape, and the
//! query builder that serializes filter and pagination parameters for the
//! listing endpoint. Transport is left to the caller; this crate states and
//! proves what is sent and what a response body decodes to.

pub mod batches;
pub mod codec;
pub mod decode;
pub mod errors;
pub mod json;
pub mod query;
pub mod response;
pub mod text;
pub mod timefmt;
