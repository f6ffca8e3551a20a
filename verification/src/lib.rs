//! Listing-protocol codec for an S3-style object store: the request shape of a
//! paginated listing, the decoding of its XML response into typed records, the
//! classification of server-side errors, and the reading of the native
//! engine's return codes.

pub mod list_objects;
pub mod native;
pub mod object_client;
pub mod request;
pub mod scalar;
pub mod theorems;
pub mod xml;
