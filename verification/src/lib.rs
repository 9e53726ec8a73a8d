//! A generic envelope for a typed RPC payload together with transport
//! metadata, convertible to and from a generic HTTP request representation.

pub mod http_request;
pub mod http_types;
pub mod request;
