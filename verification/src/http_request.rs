//! A transparent record of the parts of a generic HTTP request: the framing
//! fields (method, target URI, protocol version), the header map, the
//! extension store and the typed body.
//!
//! `http::Request` keeps these parts behind accessors, which hides them from
//! the verifier; this record holds the same parts as plain fields, so that
//! contracts can say exactly which part goes where. The two bridge methods
//! move every part between the record and `http::Request` unchanged.

use vstd::prelude::*;

verus! {

/// The decomposed form of a generic HTTP request.
pub struct HttpRequest<T> {
    /// The request method.
    pub method: http::Method,
    /// The target URI.
    pub uri: http::Uri,
    /// The protocol version.
    pub version: http::Version,
    /// The header map.
    pub headers: http::HeaderMap,
    /// The extension store.
    pub extensions: http::Extensions,
    /// The typed body.
    pub body: T,
}

impl<T> HttpRequest<T> {
    /// Relies on `http::Request::new`, which wraps the body, and on its
    /// accessors `method_mut`, `uri_mut`, `version_mut`, `headers_mut` and
    /// `extensions_mut`, which each expose one part of the request so that
    /// the assignments install exactly the fields of this record. The
    /// result is opaque to the verifier, so nothing is stated of it.
    #[verifier::external_body]
    pub fn into_raw(self) -> http::Request<T> {
        let mut raw = http::Request::new(self.body);
        *raw.method_mut() = self.method;
        *raw.uri_mut() = self.uri;
        *raw.version_mut() = self.version;
        *raw.headers_mut() = self.headers;
        *raw.extensions_mut() = self.extensions;
        raw
    }

    /// Relies on `http::Request::into_parts`, which returns the request's
    /// head and body, and on the public fields of `http::request::Parts`,
    /// which hold the head's method, URI, version, header map and extension
    /// store. The argument is opaque to the verifier, so nothing is stated
    /// of the result.
    #[verifier::external_body]
    pub fn from_raw(raw: http::Request<T>) -> HttpRequest<T> {
        let (head, body) = raw.into_parts();
        HttpRequest {
            method: head.method,
            uri: head.uri,
            version: head.version,
            headers: head.headers,
            extensions: head.extensions,
            body,
        }
    }
}

} // verus!
