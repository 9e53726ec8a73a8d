//! The envelope: a typed payload together with a header map and an
//! extension store, convertible to and from the decomposed HTTP request
//! form.
//!
//! The three parts are independently owned and independently mutable; the
//! envelope never reads what the header map or the extension store hold, it
//! only carries them. The outbound conversion fixes the framing to the POST
//! method and the HTTP/2 protocol version and takes the target URI from the
//! caller; the inbound decomposition discards the framing and keeps the
//! rest.

use vstd::prelude::*;

use crate::http_request::HttpRequest;
use crate::http_types::{
    empty_extensions, empty_header_map, extension_entries, header_entries, http2_version, is_http2,
    is_post, post_method,
};

verus! {

/// An envelope around a payload of type `T`.
pub struct Envelope<T> {
    headers: http::HeaderMap,
    extensions: http::Extensions,
    message: T,
}

/// How an envelope and a target URI determine the outbound request: the
/// header map, the extension store and the payload are moved unchanged,
/// the URI is the given one, and the framing is fixed to POST and HTTP/2.
pub open spec fn converts_to<T>(e: Envelope<T>, uri: http::Uri, r: HttpRequest<T>) -> bool {
    &&& r.headers == e.spec_headers()
    &&& r.extensions == e.spec_extensions()
    &&& r.body == e.spec_message()
    &&& r.uri == uri
    &&& is_post(r.method)
    &&& is_http2(r.version)
}

/// How a request determines the envelope decomposed from it: the header
/// map, the extension store and the body are kept unchanged, and the
/// method, URI and version are discarded.
pub open spec fn decomposes_to<T>(r: HttpRequest<T>, e: Envelope<T>) -> bool {
    &&& e.spec_headers() == r.headers
    &&& e.spec_extensions() == r.extensions
    &&& e.spec_message() == r.body
}

impl<T> Envelope<T> {
    /// The header map the envelope carries.
    pub closed spec fn spec_headers(self) -> http::HeaderMap {
        self.headers
    }

    /// The extension store the envelope carries.
    pub closed spec fn spec_extensions(self) -> http::Extensions {
        self.extensions
    }

    /// The payload the envelope carries.
    pub closed spec fn spec_message(self) -> T {
        self.message
    }

    /// Create a new envelope around the given payload, with an empty
    /// header map and an empty extension store.
    pub fn new(message: T) -> (r: Envelope<T>)
        ensures
            r.spec_message() == message,
            header_entries(r.spec_headers()) == Seq::<(Seq<u8>, Seq<u8>)>::empty(),
            extension_entries(r.spec_extensions()) =~= Map::empty(),
    {
        Envelope { headers: empty_header_map(), extensions: empty_extensions(), message }
    }

    /// Get a reference to the payload.
    pub fn get_ref(&self) -> (m: &T)
        ensures
            *m == self.spec_message(),
    {
        &self.message
    }

    /// Get a mutable reference to the payload. Writing through it changes
    /// the payload and nothing else.
    pub fn get_mut(&mut self) -> (m: &mut T)
        ensures
            *m == old(self).spec_message(),
            final(self).spec_message() == *final(m),
            final(self).spec_headers() == old(self).spec_headers(),
            final(self).spec_extensions() == old(self).spec_extensions(),
    {
        &mut self.message
    }

    /// Get a reference to the header map.
    pub fn headers(&self) -> (h: &http::HeaderMap)
        ensures
            *h == self.spec_headers(),
    {
        &self.headers
    }

    /// Get a mutable reference to the header map. Writing through it
    /// changes the header map and nothing else.
    pub fn headers_mut(&mut self) -> (h: &mut http::HeaderMap)
        ensures
            *h == old(self).spec_headers(),
            final(self).spec_headers() == *final(h),
            final(self).spec_extensions() == old(self).spec_extensions(),
            final(self).spec_message() == old(self).spec_message(),
    {
        &mut self.headers
    }

    /// Get a reference to the extension store.
    pub fn extensions(&self) -> (e: &http::Extensions)
        ensures
            *e == self.spec_extensions(),
    {
        &self.extensions
    }

    /// Get a mutable reference to the extension store. Writing through it
    /// changes the extension store and nothing else.
    pub fn extensions_mut(&mut self) -> (e: &mut http::Extensions)
        ensures
            *e == old(self).spec_extensions(),
            final(self).spec_extensions() == *final(e),
            final(self).spec_headers() == old(self).spec_headers(),
            final(self).spec_message() == old(self).spec_message(),
    {
        &mut self.extensions
    }

    /// Consume the envelope, returning the payload and discarding the
    /// header map and the extension store.
    pub fn into_inner(self) -> (m: T)
        ensures
            m == self.spec_message(),
    {
        self.message
    }

    /// Assemble an envelope from a decomposed HTTP request, keeping its
    /// header map, extension store and body and discarding its framing.
    pub fn from_http(req: HttpRequest<T>) -> (r: Envelope<T>)
        ensures
            decomposes_to(req, r),
    {
        let HttpRequest { method: _, uri: _, version: _, headers, extensions, body } = req;
        Envelope { headers, extensions, message: body }
    }

    /// Consume the envelope and produce the decomposed HTTP request that
    /// carries its header map, extension store and payload, aimed at the
    /// given URI, framed as a POST request over HTTP/2.
    pub fn into_http(self, uri: http::Uri) -> (r: HttpRequest<T>)
        ensures
            converts_to(self, uri, r),
    {
        let Envelope { headers, extensions, message } = self;
        HttpRequest {
            method: post_method(),
            uri,
            version: http2_version(),
            headers,
            extensions,
            body: message,
        }
    }

    /// Consume the envelope, apply `f` to the payload, and return an
    /// envelope around the transformed payload that carries the same
    /// header map and the same extension store.
    pub fn map<F, U>(self, f: F) -> (r: Envelope<U>) where F: FnOnce(T) -> U
        requires
            call_requires(f, (self.spec_message(),)),
        ensures
            call_ensures(f, (self.spec_message(),), r.spec_message()),
            r.spec_headers() == self.spec_headers(),
            r.spec_extensions() == self.spec_extensions(),
    {
        let Envelope { headers, extensions, message } = self;
        let message = f(message);
        Envelope { headers, extensions, message }
    }
}

/// Converting an envelope into an HTTP request and decomposing that same
/// request back into an envelope yields the original header map, the
/// original extension store and the original payload, whatever the target
/// URI was.
pub proof fn lemma_http_round_trip<T>(
    e: Envelope<T>,
    uri: http::Uri,
    r: HttpRequest<T>,
    back: Envelope<T>,
)
    requires
        converts_to(e, uri, r),
        decomposes_to(r, back),
    ensures
        back.spec_headers() == e.spec_headers(),
        back.spec_extensions() == e.spec_extensions(),
        back.spec_message() == e.spec_message(),
{
}

} // verus!
