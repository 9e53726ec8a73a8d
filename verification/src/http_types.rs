//! Declarations of the `http` crate types that envelopes carry, together
//! with the few trusted entry points into that crate.
//!
//! The envelope never looks inside a header map, an extension store, a
//! method, a version or a URI: it only moves such values around. The types
//! are therefore declared opaque, and the contracts speak of them through
//! uninterpreted names for their contents.

use vstd::prelude::*;

verus! {

#[verifier::external_type_specification]
#[verifier::external_body]
#[verifier::reject_recursive_types(T)]
pub struct ExHeaderMap<T>(http::HeaderMap<T>);

#[verifier::external_type_specification]
#[verifier::external_body]
pub struct ExHeaderValue(http::HeaderValue);

#[verifier::external_type_specification]
#[verifier::external_body]
pub struct ExExtensions(http::Extensions);

#[verifier::external_type_specification]
#[verifier::external_body]
pub struct ExUri(http::Uri);

#[verifier::external_type_specification]
#[verifier::external_body]
pub struct ExMethod(http::Method);

#[verifier::external_type_specification]
#[verifier::external_body]
pub struct ExVersion(http::Version);

#[verifier::external_type_specification]
#[verifier::external_body]
#[verifier::reject_recursive_types(T)]
pub struct ExHttpRequest<T>(http::Request<T>);

/// The entries a header map holds: a sequence of field-name / field-value
/// pairs, as bytes, in insertion order.
pub uninterp spec fn header_entries(h: http::HeaderMap) -> Seq<(Seq<u8>, Seq<u8>)>;

/// The entries an extension store holds: a map from an abstract code for
/// each stored concrete type to an abstract code for the stored value.
pub uninterp spec fn extension_entries(e: http::Extensions) -> Map<int, int>;

/// Whether a method value is the POST method.
pub uninterp spec fn is_post(m: http::Method) -> bool;

/// Whether a version value is the HTTP/2 protocol version.
pub uninterp spec fn is_http2(v: http::Version) -> bool;

/// Relies on `http::HeaderMap::new`, which creates an empty map.
#[verifier::external_body]
pub(crate) fn empty_header_map() -> (h: http::HeaderMap)
    ensures
        header_entries(h) == Seq::<(Seq<u8>, Seq<u8>)>::empty(),
{
    http::HeaderMap::new()
}

/// Relies on `http::Extensions::new`, which creates an empty store.
#[verifier::external_body]
pub(crate) fn empty_extensions() -> (exts: http::Extensions)
    ensures
        extension_entries(exts) =~= Map::empty(),
{
    http::Extensions::new()
}

/// Relies on the constant `http::Method::POST`.
#[verifier::external_body]
pub(crate) fn post_method() -> (m: http::Method)
    ensures
        is_post(m),
{
    http::Method::POST
}

/// Relies on the constant `http::Version::HTTP_2`.
#[verifier::external_body]
pub(crate) fn http2_version() -> (v: http::Version)
    ensures
        is_http2(v),
{
    http::Version::HTTP_2
}

} // verus!
