//! Outside types that the library carries through its own values.
//! Verus sees nothing inside them: they are held and handed on.

use vstd::prelude::*;

verus! {

/// `uuid::Uuid`: submission and job identifiers, carried as opaque values.
#[verifier::external_type_specification]
#[verifier::external_body]
pub struct ExUuid(uuid::Uuid);

} // verus!

verus! {

/// `Uuid::clone`: `Uuid` is a `Copy` type of sixteen bytes, so its clone is
/// the same value.
pub assume_specification[ <uuid::Uuid as core::clone::Clone>::clone ](u: &uuid::Uuid) -> (r: uuid::Uuid)
    ensures
        r == *u,
;

} // verus!

verus! {

/// `serde_json::Value`: a problem's I/O description, carried as is.
#[verifier::external_type_specification]
#[verifier::external_body]
pub struct ExJsonValue(serde_json::Value);

} // verus!

verus! {

/// `base64::DecodeError`: why a base64 string did not decode.
#[verifier::external_type_specification]
#[verifier::external_body]
pub struct ExDecodeError(base64::DecodeError);

/// `getrandom::Error`: the operating system's random source failed.
#[verifier::external_type_specification]
#[verifier::external_body]
pub struct ExRandomError(getrandom::Error);

/// `argon2::password_hash::Error`: argon2 could not hash.
#[verifier::external_type_specification]
#[verifier::external_body]
pub struct ExHashError(argon2::password_hash::Error);

} // verus!

verus! {

/// `tokio::sync::mpsc::UnboundedSender`: the send side of a runner's
/// socket writer, carried as is.
#[verifier::external_type_specification]
#[verifier::external_body]
#[verifier::reject_recursive_types(T)]
pub struct ExUnboundedSender<T>(tokio::sync::mpsc::UnboundedSender<T>);

/// `UnboundedSender::clone`: another handle on the same channel. The clone
/// holds the same `Arc` to the channel as the original (tokio only counts
/// one more sender), so it is stated to be equal to it.
pub assume_specification<T>[ <tokio::sync::mpsc::UnboundedSender<T> as core::clone::Clone>::clone ](
    s: &tokio::sync::mpsc::UnboundedSender<T>,
) -> (r: tokio::sync::mpsc::UnboundedSender<T>)
    ensures
        r == *s,
;

/// `dashmap::DashMap`: the concurrent map that holds the online runners.
#[verifier::external_type_specification]
#[verifier::external_body]
#[verifier::reject_recursive_types(K)]
#[verifier::reject_recursive_types(V)]
#[verifier::reject_recursive_types(S)]
pub struct ExDashMap<K, V, S>(dashmap::DashMap<K, V, S>);

} // verus!

verus! {

/// `url::Url`: a parsed absolute URL, carried as is.
#[verifier::external_type_specification]
#[verifier::external_body]
pub struct ExUrl(url::Url);

/// `url::ParseError`: why a string is no URL.
#[verifier::external_type_specification]
#[verifier::external_body]
pub struct ExUrlParseError(url::ParseError);

} // verus!
