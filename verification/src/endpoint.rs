//! The endpoint of the queue as a URI. Reading a URI is the work of the `http` crate;
//! what is stated of it here is taken on trust.

use http::uri::InvalidUri;
use http::Uri;
use vstd::prelude::*;

verus! {

#[verifier::external_type_specification]
#[verifier::external_body]
pub struct ExUri(http::Uri);

#[verifier::external_type_specification]
#[verifier::external_body]
pub struct ExInvalidUri(http::uri::InvalidUri);

/// Whether `http` reads the text as a URI.
pub uninterp spec fn is_uri(text: Seq<char>) -> bool;

/// Calls `<http::Uri as FromStr>::from_str`. Trusted: the call succeeds exactly on the
/// texts that `is_uri` names, and it fails on the empty text, as the first test of
/// `Uri::from_shared` shows.
#[verifier::external_body]
pub(crate) fn parse_uri(text: &str) -> (parsed: Result<Uri, InvalidUri>)
    ensures
        parsed is Ok <==> is_uri(text@),
        text@.len() == 0 ==> parsed is Err,
{
    text.parse::<Uri>()
}

/// Calls `<http::uri::InvalidUri as Display>::fmt`, which words the reason of a failed
/// reading. Nothing is claimed of the wording.
#[verifier::external_body]
pub(crate) fn describe_invalid_uri(error: &InvalidUri) -> (text: String) {
    format!("{}", error)
}

} // verus!
