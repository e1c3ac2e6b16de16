//! URI validation at the streamer's construction boundary.

use vstd::prelude::*;

verus! {

/// Whether `url::Url::parse` accepts the string as an absolute URL. The
/// parser is deterministic and reads nothing but its input, so acceptance is
/// a function of the characters alone.
pub uninterp spec fn uri_well_formed(s: Seq<char>) -> bool;

/// Relies on url::Url::parse: parsing an absolute URL from a string, whose
/// outcome depends on the input characters alone.
#[verifier::external_body]
pub(crate) fn uri_parses(uri: &str) -> (r: bool)
    ensures
        r == uri_well_formed(uri@),
{
    url::Url::parse(uri).is_ok()
}

} // verus!
