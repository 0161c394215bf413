//! Network locators: server addresses as the URI parser of the `http` crate
//! reads them.

use crate::views::result_view;
use vstd::prelude::*;

verus! {

/// What the URI parser of the `http` crate makes of a server address: the
/// parsed URI written back as text, or the parser's message for an address it
/// rejects.
pub uninterp spec fn parsed_locator(address: Seq<char>) -> Result<Seq<char>, Seq<char>>;

/// Parses `address` with `http::Uri`'s `FromStr` and writes the outcome as
/// text: the URI through its `Display`, a rejection through the `Display` of
/// `http::uri::InvalidUri`. The parser reads nothing but its input, so the
/// outcome is a function of the address alone.
#[verifier::external_body]
pub(crate) fn parse_locator(address: &str) -> (parsed: Result<String, String>)
    ensures
        result_view(parsed) == parsed_locator(address@),
{
    match address.parse::<http::Uri>() {
        Ok(uri) => Ok(uri.to_string()),
        Err(invalid) => Err(invalid.to_string()),
    }
}

} // verus!
