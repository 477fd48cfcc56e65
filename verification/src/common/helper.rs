//! Reading switches from their textual form.

use vstd::prelude::*;

verus! {

/// The lowercase form of a string, as the standard library's
/// `str::to_lowercase` computes it from the Unicode case tables.
pub uninterp spec fn lowercase(text: Seq<char>) -> Seq<char>;

/// Calls `str::to_lowercase` of the standard library. The contract names the
/// result `lowercase` of the argument and claims nothing else about it.
#[verifier::external_body]
fn to_lowercase(text: &str) -> (lower: String)
    ensures
        lower@ == lowercase(text@),
{
    text.to_lowercase()
}

/// Whether a string that is already in lowercase spells the switch "on":
/// only the word `true` does.
pub fn lowercase_is_true(lower: &str) -> (on: bool)
    ensures
        on == (lower@ == "true"@),
{
    let given = lower.to_owned();
    let wanted = "true".to_owned();
    given == wanted
}

/// Reads a switch: `true` in any mix of upper and lower case is on,
/// every other string is off.
pub fn string_to_bool(value: String) -> (on: bool)
    ensures
        on == (lowercase(value@) == "true"@),
{
    let lower_value = to_lowercase(value.as_str());
    lowercase_is_true(lower_value.as_str())
}

} // verus!
