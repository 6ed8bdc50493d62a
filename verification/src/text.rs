//! Building `String`s from verified character sequences.

use vstd::prelude::*;

verus! {

/// Relies on `String: FromIterator<char>`: collecting an iterator of chars
/// yields the string holding exactly those chars, in order.
#[verifier::external_body]
pub(crate) fn string_from_chars(chars: &Vec<char>) -> (r: String)
    ensures
        r@ == chars@,
{
    chars.iter().collect()
}

} // verus!
