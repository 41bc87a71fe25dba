//! Display colours of chat authors.

use vstd::prelude::*;

verus! {

/// A digit of lower-case hexadecimal notation.
pub open spec fn is_lower_hex_digit(c: char) -> bool {
    ('0' <= c && c <= '9') || ('a' <= c && c <= 'f')
}

/// A colour in the notation `#rrggbb`.
pub open spec fn is_hex_color(s: Seq<char>) -> bool {
    &&& s.len() == 7
    &&& s[0] == '#'
    &&& forall|i: int| 1 <= i < 7 ==> is_lower_hex_digit(#[trigger] s[i])
}

/// A colour drawn at random.
///
/// Calls `random_color::RandomColor::new()` and `to_hex` on it. Nothing
/// is claimed about which colour comes back, only its notation: `to_hex`
/// formats three bytes as `#` followed by two lower-case hexadecimal
/// digits each.
#[verifier::external_body]
pub(crate) fn get_random_color() -> (color: String)
    ensures
        is_hex_color(color@),
{
    random_color::RandomColor::new().to_hex()
}

/// The colour a chat line is shown in: the one the backend sent, or a
/// freshly drawn one where it sent the empty string. Two lines of one
/// author may get different drawn colours.
pub fn display_color(sent: String) -> (color: String)
    ensures
        sent@.len() > 0 ==> color@ == sent@,
        sent@.len() == 0 ==> is_hex_color(color@),
        color@.len() > 0,
{
    if sent.as_str().is_empty() {
        get_random_color()
    } else {
        sent
    }
}

} // verus!
