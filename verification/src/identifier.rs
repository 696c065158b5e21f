//! Which characters can stand inside an identifier.

use vstd::prelude::*;

verus! {

/// What `oxc_syntax::identifier::is_identifier_part_unicode` says of a character: it has
/// the Unicode property ID_Continue, or it is one of the two joiners U+200C and U+200D.
pub uninterp spec fn unicode_identifier_part(c: char) -> bool;

/// `oxc_syntax::identifier::is_identifier_part_unicode`: the answer depends on the
/// character alone and is given the name `unicode_identifier_part`.
#[verifier::external_body]
fn is_identifier_part_unicode(c: char) -> (b: bool)
    ensures
        b == unicode_identifier_part(c),
{
    oxc_syntax::identifier::is_identifier_part_unicode(c)
}

/// The byte is an ASCII letter, an ASCII digit, `$` or `_`.
pub open spec fn ascii_identifier_part(b: u8) -> bool {
    (0x41 <= b <= 0x5A) || (0x61 <= b <= 0x7A) || (0x30 <= b <= 0x39) || b == 0x24 || b == 0x5F
}

pub fn is_identifier_part_ascii(b: u8) -> (r: bool)
    ensures
        r == ascii_identifier_part(b),
{
    (0x41 <= b && b <= 0x5A) || (0x61 <= b && b <= 0x7A) || (0x30 <= b && b <= 0x39) || b == 0x24
        || b == 0x5F
}

/// The character can stand inside an identifier.
pub open spec fn spec_is_identifier_part(c: char) -> bool {
    if (c as u32) < 0x80 {
        ascii_identifier_part(c as u8)
    } else {
        unicode_identifier_part(c)
    }
}

pub fn is_identifier_part(c: char) -> (r: bool)
    ensures
        r == spec_is_identifier_part(c),
{
    if (c as u32) < 0x80 {
        is_identifier_part_ascii(c as u8)
    } else {
        is_identifier_part_unicode(c)
    }
}

} // verus!
