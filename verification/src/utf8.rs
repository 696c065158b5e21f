//! Decoding of single UTF-8 scalars, and inspection of the last scalar of a byte string.

use vstd::prelude::*;
use vstd::utf8::*;

verus! {

/// Width in bytes of the UTF-8 sequence whose first byte is `byte`.
/// A byte that cannot start a sequence counts as the start of a four-byte one.
pub open spec fn lead_byte_width(byte: u8) -> nat {
    if byte < 0x80 {
        1
    } else if 0xC0 <= byte < 0xE0 {
        2
    } else if 0xE0 <= byte < 0xF0 {
        3
    } else {
        4
    }
}

pub fn utf8_lead_byte_width(byte: u8) -> (width: usize)
    ensures
        width == lead_byte_width(byte),
{
    if byte < 0x80 {
        1
    } else if 0xC0 <= byte && byte < 0xE0 {
        2
    } else if 0xE0 <= byte && byte < 0xF0 {
        3
    } else {
        4
    }
}

/// The code point held by a two-byte sequence.
pub fn decode_two(lead: u8, b2: u8) -> (code: u32)
    ensures
        code == codepoint_width_2(lead, b2),
{
    (((lead & 0x1F) as u32) << 6) | ((b2 & 0x3F) as u32)
}

/// The code point held by a three-byte sequence.
pub fn decode_three(lead: u8, b2: u8, b3: u8) -> (code: u32)
    ensures
        code == codepoint_width_3(lead, b2, b3),
{
    (((lead & 0x0F) as u32) << 12) | (((b2 & 0x3F) as u32) << 6) | ((b3 & 0x3F) as u32)
}

/// The code point held by a four-byte sequence.
pub fn decode_four(lead: u8, b2: u8, b3: u8, b4: u8) -> (code: u32)
    ensures
        code == codepoint_width_4(lead, b2, b3, b4),
{
    (((lead & 0x07) as u32) << 18) | (((b2 & 0x3F) as u32) << 12) | (((b3 & 0x3F) as u32) << 6) | ((
    b4 & 0x3F) as u32)
}

/// `char::from_u32` of std: the character with the given scalar value, and `None` for a
/// value that is no Unicode scalar (a surrogate, or a value above U+10FFFF).
#[verifier::external_body]
fn char_from_u32(code: u32) -> (c: Option<char>)
    ensures
        is_scalar(code) ==> c == Some(code as char),
        !is_scalar(code) ==> c is None,
{
    char::from_u32(code)
}

/// Index of the last byte of `bytes` that is no continuation byte, or -1 where every
/// byte is one.
pub open spec fn last_lead_index(bytes: Seq<u8>) -> int
    decreases bytes.len(),
{
    if bytes.len() == 0 {
        -1
    } else if !is_continuation_byte(bytes.last()) {
        bytes.len() - 1
    } else {
        last_lead_index(bytes.drop_last())
    }
}

/// The character that the tail of `bytes` encodes: the bytes from the last one that is no
/// continuation byte onwards, where these are one well-formed scalar.
pub open spec fn last_char_of(bytes: Seq<u8>) -> Option<char> {
    let i = last_lead_index(bytes);
    if i < 0 {
        None
    } else {
        let tail = bytes.subrange(i, bytes.len() as int);
        if valid_first_scalar(tail) && length_of_first_scalar(tail) == tail.len() {
            Some(decode_first_scalar(tail) as char)
        } else {
            None
        }
    }
}

proof fn lemma_last_lead_index(bytes: Seq<u8>)
    ensures
        -1 <= last_lead_index(bytes) < bytes.len(),
        last_lead_index(bytes) >= 0 ==> !is_continuation_byte(bytes[last_lead_index(bytes)]),
        forall|j: int| last_lead_index(bytes) < j < bytes.len() ==> is_continuation_byte(bytes[j]),
    decreases bytes.len(),
{
    if bytes.len() > 0 && is_continuation_byte(bytes.last()) {
        let shorter = bytes.drop_last();
        lemma_last_lead_index(shorter);
        assert forall|j: int| last_lead_index(bytes) < j < bytes.len() implies is_continuation_byte(
            bytes[j],
        ) by {
            if j < shorter.len() {
                assert(shorter[j] == bytes[j]);
            }
        }
    }
}

proof fn lemma_last_lead_index_unique(bytes: Seq<u8>, i: int)
    requires
        -1 <= i < bytes.len(),
        i >= 0 ==> !is_continuation_byte(bytes[i]),
        forall|j: int| i < j < bytes.len() ==> is_continuation_byte(bytes[j]),
    ensures
        last_lead_index(bytes) == i,
{
    lemma_last_lead_index(bytes);
}

/// In well-formed UTF-8 the tail from the last leading byte is the last character.
pub proof fn lemma_last_char_of_valid(bytes: Seq<u8>)
    requires
        valid_utf8(bytes),
        bytes.len() > 0,
    ensures
        decode_utf8(bytes).len() > 0,
        last_char_of(bytes) == Some(decode_utf8(bytes).last()),
{
    broadcast use group_utf8_lib;

    lemma_last_lead_index(bytes);
    let i = last_lead_index(bytes);
    if i < 0 {
        // the first byte of well-formed UTF-8 is a leading byte
        assert(valid_first_scalar(bytes));
        assert(!is_continuation_byte(bytes[0]));
        assert(false);
    }
    let n = bytes.len() as int;
    is_char_boundary_iff_not_is_continuation_byte(bytes, i);
    valid_utf8_split(bytes, i);
    decode_utf8_split(bytes, i);
    let tail = bytes.subrange(i, n);
    assert(valid_utf8(tail));
    assert(valid_first_scalar(tail));
    let rest = pop_first_scalar(tail);
    reveal_with_fuel(valid_utf8, 3);
    reveal_with_fuel(decode_utf8, 3);
    assert(valid_utf8(rest));
    if rest.len() > 0 {
        assert(valid_first_scalar(rest));
        assert(rest[0] == bytes[i + length_of_first_scalar(tail)]);
        assert(is_continuation_byte(rest[0]));
        assert(false);
    }
    assert(length_of_first_scalar(tail) == tail.len());
    assert(decode_utf8(rest) =~= Seq::<char>::empty());
    assert(decode_utf8(tail) =~= seq![decode_first_scalar(tail) as char]);
}

/// The last character of `bytes`, found by backing up over continuation bytes.
pub fn decode_last_char(bytes: &[u8]) -> (c: Option<char>)
    ensures
        c == last_char_of(bytes@),
{
    let n = bytes.len();
    let mut index = n;
    while index > 0
        invariant
            index <= n,
            n == bytes@.len(),
            forall|j: int| index <= j < n ==> is_continuation_byte(bytes@[j]),
        decreases index,
    {
        index -= 1;
        let byte = bytes[index];
        if !(0x80 <= byte && byte <= 0xBF) {
            proof {
                lemma_last_lead_index_unique(bytes@, index as int);
            }
            let ghost tail = bytes@.subrange(index as int, n as int);
            let len = n - index;
            if byte < 0x80 {
                if len != 1 {
                    return None;
                }
                let code = byte as u32;
                assert(code == codepoint_width_1(byte)) by (bit_vector)
                    requires
                        byte < 0x80,
                        code == byte as u32,
                ;
                return char_from_u32(code);
            } else if byte < 0xE0 {
                if len != 2 {
                    return None;
                }
                let b2 = bytes[index + 1];
                let code = decode_two(byte, b2);
                if code < 0x80 {
                    return None;
                }
                assert(code <= 0x7FF) by (bit_vector)
                    requires
                        code == (((byte & 0x1F) as u32) << 6) | ((b2 & 0x3F) as u32),
                ;
                return char_from_u32(code);
            } else if byte < 0xF0 {
                if len != 3 {
                    return None;
                }
                let b2 = bytes[index + 1];
                let b3 = bytes[index + 2];
                let code = decode_three(byte, b2, b3);
                if code < 0x800 || (0xD800 <= code && code <= 0xDFFF) {
                    return None;
                }
                assert(code <= 0xFFFF) by (bit_vector)
                    requires
                        code == (((byte & 0x0F) as u32) << 12) | (((b2 & 0x3F) as u32) << 6) | ((b3
                            & 0x3F) as u32),
                ;
                return char_from_u32(code);
            } else if byte < 0xF8 {
                if len != 4 {
                    return None;
                }
                let code = decode_four(
                    byte,
                    bytes[index + 1],
                    bytes[index + 2],
                    bytes[index + 3],
                );
                if code < 0x10000 || code > 0x10FFFF {
                    return None;
                }
                return char_from_u32(code);
            } else {
                return None;
            }
        }
    }
    proof {
        lemma_last_lead_index_unique(bytes@, -1);
    }
    None
}

} // verus!
