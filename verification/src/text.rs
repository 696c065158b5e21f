//! Byte-level helpers on UTF-8 text: cutting at character boundaries, searching, and
//! the escaping of `</script`.

use crate::fast_buffer::{lemma_ascii_valid, FastBuffer};
use cow_utils::CowUtils;
use vstd::prelude::*;
use vstd::slice::slice_subrange;
use vstd::string::StringSliceAdditionalSpecFns;
use vstd::utf8::*;

verus! {

/// `i` is the end of `bytes` or the place of a byte that starts a character.
pub open spec fn boundary_at(bytes: Seq<u8>, i: int) -> bool {
    i == bytes.len() || (0 <= i < bytes.len() && !is_continuation_byte(bytes[i]))
}

/// A piece of well-formed UTF-8 that is cut at two boundaries is well-formed.
pub proof fn lemma_subrange_valid(bytes: Seq<u8>, a: int, b: int)
    requires
        valid_utf8(bytes),
        0 <= a <= b <= bytes.len(),
        boundary_at(bytes, a),
        boundary_at(bytes, b),
    ensures
        valid_utf8(bytes.subrange(a, b)),
{
    broadcast use group_utf8_lib;

    let n = bytes.len() as int;
    if b < n {
        is_char_boundary_iff_not_is_continuation_byte(bytes, b);
    } else {
        is_char_boundary_start_end_of_seq(bytes);
    }
    valid_utf8_split(bytes, b);
    let head = bytes.subrange(0, b);
    assert(valid_utf8(head));
    if a < b {
        assert(head[a] == bytes[a]);
        is_char_boundary_iff_not_is_continuation_byte(head, a);
    } else {
        is_char_boundary_start_end_of_seq(head);
    }
    valid_utf8_split(head, a);
    assert(head.subrange(a, head.len() as int) =~= bytes.subrange(a, b));
}

/// In well-formed UTF-8 a boundary follows every ASCII byte.
pub proof fn lemma_boundary_after_ascii(bytes: Seq<u8>, i: int)
    requires
        valid_utf8(bytes),
        0 <= i < bytes.len(),
        bytes[i] < 0x80,
    ensures
        boundary_at(bytes, i + 1),
{
    broadcast use group_utf8_lib;

    is_char_boundary_iff_not_is_continuation_byte(bytes, i);
    valid_utf8_split(bytes, i);
    let tail = bytes.subrange(i, bytes.len() as int);
    assert(tail[0] == bytes[i]);
    reveal_with_fuel(valid_utf8, 2);
    assert(valid_first_scalar(tail));
    assert(length_of_first_scalar(tail) == 1);
    let rest = pop_first_scalar(tail);
    assert(valid_utf8(rest));
    if i + 1 < bytes.len() {
        assert(rest.len() > 0);
        assert(valid_first_scalar(rest));
        assert(rest[0] == bytes[i + 1]);
    }
}

/// In well-formed UTF-8 a boundary follows a three-byte character.
pub proof fn lemma_boundary_after_three(bytes: Seq<u8>, i: int)
    requires
        valid_utf8(bytes),
        0 <= i < bytes.len(),
        0xE0 <= bytes[i] < 0xF0,
    ensures
        i + 3 <= bytes.len(),
        boundary_at(bytes, i + 3),
{
    broadcast use group_utf8_lib;

    is_char_boundary_iff_not_is_continuation_byte(bytes, i);
    valid_utf8_split(bytes, i);
    let tail = bytes.subrange(i, bytes.len() as int);
    assert(tail[0] == bytes[i]);
    reveal_with_fuel(valid_utf8, 2);
    assert(valid_first_scalar(tail));
    assert(length_of_first_scalar(tail) == 3);
    let rest = pop_first_scalar(tail);
    assert(valid_utf8(rest));
    if i + 3 < bytes.len() {
        assert(rest.len() > 0);
        assert(valid_first_scalar(rest));
        assert(rest[0] == bytes[i + 3]);
    }
}

/// The bytes of a string are cut at boundaries at both of its ends.
pub proof fn lemma_str_bytes_valid(s: &str)
    ensures
        valid_utf8(s.spec_bytes()),
{
    broadcast use encode_utf8_valid_utf8;

}

/// The lower-case form of an ASCII letter, and every other byte as it is.
pub open spec fn spec_ascii_lower(b: u8) -> u8 {
    if 0x41 <= b <= 0x5A {
        (b + 0x20) as u8
    } else {
        b
    }
}

pub fn ascii_lower(b: u8) -> (l: u8)
    ensures
        l == spec_ascii_lower(b),
{
    if 0x41 <= b && b <= 0x5A {
        b + 0x20
    } else {
        b
    }
}

/// `bytes` holds, from `i` on, the bytes of `word`, read without regard to the case of
/// ASCII letters. `word` is given in lower case.
pub open spec fn matches_lower_at(bytes: Seq<u8>, i: int, word: Seq<u8>) -> bool {
    &&& 0 <= i
    &&& i + word.len() <= bytes.len()
    &&& forall|k: int| 0 <= k < word.len() ==> spec_ascii_lower(#[trigger] bytes[i + k]) == word[k]
}

/// `matches_lower_at`, decided.
pub fn starts_with_lower_at(bytes: &[u8], i: usize, word: &[u8]) -> (b: bool)
    ensures
        b == matches_lower_at(bytes@, i as int, word@),
{
    if i > bytes.len() || word.len() > bytes.len() - i {
        return false;
    }
    let mut k: usize = 0;
    while k < word.len()
        invariant
            k <= word.len(),
            i + word@.len() <= bytes@.len(),
            bytes@.len() <= usize::MAX,
            forall|j: int| 0 <= j < k ==> spec_ascii_lower(#[trigger] bytes@[i + j]) == word@[j],
        decreases word.len() - k,
    {
        if ascii_lower(bytes[i + k]) != word[k] {
            return false;
        }
        k += 1;
    }
    true
}

/// The bytes of `script`.
pub open spec fn script_word() -> Seq<u8> {
    seq![0x73u8, 0x63u8, 0x72u8, 0x69u8, 0x70u8, 0x74u8]
}

/// At `i` stands `</script`, in any case of its letters.
pub open spec fn script_close_at(bytes: Seq<u8>, i: int) -> bool {
    &&& 0 <= i
    &&& i + 8 <= bytes.len()
    &&& bytes[i] == 0x3C
    &&& bytes[i + 1] == 0x2F
    &&& matches_lower_at(bytes, i + 2, script_word())
}

pub fn is_script_close_at(bytes: &[u8], i: usize) -> (b: bool)
    ensures
        b == script_close_at(bytes@, i as int),
{
    if i > bytes.len() || bytes.len() - i < 8 {
        return false;
    }
    if bytes[i] != 0x3C || bytes[i + 1] != 0x2F {
        return false;
    }
    let word: [u8; 6] = [0x73, 0x63, 0x72, 0x69, 0x70, 0x74];
    assert(word@ =~= script_word());
    starts_with_lower_at(bytes, i + 2, word.as_slice())
}

/// `bytes` from `i` on, with a backslash put between the `<` and the `/` of every
/// `</script`.
pub open spec fn escape_script_from(bytes: Seq<u8>, i: int) -> Seq<u8>
    decreases bytes.len() - i,
{
    if i < 0 || i >= bytes.len() {
        Seq::empty()
    } else if script_close_at(bytes, i) {
        seq![0x3Cu8, 0x5Cu8, 0x2Fu8] + escape_script_from(bytes, i + 2)
    } else {
        seq![bytes[i]] + escape_script_from(bytes, i + 1)
    }
}

/// `bytes` with every `</script` turned into `<\/script`.
pub open spec fn escape_script_close_tag(bytes: Seq<u8>) -> Seq<u8> {
    escape_script_from(bytes, 0)
}

/// Escaping never shortens a text.
pub proof fn lemma_escape_script_len(bytes: Seq<u8>, i: int)
    requires
        0 <= i <= bytes.len(),
    ensures
        escape_script_from(bytes, i).len() >= bytes.len() - i,
    decreases bytes.len() - i,
{
    if i < bytes.len() {
        if script_close_at(bytes, i) {
            lemma_escape_script_len(bytes, i + 2);
        } else {
            lemma_escape_script_len(bytes, i + 1);
        }
    }
}

/// The escaped text holds no `</script`.
pub proof fn lemma_escape_script_free(bytes: Seq<u8>, i: int, j: int)
    requires
        0 <= i <= bytes.len(),
        0 <= j,
    ensures
        !script_close_at(escape_script_from(bytes, i), j),
    decreases bytes.len() - i, j,
{
    let out = escape_script_from(bytes, i);
    if i < bytes.len() && script_close_at(out, j) {
        assert(spec_ascii_lower(out[j + 2 + 0]) == script_word()[0]);
        assert(spec_ascii_lower(out[j + 2 + 1]) == script_word()[1]);
        if script_close_at(bytes, i) {
            let rest = escape_script_from(bytes, i + 2);
            assert(out == seq![0x3Cu8, 0x5Cu8, 0x2Fu8] + rest);
            if j == 0 {
                assert(out[1] == 0x5C);
            } else if j == 1 {
                assert(out[1] == 0x5C);
            } else if j == 2 {
                // the `/` that was kept is followed by `script`, not by `/`
                assert(out[2] == 0x2F);
            } else {
                assert forall|k: int| 0 <= k < 6 implies spec_ascii_lower(
                    #[trigger] rest[(j - 3) + 2 + k],
                ) == script_word()[k] by {
                    assert(rest[(j - 3) + 2 + k] == out[j + 2 + k]);
                }
                assert(rest[j - 3] == out[j]);
                assert(rest[j - 3 + 1] == out[j + 1]);
                assert(script_close_at(rest, j - 3));
                lemma_escape_script_free(bytes, i + 2, j - 3);
            }
        } else {
            let rest = escape_script_from(bytes, i + 1);
            assert(out == seq![bytes[i]] + rest);
            if j == 0 {
                // the text that follows begins as the input does from `i + 1` on
                assert(rest[0] == out[1]);
                assert forall|k: int| 0 <= k < 7 implies #[trigger] rest[k] != 0x3C by {
                    if k > 0 {
                        assert(rest[k] == out[0 + 2 + (k - 1)]);
                        assert(spec_ascii_lower(out[0 + 2 + (k - 1)]) == script_word()[k - 1]);
                    }
                }
                lemma_escape_script_head(bytes, i + 1, 7);
                assert forall|k: int| 0 <= k < 6 implies spec_ascii_lower(
                    #[trigger] bytes[(i + 2) + k],
                ) == script_word()[k] by {
                    assert(rest[1 + k] == out[0 + 2 + k]);
                    assert(bytes[(i + 1) + (1 + k)] == rest[1 + k]);
                }
                assert(bytes[(i + 1) + 0] == rest[0]);
                assert(script_close_at(bytes, i));
            } else {
                assert forall|k: int| 0 <= k < 6 implies spec_ascii_lower(
                    #[trigger] rest[(j - 1) + 2 + k],
                ) == script_word()[k] by {
                    assert(rest[(j - 1) + 2 + k] == out[j + 2 + k]);
                }
                assert(rest[j - 1] == out[j]);
                assert(rest[j - 1 + 1] == out[j + 1]);
                assert(script_close_at(rest, j - 1));
                lemma_escape_script_free(bytes, i + 1, j - 1);
            }
        }
    }
}

/// Where the escaped text from `i` on has `n` bytes that begin with `/` and go on with
/// letters of `script`, the input has the same bytes there: none of them is a `<`.
proof fn lemma_escape_script_head(bytes: Seq<u8>, i: int, n: int)
    requires
        0 <= i <= bytes.len(),
        0 <= n <= escape_script_from(bytes, i).len(),
        forall|k: int| 0 <= k < n ==> #[trigger] escape_script_from(bytes, i)[k] != 0x3C,
    ensures
        i + n <= bytes.len(),
        forall|k: int| 0 <= k < n ==> #[trigger] bytes[i + k] == escape_script_from(bytes, i)[k],
    decreases n,
{
    let out = escape_script_from(bytes, i);
    if n > 0 {
        if script_close_at(bytes, i) {
            assert(out[0] == 0x3C);
            assert(false);
        }
        let rest = escape_script_from(bytes, i + 1);
        assert(out == seq![bytes[i]] + rest);
        assert forall|k: int| 0 <= k < n - 1 implies #[trigger] rest[k] != 0x3C by {
            assert(rest[k] == out[k + 1]);
        }
        lemma_escape_script_head(bytes, i + 1, n - 1);
        assert forall|k: int| 0 <= k < n implies #[trigger] bytes[i + k] == out[k] by {
            if k > 0 {
                assert(bytes[(i + 1) + (k - 1)] == rest[k - 1]);
                assert(rest[k - 1] == out[k]);
            }
        }
    }
}

/// Appends `s` to `buf`, with every `</script` turned into `<\/script`.
pub fn print_escaping_script_close_tag(buf: &mut FastBuffer, s: &str)
    requires
        old(buf).wf(),
    ensures
        final(buf).wf(),
        final(buf)@ == old(buf)@ + escape_script_close_tag(s.spec_bytes()),
        final(buf).model().indent_char == old(buf).model().indent_char,
        final(buf).model().indent_width == old(buf).model().indent_width,
{
    let bytes = s.as_bytes();
    let len = bytes.len();
    proof {
        lemma_str_bytes_valid(s);
    }
    if len < 8 {
        proof {
            lemma_escape_script_short(bytes@, 0);
        }
        buf.print_str(s);
        return ;
    }
    let mut consumed: usize = 0;
    let mut index: usize = 0;
    assert(bytes@.subrange(0, 0) =~= Seq::<u8>::empty());
    while index < len
        invariant
            consumed <= index <= len,
            len == bytes@.len(),
            bytes@ == s.spec_bytes(),
            valid_utf8(bytes@),
            boundary_at(bytes@, consumed as int),
            buf.wf(),
            buf.model().indent_char == old(buf).model().indent_char,
            buf.model().indent_width == old(buf).model().indent_width,
            buf@ + bytes@.subrange(consumed as int, index as int) + escape_script_from(
                bytes@,
                index as int,
            ) == old(buf)@ + escape_script_from(bytes@, 0),
        decreases len - index,
    {
        if is_script_close_at(bytes, index) {
            proof {
                lemma_subrange_valid(bytes@, consumed as int, index as int + 1);
                lemma_boundary_after_ascii(bytes@, index as int + 1);
            }
            let piece = slice_subrange(bytes, consumed, index + 1);
            let ghost before = buf@;
            proof {
                buf.lemma_wf_valid_utf8();
                valid_utf8_concat(buf@, piece@);
            }
            buf.print_bytes_unchecked(piece);
            buf.print_ascii_byte(0x5C);
            buf.print_ascii_byte(0x2F);
            proof {
                let esc = escape_script_from(bytes@, index as int + 2);
                assert(bytes@.subrange(consumed as int, index as int + 1) =~= bytes@.subrange(
                    consumed as int,
                    index as int,
                ) + seq![0x3Cu8]);
                assert(bytes@.subrange(index as int + 2, index as int + 2) =~= Seq::<u8>::empty());
                assert(buf@ + bytes@.subrange(index as int + 2, index as int + 2) + esc =~= before
                    + bytes@.subrange(consumed as int, index as int) + (seq![0x3Cu8, 0x5Cu8, 0x2Fu8]
                    + esc));
            }
            consumed = index + 2;
            index = index + 2;
        } else {
            proof {
                let esc = escape_script_from(bytes@, index as int + 1);
                assert(bytes@.subrange(consumed as int, index as int + 1) =~= bytes@.subrange(
                    consumed as int,
                    index as int,
                ) + seq![bytes@[index as int]]);
                assert(buf@ + bytes@.subrange(consumed as int, index as int + 1) + esc =~= buf@
                    + bytes@.subrange(consumed as int, index as int) + (seq![bytes@[index as int]]
                    + esc));
            }
            index = index + 1;
        }
    }
    proof {
        lemma_subrange_valid(bytes@, consumed as int, len as int);
        buf.lemma_wf_valid_utf8();
        valid_utf8_concat(buf@, bytes@.subrange(consumed as int, len as int));
        assert(buf@ + bytes@.subrange(consumed as int, len as int) + Seq::<u8>::empty() =~= buf@
            + bytes@.subrange(consumed as int, len as int));
    }
    let piece = slice_subrange(bytes, consumed, len);
    buf.print_bytes_unchecked(piece);
}

/// A text of fewer than eight bytes holds no `</script` and is escaped to itself.
pub proof fn lemma_escape_script_short(bytes: Seq<u8>, i: int)
    requires
        0 <= i <= bytes.len(),
        bytes.len() < 8,
    ensures
        escape_script_from(bytes, i) == bytes.subrange(i, bytes.len() as int),
    decreases bytes.len() - i,
{
    if i < bytes.len() {
        lemma_escape_script_short(bytes, i + 1);
        assert(seq![bytes[i]] + bytes.subrange(i + 1, bytes.len() as int) =~= bytes.subrange(
            i,
            bytes.len() as int,
        ));
    } else {
        assert(bytes.subrange(i, bytes.len() as int) =~= Seq::<u8>::empty());
    }
}

/// Every byte is ASCII.
pub open spec fn all_ascii(bytes: Seq<u8>) -> bool {
    forall|i: int| 0 <= i < bytes.len() ==> bytes[i] < 0x80
}

pub fn is_all_ascii(bytes: &[u8]) -> (b: bool)
    ensures
        b == all_ascii(bytes@),
        b ==> valid_utf8(bytes@),
{
    let mut i: usize = 0;
    while i < bytes.len()
        invariant
            i <= bytes.len(),
            forall|j: int| 0 <= j < i ==> bytes@[j] < 0x80,
        decreases bytes.len() - i,
    {
        if bytes[i] >= 0x80 {
            return false;
        }
        i += 1;
    }
    proof {
        lemma_ascii_valid(bytes@);
    }
    true
}

} // verus!

verus! {

/// A boundary in the sense of this module is a character boundary of well-formed UTF-8.
pub proof fn lemma_boundary_is_char_boundary(bytes: Seq<u8>, i: int)
    requires
        valid_utf8(bytes),
        boundary_at(bytes, i),
    ensures
        is_char_boundary(bytes, i),
{
    broadcast use group_utf8_lib;

    if i < bytes.len() {
        is_char_boundary_iff_not_is_continuation_byte(bytes, i);
    } else {
        is_char_boundary_start_end_of_seq(bytes);
    }
}

/// The bytes of `source` from `start` to `end`, where these are a piece of its text: the
/// range lies inside the source and is cut at boundaries. Any other range gives `None`.
pub open spec fn source_slice(source: Seq<u8>, start: int, end: int) -> Option<Seq<u8>> {
    if 0 <= start <= end <= source.len() && boundary_at(source, start) && boundary_at(source, end) {
        Some(source.subrange(start, end))
    } else {
        None
    }
}

/// The piece of `s` from `start` to `end`: see `source_slice`.
pub fn str_slice<'a>(s: &'a str, start: usize, end: usize) -> (piece: Option<&'a str>)
    ensures
        match piece {
            Some(p) => source_slice(s.spec_bytes(), start as int, end as int) == Some(
                p.spec_bytes(),
            ),
            None => source_slice(s.spec_bytes(), start as int, end as int) is None,
        },
{
    broadcast use group_utf8_lib;

    proof {
        lemma_str_bytes_valid(s);
    }
    let bytes = s.as_bytes();
    let n = bytes.len();
    if start > end || end > n {
        return None;
    }
    if (start < n && is_continuation(bytes[start])) || (end < n && is_continuation(bytes[end])) {
        return None;
    }
    proof {
        lemma_boundary_is_char_boundary(bytes@, end as int);
        lemma_subrange_valid(bytes@, 0, end as int);
    }
    let (head, _) = s.split_at(end);
    proof {
        let h = head.spec_bytes();
        assert(h =~= bytes@.subrange(0, end as int));
        if start < end {
            assert(h[start as int] == bytes@[start as int]);
        }
        lemma_str_bytes_valid(head);
        lemma_boundary_is_char_boundary(h, start as int);
    }
    let (_, piece) = head.split_at(start);
    assert(piece.spec_bytes() =~= bytes@.subrange(start as int, end as int));
    Some(piece)
}

/// The byte continues a character that an earlier byte began.
pub fn is_continuation(b: u8) -> (r: bool)
    ensures
        r == is_continuation_byte(b),
{
    0x80 <= b && b <= 0xBF
}

/// The two byte strings are the same.
pub fn bytes_eq(a: &[u8], b: &[u8]) -> (same: bool)
    ensures
        same == (a@ == b@),
{
    if a.len() != b.len() {
        return false;
    }
    let mut i: usize = 0;
    while i < a.len()
        invariant
            i <= a.len(),
            a@.len() == b@.len(),
            forall|j: int| 0 <= j < i ==> a@[j] == b@[j],
        decreases a.len() - i,
    {
        if a[i] != b[i] {
            return false;
        }
        i += 1;
    }
    assert(a@ =~= b@);
    true
}

/// `bytes` begins with `prefix`.
pub open spec fn has_prefix(bytes: Seq<u8>, prefix: Seq<u8>) -> bool {
    prefix.len() <= bytes.len() && bytes.subrange(0, prefix.len() as int) == prefix
}

/// `bytes` ends with `suffix`.
pub open spec fn has_suffix(bytes: Seq<u8>, suffix: Seq<u8>) -> bool {
    suffix.len() <= bytes.len() && bytes.subrange(bytes.len() - suffix.len(), bytes.len() as int)
        == suffix
}

pub fn starts_with(bytes: &[u8], prefix: &[u8]) -> (b: bool)
    ensures
        b == has_prefix(bytes@, prefix@),
{
    if prefix.len() > bytes.len() {
        return false;
    }
    bytes_eq(slice_subrange(bytes, 0, prefix.len()), prefix)
}

pub fn ends_with(bytes: &[u8], suffix: &[u8]) -> (b: bool)
    ensures
        b == has_suffix(bytes@, suffix@),
{
    if suffix.len() > bytes.len() {
        return false;
    }
    bytes_eq(slice_subrange(bytes, bytes.len() - suffix.len(), bytes.len()), suffix)
}

/// The character is white space as Unicode defines it.
pub open spec fn is_white_space(c: char) -> bool {
    let v = c as u32;
    (0x09 <= v <= 0x0D) || v == 0x20 || v == 0x85 || v == 0xA0 || v == 0x1680 || (0x2000 <= v
        <= 0x200A) || v == 0x2028 || v == 0x2029 || v == 0x202F || v == 0x205F || v == 0x3000
}

/// `chars` without the white space it begins with.
pub open spec fn trimmed_start(chars: Seq<char>) -> Seq<char>
    decreases chars.len(),
{
    if chars.len() > 0 && is_white_space(chars[0]) {
        trimmed_start(chars.drop_first())
    } else {
        chars
    }
}

/// `str::trim_start` of std: the text without the white space it begins with, where
/// white space is what the Unicode property White_Space names.
#[verifier::external_body]
pub(crate) fn str_trim_start<'a>(s: &'a str) -> (t: &'a str)
    ensures
        t@ == trimmed_start(s@),
{
    s.trim_start()
}

/// A line terminator starts at `i`: a line feed, a carriage return, or one of the
/// separators U+2028 and U+2029.
pub open spec fn break_at(bytes: Seq<u8>, i: int) -> bool {
    0 <= i < bytes.len() && (bytes[i] == 0x0A || bytes[i] == 0x0D || unicode_break_at(bytes, i))
}

/// One of the separators U+2028 and U+2029 starts at `i`.
pub open spec fn unicode_break_at(bytes: Seq<u8>, i: int) -> bool {
    0 <= i && i + 2 < bytes.len() && bytes[i] == 0xE2 && bytes[i + 1] == 0x80 && (bytes[i + 2]
        == 0xA8 || bytes[i + 2] == 0xA9)
}

/// The length of the line terminator that starts at `i`: a carriage return and the line
/// feed behind it are one terminator.
pub open spec fn break_len(bytes: Seq<u8>, i: int) -> int {
    if bytes[i] == 0x0A {
        1
    } else if bytes[i] == 0x0D {
        if i + 1 < bytes.len() && bytes[i + 1] == 0x0A {
            2
        } else {
            1
        }
    } else {
        3
    }
}

/// What a search looks for.
pub enum Needle {
    /// A given byte.
    Byte(u8),
    /// A line feed or a carriage return.
    AsciiBreak,
    /// One of the separators U+2028 and U+2029.
    UnicodeBreak,
    /// Any line terminator.
    Break,
}

/// What the search looks for stands at `i`.
pub open spec fn found_at(bytes: Seq<u8>, needle: Needle, i: int) -> bool {
    0 <= i < bytes.len() && match needle {
        Needle::Byte(target) => bytes[i] == target,
        Needle::AsciiBreak => bytes[i] == 0x0A || bytes[i] == 0x0D,
        Needle::UnicodeBreak => unicode_break_at(bytes, i),
        Needle::Break => break_at(bytes, i),
    }
}

/// The first place from `i` on where the needle stands, or the length of the text.
pub open spec fn first_from(bytes: Seq<u8>, needle: Needle, i: int) -> int
    decreases bytes.len() - i,
{
    if i < 0 || i >= bytes.len() {
        bytes.len() as int
    } else if found_at(bytes, needle, i) {
        i
    } else {
        first_from(bytes, needle, i + 1)
    }
}

pub proof fn lemma_first_from(bytes: Seq<u8>, needle: Needle, i: int)
    requires
        0 <= i <= bytes.len(),
    ensures
        i <= first_from(bytes, needle, i) <= bytes.len(),
        first_from(bytes, needle, i) < bytes.len() ==> found_at(
            bytes,
            needle,
            first_from(bytes, needle, i),
        ),
        forall|j: int| i <= j < first_from(bytes, needle, i) ==> !found_at(bytes, needle, j),
    decreases bytes.len() - i,
{
    if i < bytes.len() && !found_at(bytes, needle, i) {
        lemma_first_from(bytes, needle, i + 1);
    }
}

/// Where the needle stands at `at` and nowhere from `i` up to `at`, `at` is the first
/// place.
pub proof fn lemma_first_from_is(bytes: Seq<u8>, needle: Needle, i: int, at: int)
    requires
        0 <= i <= at <= bytes.len(),
        forall|j: int| i <= j < at ==> !found_at(bytes, needle, j),
        at < bytes.len() ==> found_at(bytes, needle, at),
    ensures
        first_from(bytes, needle, i) == at,
    decreases at - i,
{
    if i < at {
        lemma_first_from_is(bytes, needle, i + 1, at);
    }
}

/// The first `target` in `bytes`.
pub open spec fn first_byte(bytes: Seq<u8>, target: u8) -> int {
    first_from(bytes, Needle::Byte(target), 0)
}

/// The first line feed or carriage return in `bytes`.
pub open spec fn first_ascii_break(bytes: Seq<u8>) -> int {
    first_from(bytes, Needle::AsciiBreak, 0)
}

/// The first U+2028 or U+2029 in `bytes`.
pub open spec fn first_unicode_break(bytes: Seq<u8>) -> int {
    first_from(bytes, Needle::UnicodeBreak, 0)
}

/// The first line terminator in `bytes`.
pub open spec fn first_break(bytes: Seq<u8>) -> int {
    first_from(bytes, Needle::Break, 0)
}

/// Index of the first `target` in `bytes`.
pub fn find_byte(bytes: &[u8], target: u8) -> (at: Option<usize>)
    ensures
        match at {
            Some(i) => i < bytes@.len() && i == first_byte(bytes@, target),
            None => first_byte(bytes@, target) == bytes@.len(),
        },
{
    let n = bytes.len();
    let mut i: usize = 0;
    while i < n
        invariant
            i <= n,
            n == bytes@.len(),
            forall|j: int| 0 <= j < i ==> !found_at(bytes@, Needle::Byte(target), j),
        decreases n - i,
    {
        if bytes[i] == target {
            proof {
                lemma_first_from_is(bytes@, Needle::Byte(target), 0, i as int);
            }
            return Some(i);
        }
        i += 1;
    }
    proof {
        lemma_first_from_is(bytes@, Needle::Byte(target), 0, n as int);
    }
    None
}

/// Index of the first line feed or carriage return in `bytes`.
pub fn find_ascii_break(bytes: &[u8]) -> (at: Option<usize>)
    ensures
        match at {
            Some(i) => i < bytes@.len() && i == first_ascii_break(bytes@),
            None => first_ascii_break(bytes@) == bytes@.len(),
        },
{
    let n = bytes.len();
    let mut i: usize = 0;
    while i < n
        invariant
            i <= n,
            n == bytes@.len(),
            forall|j: int| 0 <= j < i ==> !found_at(bytes@, Needle::AsciiBreak, j),
        decreases n - i,
    {
        if bytes[i] == 0x0A || bytes[i] == 0x0D {
            proof {
                lemma_first_from_is(bytes@, Needle::AsciiBreak, 0, i as int);
            }
            return Some(i);
        }
        i += 1;
    }
    proof {
        lemma_first_from_is(bytes@, Needle::AsciiBreak, 0, n as int);
    }
    None
}

/// Index of the first U+2028 or U+2029 in `bytes`.
pub fn find_unicode_break(bytes: &[u8]) -> (at: Option<usize>)
    ensures
        match at {
            Some(i) => i < bytes@.len() && i == first_unicode_break(bytes@),
            None => first_unicode_break(bytes@) == bytes@.len(),
        },
{
    let n = bytes.len();
    let mut i: usize = 0;
    while i < n
        invariant
            i <= n,
            n == bytes@.len(),
            forall|j: int| 0 <= j < i ==> !found_at(bytes@, Needle::UnicodeBreak, j),
        decreases n - i,
    {
        if bytes[i] == 0xE2 && n - i > 2 && bytes[i + 1] == 0x80 && (bytes[i + 2] == 0xA8 || bytes[i
            + 2] == 0xA9) {
            proof {
                lemma_first_from_is(bytes@, Needle::UnicodeBreak, 0, i as int);
            }
            return Some(i);
        }
        i += 1;
    }
    proof {
        lemma_first_from_is(bytes@, Needle::UnicodeBreak, 0, n as int);
    }
    None
}

/// The first line of `bytes`, up to its terminator.
pub open spec fn first_line(bytes: Seq<u8>) -> Seq<u8> {
    bytes.subrange(0, first_break(bytes))
}

/// What follows the first line of `bytes` and its terminator.
pub open spec fn after_first_line(bytes: Seq<u8>) -> Seq<u8> {
    let at = first_break(bytes);
    if at < bytes.len() {
        bytes.subrange(at + break_len(bytes, at), bytes.len() as int)
    } else {
        Seq::empty()
    }
}

pub proof fn lemma_after_first_line_shorter(bytes: Seq<u8>)
    requires
        bytes.len() > 0,
    ensures
        after_first_line(bytes).len() < bytes.len(),
        first_break(bytes) <= bytes.len(),
        first_break(bytes) < bytes.len() ==> first_break(bytes) + break_len(
            bytes,
            first_break(bytes),
        ) <= bytes.len() && break_at(bytes, first_break(bytes)),
{
    lemma_first_from(bytes, Needle::Break, 0);
}

/// Hands out a text line by line. A line ends at a line feed, a carriage return (with
/// the line feed behind it, if there is one), U+2028 or U+2029.
pub struct LineTerminatorSplitter<'a> {
    text: &'a str,
}

impl<'a> LineTerminatorSplitter<'a> {
    /// What is still to be handed out.
    pub closed spec fn remaining(&self) -> Seq<u8> {
        self.text.spec_bytes()
    }

    pub fn new(text: &'a str) -> (s: LineTerminatorSplitter<'a>)
        ensures
            s.remaining() == text.spec_bytes(),
    {
        LineTerminatorSplitter { text }
    }

    /// The next line, and `None` when the text is used up.
    pub fn next(&mut self) -> (line: Option<&'a str>)
        ensures
            match line {
                Some(l) => old(self).remaining().len() > 0 && l.spec_bytes() == first_line(
                    old(self).remaining(),
                ) && final(self).remaining() == after_first_line(old(self).remaining()),
                None => old(self).remaining().len() == 0 && final(self).remaining() == old(
                    self,
                ).remaining(),
            },
    {
        let text = self.text;
        let bytes = text.as_bytes();
        let n = bytes.len();
        if n == 0 {
            return None;
        }
        proof {
            lemma_str_bytes_valid(text);
            lemma_first_from(bytes@, Needle::Break, 0);
            lemma_first_from(bytes@, Needle::AsciiBreak, 0);
            lemma_first_from(bytes@, Needle::UnicodeBreak, 0);
        }
        let ascii_index = find_ascii_break(bytes);
        let ls_index = find_unicode_break(bytes);
        let at: usize = match (ascii_index, ls_index) {
            (Some(i), Some(j)) => if j < i {
                j
            } else {
                i
            },
            (Some(i), None) => i,
            (None, Some(j)) => j,
            (None, None) => n,
        };
        proof {
            assert forall|j: int| 0 <= j < at implies !found_at(bytes@, Needle::Break, j) by {
                assert(!found_at(bytes@, Needle::AsciiBreak, j));
                assert(!found_at(bytes@, Needle::UnicodeBreak, j));
            }
            if at < n {
                assert(found_at(bytes@, Needle::AsciiBreak, at as int) || found_at(
                    bytes@,
                    Needle::UnicodeBreak,
                    at as int,
                ));
            }
            lemma_first_from_is(bytes@, Needle::Break, 0, at as int);
        }
        if at == n {
            let (line, rest) = split_str(text, n);
            self.text = rest;
            assert(line.spec_bytes() =~= first_line(bytes@));
            assert(rest.spec_bytes() =~= after_first_line(bytes@));
            return Some(line);
        }
        let skip: usize = if bytes[at] == 0x0A {
            1
        } else if bytes[at] == 0x0D {
            if n - at > 1 && bytes[at + 1] == 0x0A {
                2
            } else {
                1
            }
        } else {
            3
        };
        proof {
            if skip == 3 {
                lemma_boundary_after_three(bytes@, at as int);
            } else if skip == 2 {
                lemma_boundary_after_ascii(bytes@, at as int + 1);
            } else {
                lemma_boundary_after_ascii(bytes@, at as int);
            }
        }
        let (line, tail) = split_str(text, at);
        proof {
            lemma_str_bytes_valid(tail);
            assert(boundary_at(tail.spec_bytes(), skip as int)) by {
                if at + skip < n {
                    assert(tail.spec_bytes()[skip as int] == bytes@[at + skip]);
                }
            }
        }
        let (_, rest) = split_str(tail, skip);
        self.text = rest;
        assert(line.spec_bytes() =~= first_line(bytes@));
        assert(rest.spec_bytes() =~= after_first_line(bytes@));
        Some(line)
    }
}

/// `s` cut in two at the boundary `at`.
pub fn split_str<'a>(s: &'a str, at: usize) -> (parts: (&'a str, &'a str))
    requires
        boundary_at(s.spec_bytes(), at as int),
    ensures
        parts.0.spec_bytes() == s.spec_bytes().subrange(0, at as int),
        parts.1.spec_bytes() == s.spec_bytes().subrange(at as int, s.spec_bytes().len() as int),
{
    proof {
        lemma_str_bytes_valid(s);
        lemma_boundary_is_char_boundary(s.spec_bytes(), at as int);
    }
    s.split_at(at)
}

} // verus!

verus! {

/// The two strings are the same text.
pub fn str_equal(a: &str, b: &str) -> (same: bool)
    ensures
        same == (a@ == b@),
{
    let same = bytes_eq(a.as_bytes(), b.as_bytes());
    proof {
        encode_utf8_decode_utf8(a@);
        encode_utf8_decode_utf8(b@);
    }
    same
}

/// `CowUtils::cow_to_ascii_lowercase` of the cow_utils crate: the text with every ASCII
/// capital turned into its small letter, and every other byte as it is.
#[verifier::external_body]
fn ascii_lowercase(s: &str) -> (lower: Vec<u8>)
    ensures
        lower@.len() == s.spec_bytes().len(),
        forall|i: int| 0 <= i < lower@.len() ==> lower@[i] == spec_ascii_lower(s.spec_bytes()[i]),
{
    s.cow_to_ascii_lowercase().as_bytes().to_vec()
}

/// The text starts with `script`, in any case of its letters.
pub fn starts_with_script(text: &str) -> (b: bool)
    ensures
        b == matches_lower_at(text.spec_bytes(), 0, script_word()),
{
    let word: [u8; 6] = [0x73, 0x63, 0x72, 0x69, 0x70, 0x74];
    assert(word@ =~= script_word());
    match str_slice(text, 0, 6) {
        Some(head) => {
            let lower = ascii_lowercase(head);
            let same = bytes_eq(lower.as_slice(), word.as_slice());
            proof {
                let bytes = text.spec_bytes();
                if same {
                    assert forall|k: int| 0 <= k < 6 implies spec_ascii_lower(
                        #[trigger] bytes[0 + k],
                    ) == script_word()[k] by {
                        assert(lower@[k] == spec_ascii_lower(head.spec_bytes()[k]));
                        assert(head.spec_bytes()[k] == bytes[k]);
                    }
                } else if matches_lower_at(bytes, 0, script_word()) {
                    assert forall|k: int| 0 <= k < 6 implies lower@[k] == word@[k] by {
                        assert(lower@[k] == spec_ascii_lower(head.spec_bytes()[k]));
                        assert(head.spec_bytes()[k] == bytes[0 + k]);
                    }
                    assert(lower@ =~= word@);
                }
            }
            same
        },
        None => {
            proof {
                let bytes = text.spec_bytes();
                lemma_str_bytes_valid(text);
                if matches_lower_at(bytes, 0, script_word()) {
                    assert(spec_ascii_lower(bytes[0int + 5]) == script_word()[5]);
                    lemma_boundary_after_ascii(bytes, 5);
                    assert(boundary_at(bytes, 0));
                }
            }
            false
        },
    }
}

} // verus!
