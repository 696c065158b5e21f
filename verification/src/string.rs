//! String literals: which quote they get, and what is escaped inside them.

use crate::fast_buffer::FastBuffer;
use crate::text::{
    boundary_at, is_script_close_at, lemma_boundary_after_ascii, lemma_boundary_after_three,
    lemma_str_bytes_valid, lemma_subrange_valid, script_close_at,
};
use vstd::prelude::*;
use vstd::slice::slice_subrange;
use vstd::string::StringSliceAdditionalSpecFns;
use vstd::utf8::*;

verus! {

/// The quote that a string literal stands in.
#[derive(Clone, Copy, Debug, PartialEq, Eq, Structural)]
pub enum Quote {
    Single,
    Double,
}

impl Quote {
    pub open spec fn spec_byte(self) -> u8 {
        match self {
            Quote::Single => 0x27,
            Quote::Double => 0x22,
        }
    }

    pub fn byte(self) -> (b: u8)
        ensures
            b == self.spec_byte(),
            b < 0x80,
    {
        match self {
            Quote::Single => 0x27,
            Quote::Double => 0x22,
        }
    }
}

/// How often `target` stands in the first `n` bytes of `bytes`.
pub open spec fn count_byte(bytes: Seq<u8>, target: u8, n: int) -> nat
    decreases n,
{
    if n <= 0 || n > bytes.len() {
        0
    } else {
        count_byte(bytes, target, n - 1) + if bytes[n - 1] == target {
            1nat
        } else {
            0nat
        }
    }
}

/// The quote that costs the fewest escapes for `bytes`, and `preferred` where both
/// cost the same.
pub open spec fn spec_choose_quote(bytes: Seq<u8>, preferred: Quote) -> Quote {
    let single = count_byte(bytes, 0x27, bytes.len() as int);
    let double = count_byte(bytes, 0x22, bytes.len() as int);
    if single < double {
        Quote::Single
    } else if double < single {
        Quote::Double
    } else {
        preferred
    }
}

pub fn choose_quote(value: &str, preferred: Quote) -> (q: Quote)
    ensures
        q == spec_choose_quote(value.spec_bytes(), preferred),
{
    let bytes = value.as_bytes();
    let n = bytes.len();
    let mut single: usize = 0;
    let mut double: usize = 0;
    let mut i: usize = 0;
    while i < n
        invariant
            i <= n,
            n == bytes@.len(),
            single == count_byte(bytes@, 0x27, i as int),
            double == count_byte(bytes@, 0x22, i as int),
            single <= i,
            double <= i,
        decreases n - i,
    {
        if bytes[i] == 0x27 {
            single += 1;
        } else if bytes[i] == 0x22 {
            double += 1;
        }
        i += 1;
    }
    if single < double {
        Quote::Single
    } else if double < single {
        Quote::Double
    } else {
        preferred
    }
}

/// A backslash and the byte `b`.
pub open spec fn backslash(b: u8) -> Seq<u8> {
    seq![0x5Cu8, b]
}

/// What stands for the bytes at `i` inside a literal quoted with `quote`, and how many
/// bytes of the value it stands for; `None` where the byte at `i` is copied.
///
/// Escaped are the backslash, the quote, line feed and carriage return, the control
/// characters NUL, BEL, BS, VT, FF and ESC, the line and paragraph separators U+2028
/// and U+2029, and the `/` of `</script`.
pub open spec fn replacement_at(bytes: Seq<u8>, i: int, quote: u8) -> Option<(Seq<u8>, int)> {
    let b = bytes[i];
    if b == 0x5C {
        Some((backslash(0x5C), 1))
    } else if b == quote {
        Some((backslash(quote), 1))
    } else if b == 0x0A {
        Some((backslash(0x6E), 1))
    } else if b == 0x0D {
        Some((backslash(0x72), 1))
    } else if b == 0x00 {
        if i + 1 < bytes.len() && 0x30 <= bytes[i + 1] <= 0x39 {
            Some((seq![0x5Cu8, 0x78u8, 0x30u8, 0x30u8], 1))
        } else {
            Some((backslash(0x30), 1))
        }
    } else if b == 0x07 {
        Some((seq![0x5Cu8, 0x78u8, 0x30u8, 0x37u8], 1))
    } else if b == 0x08 {
        Some((backslash(0x62), 1))
    } else if b == 0x0B {
        Some((backslash(0x76), 1))
    } else if b == 0x0C {
        Some((backslash(0x66), 1))
    } else if b == 0x1B {
        Some((seq![0x5Cu8, 0x78u8, 0x31u8, 0x42u8], 1))
    } else if b == 0xE2 && i + 2 < bytes.len() && bytes[i + 1] == 0x80 && bytes[i + 2] == 0xA8 {
        Some((seq![0x5Cu8, 0x75u8, 0x32u8, 0x30u8, 0x32u8, 0x38u8], 3))
    } else if b == 0xE2 && i + 2 < bytes.len() && bytes[i + 1] == 0x80 && bytes[i + 2] == 0xA9 {
        Some((seq![0x5Cu8, 0x75u8, 0x32u8, 0x30u8, 0x32u8, 0x39u8], 3))
    } else if script_close_at(bytes, i) {
        Some((seq![0x3Cu8, 0x5Cu8, 0x2Fu8], 2))
    } else {
        None
    }
}

/// The number of bytes that the replacement at `i` stands for, and 0 where there is none.
pub open spec fn replaced_len(bytes: Seq<u8>, i: int, quote: u8) -> int {
    match replacement_at(bytes, i, quote) {
        Some((text, used)) => used,
        None => 0,
    }
}

/// The replacement at `i`, and nothing where there is none.
pub open spec fn replacing_text(bytes: Seq<u8>, i: int, quote: u8) -> Seq<u8> {
    match replacement_at(bytes, i, quote) {
        Some((text, used)) => text,
        None => Seq::empty(),
    }
}

/// The inside of a literal for the bytes of a value from `i` on.
pub open spec fn escape_string_from(bytes: Seq<u8>, i: int, quote: u8) -> Seq<u8>
    decreases bytes.len() - i,
{
    if i < 0 || i >= bytes.len() {
        Seq::empty()
    } else {
        match replacement_at(bytes, i, quote) {
            Some((text, used)) => if used >= 1 {
                text + escape_string_from(bytes, i + used, quote)
            } else {
                Seq::empty()
            },
            None => seq![bytes[i]] + escape_string_from(bytes, i + 1, quote),
        }
    }
}

/// The literal for a value: the quote, the escaped value, the quote.
pub open spec fn quoted_string(bytes: Seq<u8>, quote: Quote) -> Seq<u8> {
    seq![quote.spec_byte()] + escape_string_from(bytes, 0, quote.spec_byte()) + seq![
        quote.spec_byte(),
    ]
}

/// Prints what `replacement_at` gives for the place `i`, and says how many bytes of the
/// value it stands for: 0 where the byte is to be copied.
fn print_replacement(buf: &mut FastBuffer, bytes: &[u8], i: usize, quote: u8) -> (used: usize)
    requires
        old(buf).wf(),
        i < bytes@.len(),
        quote < 0x80,
    ensures
        final(buf).wf(),
        final(buf).model().indent_char == old(buf).model().indent_char,
        final(buf).model().indent_width == old(buf).model().indent_width,
        match replacement_at(bytes@, i as int, quote) {
            Some((text, n)) => used == n && final(buf)@ == old(buf)@ + text,
            None => used == 0 && final(buf)@ == old(buf)@,
        },
        used <= 3,
        i + used <= bytes@.len(),
{
    let b = bytes[i];
    let n = bytes.len();
    if b == 0x5C {
        buf.print_ascii_byte(0x5C);
        buf.print_ascii_byte(0x5C);
        assert(buf@ =~= old(buf)@ + backslash(0x5C));
        1
    } else if b == quote {
        buf.print_ascii_byte(0x5C);
        buf.print_ascii_byte(quote);
        assert(buf@ =~= old(buf)@ + backslash(quote));
        1
    } else if b == 0x0A {
        buf.print_ascii_byte(0x5C);
        buf.print_ascii_byte(0x6E);
        assert(buf@ =~= old(buf)@ + backslash(0x6E));
        1
    } else if b == 0x0D {
        buf.print_ascii_byte(0x5C);
        buf.print_ascii_byte(0x72);
        assert(buf@ =~= old(buf)@ + backslash(0x72));
        1
    } else if b == 0x00 {
        if i + 1 < n && 0x30 <= bytes[i + 1] && bytes[i + 1] <= 0x39 {
            buf.print_ascii_byte(0x5C);
            buf.print_ascii_byte(0x78);
            buf.print_ascii_byte(0x30);
            buf.print_ascii_byte(0x30);
            assert(buf@ =~= old(buf)@ + seq![0x5Cu8, 0x78u8, 0x30u8, 0x30u8]);
        } else {
            buf.print_ascii_byte(0x5C);
            buf.print_ascii_byte(0x30);
            assert(buf@ =~= old(buf)@ + backslash(0x30));
        }
        1
    } else if b == 0x07 {
        buf.print_ascii_byte(0x5C);
        buf.print_ascii_byte(0x78);
        buf.print_ascii_byte(0x30);
        buf.print_ascii_byte(0x37);
        assert(buf@ =~= old(buf)@ + seq![0x5Cu8, 0x78u8, 0x30u8, 0x37u8]);
        1
    } else if b == 0x08 {
        buf.print_ascii_byte(0x5C);
        buf.print_ascii_byte(0x62);
        assert(buf@ =~= old(buf)@ + backslash(0x62));
        1
    } else if b == 0x0B {
        buf.print_ascii_byte(0x5C);
        buf.print_ascii_byte(0x76);
        assert(buf@ =~= old(buf)@ + backslash(0x76));
        1
    } else if b == 0x0C {
        buf.print_ascii_byte(0x5C);
        buf.print_ascii_byte(0x66);
        assert(buf@ =~= old(buf)@ + backslash(0x66));
        1
    } else if b == 0x1B {
        buf.print_ascii_byte(0x5C);
        buf.print_ascii_byte(0x78);
        buf.print_ascii_byte(0x31);
        buf.print_ascii_byte(0x42);
        assert(buf@ =~= old(buf)@ + seq![0x5Cu8, 0x78u8, 0x31u8, 0x42u8]);
        1
    } else if b == 0xE2 && n - i > 2 && bytes[i + 1] == 0x80 && (bytes[i + 2] == 0xA8 || bytes[i
        + 2] == 0xA9) {
        let last: u8 = if bytes[i + 2] == 0xA8 {
            0x38
        } else {
            0x39
        };
        buf.print_ascii_byte(0x5C);
        buf.print_ascii_byte(0x75);
        buf.print_ascii_byte(0x32);
        buf.print_ascii_byte(0x30);
        buf.print_ascii_byte(0x32);
        buf.print_ascii_byte(last);
        assert(buf@ =~= old(buf)@ + seq![0x5Cu8, 0x75u8, 0x32u8, 0x30u8, 0x32u8, last]);
        3
    } else if is_script_close_at(bytes, i) {
        buf.print_ascii_byte(0x3C);
        buf.print_ascii_byte(0x5C);
        buf.print_ascii_byte(0x2F);
        assert(buf@ =~= old(buf)@ + seq![0x3Cu8, 0x5Cu8, 0x2Fu8]);
        2
    } else {
        0
    }
}

/// Where something stands for the bytes at `i`, the value has a boundary at `i` and
/// behind the bytes that are replaced.
proof fn lemma_replacement_boundaries(bytes: Seq<u8>, i: int, quote: u8)
    requires
        valid_utf8(bytes),
        0 <= i < bytes.len(),
        quote < 0x80,
        replacement_at(bytes, i, quote) is Some,
    ensures
        boundary_at(bytes, i),
        boundary_at(bytes, i + replaced_len(bytes, i, quote)),
        1 <= replaced_len(bytes, i, quote),
        i + replaced_len(bytes, i, quote) <= bytes.len(),
{
    let used = replaced_len(bytes, i, quote);
    if used == 1 {
        lemma_boundary_after_ascii(bytes, i);
    } else if used == 3 {
        lemma_boundary_after_three(bytes, i);
    } else {
        lemma_boundary_after_ascii(bytes, i + 1);
    }
}

/// Appends the literal for `value` in the quote given.
pub fn print_quoted(buf: &mut FastBuffer, value: &str, quote: Quote)
    requires
        old(buf).wf(),
    ensures
        final(buf).wf(),
        final(buf)@ == old(buf)@ + quoted_string(value.spec_bytes(), quote),
        final(buf).model().indent_char == old(buf).model().indent_char,
        final(buf).model().indent_width == old(buf).model().indent_width,
{
    let q = quote.byte();
    let bytes = value.as_bytes();
    let len = bytes.len();
    proof {
        lemma_str_bytes_valid(value);
    }
    buf.print_ascii_byte(q);
    let ghost start = buf@;
    let mut consumed: usize = 0;
    let mut index: usize = 0;
    assert(bytes@.subrange(0, 0) =~= Seq::<u8>::empty());
    assert(start + bytes@.subrange(0, 0) + escape_string_from(bytes@, 0, q) =~= start
        + escape_string_from(bytes@, 0, q));
    while index < len
        invariant
            consumed <= index <= len,
            len == bytes@.len(),
            q < 0x80,
            valid_utf8(bytes@),
            boundary_at(bytes@, consumed as int),
            buf.wf(),
            buf.model().indent_char == old(buf).model().indent_char,
            buf.model().indent_width == old(buf).model().indent_width,
            buf@ + bytes@.subrange(consumed as int, index as int) + escape_string_from(
                bytes@,
                index as int,
                q,
            ) == start + escape_string_from(bytes@, 0, q),
        decreases len - index,
    {
        let ghost rep = replacement_at(bytes@, index as int, q);
        if needs_replacement(bytes, index, q) {
            proof {
                lemma_replacement_boundaries(bytes@, index as int, q);
                lemma_subrange_valid(bytes@, consumed as int, index as int);
                buf.lemma_wf_valid_utf8();
                valid_utf8_concat(buf@, bytes@.subrange(consumed as int, index as int));
            }
            let piece = slice_subrange(bytes, consumed, index);
            let ghost before = buf@;
            buf.print_bytes_unchecked(piece);
            let used = print_replacement(buf, bytes, index, q);
            proof {
                let text = replacing_text(bytes@, index as int, q);
                let esc = escape_string_from(bytes@, index as int + used, q);
                assert(bytes@.subrange(index as int + used, index as int + used) =~= Seq::<
                    u8,
                >::empty());
                assert(buf@ + bytes@.subrange(index as int + used, index as int + used) + esc
                    =~= before + bytes@.subrange(consumed as int, index as int) + (text + esc));
            }
            consumed = index + used;
            index = index + used;
        } else {
            proof {
                let esc = escape_string_from(bytes@, index as int + 1, q);
                assert(bytes@.subrange(consumed as int, index as int + 1) =~= bytes@.subrange(
                    consumed as int,
                    index as int,
                ) + seq![bytes@[index as int]]);
                assert(buf@ + bytes@.subrange(consumed as int, index as int + 1) + esc =~= buf@
                    + bytes@.subrange(consumed as int, index as int) + (seq![bytes@[index as int]]
                    + esc));
            }
            index = index + 1;
        }
    }
    proof {
        lemma_subrange_valid(bytes@, consumed as int, len as int);
        buf.lemma_wf_valid_utf8();
        valid_utf8_concat(buf@, bytes@.subrange(consumed as int, len as int));
        assert(buf@ + bytes@.subrange(consumed as int, len as int) + Seq::<u8>::empty() =~= buf@
            + bytes@.subrange(consumed as int, len as int));
    }
    let piece = slice_subrange(bytes, consumed, len);
    buf.print_bytes_unchecked(piece);
    buf.print_ascii_byte(q);
    assert(buf@ =~= old(buf)@ + quoted_string(bytes@, quote));
}

/// Something stands for the bytes at `i`.
fn needs_replacement(bytes: &[u8], i: usize, quote: u8) -> (b: bool)
    requires
        i < bytes@.len(),
    ensures
        b == (replacement_at(bytes@, i as int, quote) is Some),
{
    let b = bytes[i];
    let n = bytes.len();
    b == 0x5C || b == quote || b == 0x0A || b == 0x0D || b == 0x00 || b == 0x07 || b == 0x08 || b
        == 0x0B || b == 0x0C || b == 0x1B || (b == 0xE2 && n - i > 2 && bytes[i + 1] == 0x80 && (
    bytes[i + 2] == 0xA8 || bytes[i + 2] == 0xA9)) || is_script_close_at(bytes, i)
}

} // verus!
