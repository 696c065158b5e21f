//! The shortest way to write a number.
//!
//! A number reaches this module as the decimal text that the shortest-round-trip
//! conversion gave for it, together with its value where it is a whole number. From
//! these the module picks the shortest of the decimal, hexadecimal and exponent forms.

use vstd::prelude::*;
use vstd::slice::slice_subrange;

verus! {

/// The decimal digits of `n`, the most significant first.
pub open spec fn decimal_digits(n: nat) -> Seq<u8>
    decreases n,
{
    if n < 10 {
        seq![(0x30 + n) as u8]
    } else {
        decimal_digits(n / 10).push((0x30 + n % 10) as u8)
    }
}

/// `n` in decimal, with a `-` in front of a negative number.
pub open spec fn signed_decimal(n: int) -> Seq<u8> {
    if n < 0 {
        seq![0x2Du8] + decimal_digits((-n) as nat)
    } else {
        decimal_digits(n as nat)
    }
}

pub proof fn lemma_decimal_digits_ascii(n: nat)
    ensures
        decimal_digits(n).len() >= 1,
        forall|i: int| 0 <= i < decimal_digits(n).len() ==> 0x30 <= #[trigger] decimal_digits(n)[i] <= 0x39,
    decreases n,
{
    if n >= 10 {
        lemma_decimal_digits_ascii(n / 10);
    }
}

/// `itoa::Buffer::format` of the itoa crate: the decimal text of an integer, with a `-`
/// before a negative one and no other sign, padding or separator.
#[verifier::external_body]
fn format_int(n: i128) -> (text: Vec<u8>)
    ensures
        text@ == signed_decimal(n as int),
{
    let mut buffer = itoa::Buffer::new();
    buffer.format(n).as_bytes().to_vec()
}

/// The decimal text of `n`.
pub fn decimal_text(n: u64) -> (text: Vec<u8>)
    ensures
        text@ == decimal_digits(n as nat),
{
    format_int(n as i128)
}

/// The lower-case hexadecimal digit for `d`.
pub open spec fn hex_digit(d: nat) -> u8 {
    if d < 10 {
        (0x30 + d) as u8
    } else {
        (0x61 + d - 10) as u8
    }
}

/// The hexadecimal digits of `n`, the least significant first.
pub open spec fn hex_digits_reversed(n: nat) -> Seq<u8>
    decreases n,
{
    if n < 16 {
        seq![hex_digit(n)]
    } else {
        seq![hex_digit(n % 16)] + hex_digits_reversed(n / 16)
    }
}

/// `n` as `0x` and its lower-case hexadecimal digits, without leading zeros.
pub open spec fn lower_hex(n: nat) -> Seq<u8> {
    seq![0x30u8, 0x78u8] + hex_digits_reversed(n).reverse()
}

/// `lower_hex`, computed.
pub fn format_lower_hex(value: u128) -> (text: Vec<u8>)
    ensures
        text@ == lower_hex(value as nat),
{
    let mut digits: Vec<u8> = Vec::new();
    let mut v = value;
    assert(digits@ + hex_digits_reversed(v as nat) =~= hex_digits_reversed(value as nat));
    while v >= 16
        invariant
            digits@ + hex_digits_reversed(v as nat) == hex_digits_reversed(value as nat),
        decreases v,
    {
        let d = (v % 16) as u8;
        let c = if d < 10 {
            0x30 + d
        } else {
            0x61 + (d - 10)
        };
        assert(digits@.push(c) + hex_digits_reversed((v / 16) as nat) =~= digits@
            + hex_digits_reversed(v as nat));
        digits.push(c);
        v = v / 16;
    }
    let d = v as u8;
    let c = if d < 10 {
        0x30 + d
    } else {
        0x61 + (d - 10)
    };
    assert(digits@.push(c) =~= digits@ + hex_digits_reversed(v as nat));
    digits.push(c);
    let mut out: Vec<u8> = Vec::new();
    out.push(0x30);
    out.push(0x78);
    let n = digits.len();
    let mut k: usize = 0;
    while k < n
        invariant
            k <= n,
            n == digits@.len(),
            out@ == seq![0x30u8, 0x78u8] + digits@.reverse().subrange(0, k as int),
        decreases n - k,
    {
        out.push(digits[n - 1 - k]);
        assert(digits@.reverse().subrange(0, k as int + 1) =~= digits@.reverse().subrange(
            0,
            k as int,
        ).push(digits@[n - 1 - k]));
        k += 1;
    }
    assert(digits@.reverse().subrange(0, n as int) =~= digits@.reverse());
    out
}

/// `s` without a leading `0` before a decimal point.
pub open spec fn strip_leading_zero(s: Seq<u8>) -> Seq<u8> {
    if s.len() >= 2 && s[0] == 0x30 && s[1] == 0x2E {
        s.subrange(1, s.len() as int)
    } else {
        s
    }
}

/// At `i` stands an `e` or `E` that a `+` follows.
pub open spec fn exponent_plus_at(s: Seq<u8>, i: int) -> bool {
    0 <= i && i + 1 < s.len() && (s[i] == 0x65 || s[i] == 0x45) && s[i + 1] == 0x2B
}

/// The first place from `i` on where `exponent_plus_at` holds, or the length of `s`.
pub open spec fn first_exponent_plus(s: Seq<u8>, i: int) -> int
    decreases s.len() - i,
{
    if i < 0 || i >= s.len() {
        s.len() as int
    } else if exponent_plus_at(s, i) {
        i
    } else {
        first_exponent_plus(s, i + 1)
    }
}

/// `s` without the `+` of its first `e+`.
pub open spec fn spec_strip_exponent_plus(s: Seq<u8>) -> Seq<u8> {
    let i = first_exponent_plus(s, 0);
    if i < s.len() {
        s.subrange(0, i + 1) + s.subrange(i + 2, s.len() as int)
    } else {
        s
    }
}

pub proof fn lemma_first_exponent_plus(s: Seq<u8>, i: int)
    requires
        0 <= i <= s.len(),
    ensures
        i <= first_exponent_plus(s, i) <= s.len(),
        first_exponent_plus(s, i) < s.len() ==> exponent_plus_at(s, first_exponent_plus(s, i)),
    decreases s.len() - i,
{
    if i < s.len() && !exponent_plus_at(s, i) {
        lemma_first_exponent_plus(s, i + 1);
    }
}

/// A copy of `bytes` from `from` to `to`.
fn copy_range(bytes: &[u8], from: usize, to: usize) -> (out: Vec<u8>)
    requires
        from <= to <= bytes@.len(),
    ensures
        out@ == bytes@.subrange(from as int, to as int),
{
    let mut out: Vec<u8> = Vec::new();
    let piece = slice_subrange(bytes, from, to);
    out.extend_from_slice(piece);
    assert(out@ =~= bytes@.subrange(from as int, to as int));
    out
}

/// Appends `bytes` to `out`.
fn append(out: &mut Vec<u8>, bytes: &[u8])
    ensures
        final(out)@ == old(out)@ + bytes@,
{
    out.extend_from_slice(bytes);
    assert(out@ =~= old(out)@ + bytes@);
}

/// `spec_strip_exponent_plus`, computed.
pub fn strip_exponent_plus(s: &[u8]) -> (out: Vec<u8>)
    ensures
        out@ == spec_strip_exponent_plus(s@),
        out@.len() <= s@.len(),
{
    let n = s.len();
    let mut i: usize = 0;
    while i < n
        invariant
            i <= n,
            n == s@.len(),
            first_exponent_plus(s@, i as int) == first_exponent_plus(s@, 0),
        decreases n - i,
    {
        if i + 1 < n && (s[i] == 0x65 || s[i] == 0x45) && s[i + 1] == 0x2B {
            let mut out = copy_range(s, 0, i + 1);
            append(&mut out, slice_subrange(s, i + 2, n));
            return out;
        }
        i += 1;
    }
    let out = copy_range(s, 0, n);
    assert(s@.subrange(0, n as int) =~= s@);
    out
}

/// Number of `0` bytes that `s` holds from `i` on before any other byte.
pub open spec fn zeros_from(s: Seq<u8>, i: int) -> nat
    decreases s.len() - i,
{
    if 0 <= i < s.len() && s[i] == 0x30 {
        1 + zeros_from(s, i + 1)
    } else {
        0
    }
}

/// Number of `0` bytes that `s` ends in.
pub open spec fn trailing_zeros(s: Seq<u8>) -> nat
    decreases s.len(),
{
    if s.len() > 0 && s.last() == 0x30 {
        1 + trailing_zeros(s.drop_last())
    } else {
        0
    }
}

pub proof fn lemma_zeros_from_bound(s: Seq<u8>, i: int)
    requires
        0 <= i <= s.len(),
    ensures
        i + zeros_from(s, i) <= s.len(),
    decreases s.len() - i,
{
    if i < s.len() && s[i] == 0x30 {
        lemma_zeros_from_bound(s, i + 1);
    }
}

pub proof fn lemma_trailing_zeros_bound(s: Seq<u8>)
    ensures
        trailing_zeros(s) <= s.len(),
    decreases s.len(),
{
    if s.len() > 0 && s.last() == 0x30 {
        lemma_trailing_zeros_bound(s.drop_last());
    }
}

/// `candidate` where it is shorter than `current`, else `current`.
pub open spec fn shorter_of(candidate: Seq<u8>, current: Seq<u8>) -> Seq<u8> {
    if candidate.len() < current.len() {
        candidate
    } else {
        current
    }
}

/// A fraction `.000ddd` written as `ddde-6`, where that is shorter. A text that does not
/// start with `.0`, or holds nothing but zeros after the point, stays as it is.
pub open spec fn small_fraction_form(s: Seq<u8>) -> Seq<u8> {
    if s.len() >= 2 && s[0] == 0x2E && s[1] == 0x30 {
        let start = 1 + zeros_from(s, 1);
        if start < s.len() {
            let digits = s.subrange(start as int, s.len() as int);
            let exponent = s.len() - 1;
            shorter_of(digits + seq![0x65u8, 0x2Du8] + decimal_digits(exponent as nat), s)
        } else {
            s
        }
    } else {
        s
    }
}

/// A text `ddd000` written as `ddde3`, where that is shorter. A text of nothing but
/// zeros stays as it is.
pub open spec fn trailing_zeros_form(s: Seq<u8>) -> Seq<u8> {
    let zeros = trailing_zeros(s);
    if 0 < zeros < s.len() {
        shorter_of(
            s.subrange(0, s.len() - zeros) + seq![0x65u8] + decimal_digits(zeros),
            s,
        )
    } else {
        s
    }
}

/// Index of the first `target` in `s` from `i` on, or the length of `s`.
pub open spec fn index_of_from(s: Seq<u8>, target: u8, i: int) -> int
    decreases s.len() - i,
{
    if i < 0 || i >= s.len() {
        s.len() as int
    } else if s[i] == target {
        i
    } else {
        index_of_from(s, target, i + 1)
    }
}

pub proof fn lemma_index_of_from(s: Seq<u8>, target: u8, i: int)
    requires
        0 <= i <= s.len(),
    ensures
        i <= index_of_from(s, target, i) <= s.len(),
        index_of_from(s, target, i) < s.len() ==> s[index_of_from(s, target, i)] == target,
        forall|j: int| i <= j < index_of_from(s, target, i) ==> s[j] != target,
    decreases s.len() - i,
{
    if i < s.len() && s[i] != target {
        lemma_index_of_from(s, target, i + 1);
    }
}

/// `index_of_from`, computed.
pub fn find_from(s: &[u8], target: u8, from: usize) -> (at: usize)
    requires
        from <= s@.len(),
    ensures
        at == index_of_from(s@, target, from as int),
        from <= at <= s@.len(),
{
    let n = s.len();
    let mut i = from;
    while i < n
        invariant
            from <= i <= n,
            n == s@.len(),
            index_of_from(s@, target, i as int) == index_of_from(s@, target, from as int),
        decreases n - i,
    {
        if s[i] == target {
            return i;
        }
        i += 1;
    }
    i
}

/// The value of a text of decimal digits.
pub open spec fn digits_value(s: Seq<u8>) -> nat
    decreases s.len(),
{
    if s.len() == 0 {
        0
    } else {
        digits_value(s.drop_last()) * 10 + (s.last() - 0x30) as nat
    }
}

pub open spec fn all_digits(s: Seq<u8>) -> bool {
    forall|i: int| 0 <= i < s.len() ==> 0x30 <= #[trigger] s[i] <= 0x39
}

/// The integer that `s` spells: an optional sign and one to fifteen decimal digits.
/// Any other text spells none.
pub open spec fn parse_exponent(s: Seq<u8>) -> Option<int> {
    let signed = s.len() > 0 && (s[0] == 0x2D || s[0] == 0x2B);
    let digits = if signed {
        s.subrange(1, s.len() as int)
    } else {
        s
    };
    if 1 <= digits.len() <= 15 && all_digits(digits) {
        if signed && s[0] == 0x2D {
            Some(-(digits_value(digits) as int))
        } else {
            Some(digits_value(digits) as int)
        }
    } else {
        None
    }
}

proof fn lemma_digits_value_bound(s: Seq<u8>)
    requires
        all_digits(s),
        s.len() <= 15,
    ensures
        digits_value(s) < pow10(s.len()),
    decreases s.len(),
{
    if s.len() > 0 {
        assert(all_digits(s.drop_last())) by {
            assert forall|i: int| 0 <= i < s.drop_last().len() implies 0x30 <= #[trigger] s.drop_last()[i] <= 0x39 by {
                assert(s.drop_last()[i] == s[i]);
            }
        }
        lemma_digits_value_bound(s.drop_last());
    }
}

pub open spec fn pow10(n: nat) -> nat
    decreases n,
{
    if n == 0 {
        1
    } else {
        10 * pow10((n - 1) as nat)
    }
}

proof fn lemma_pow10_15()
    ensures
        pow10(15) == 1_000_000_000_000_000,
{
    reveal_with_fuel(pow10, 16);
}

proof fn lemma_pow10_monotone(a: nat, b: nat)
    requires
        a <= b,
    ensures
        pow10(a) <= pow10(b),
    decreases b - a,
{
    if a < b {
        lemma_pow10_monotone(a, (b - 1) as nat);
    }
}

/// `parse_exponent`, computed.
pub fn parse_exponent_text(s: &[u8]) -> (value: Option<i64>)
    ensures
        value is Some <==> parse_exponent(s@) is Some,
        value is Some ==> value->0 == parse_exponent(s@)->0,
        value is Some ==> -1_000_000_000_000_000 < value->0 < 1_000_000_000_000_000,
{
    let n = s.len();
    if n == 0 {
        return None;
    }
    let signed = s[0] == 0x2D || s[0] == 0x2B;
    let start: usize = if signed {
        1
    } else {
        0
    };
    let ghost digits = s@.subrange(start as int, n as int);
    if n - start < 1 || n - start > 15 {
        assert(!signed ==> digits =~= s@);
        return None;
    }
    let mut acc: i64 = 0;
    let mut i: usize = start;
    proof {
        lemma_pow10_15();
        assert(digits.subrange(0, 0) =~= Seq::<u8>::empty());
    }
    while i < n
        invariant
            start <= i <= n,
            n == s@.len(),
            n > 0,
            signed == (s@[0] == 0x2D || s@[0] == 0x2B),
            start == (if signed {
                1usize
            } else {
                0usize
            }),
            1 <= n - start <= 15,
            digits == s@.subrange(start as int, n as int),
            all_digits(digits.subrange(0, i - start)),
            acc == digits_value(digits.subrange(0, i - start)),
            0 <= acc < pow10((i - start) as nat),
            pow10(15) == 1_000_000_000_000_000,
        decreases n - i,
    {
        let b = s[i];
        if b < 0x30 || b > 0x39 {
            proof {
                assert(digits[i - start] == b);
                assert(!signed ==> digits =~= s@);
            }
            return None;
        }
        proof {
            let next = digits.subrange(0, i - start + 1);
            assert(next.drop_last() =~= digits.subrange(0, i - start));
            assert(next.last() == b);
            assert forall|j: int| 0 <= j < next.len() implies 0x30 <= #[trigger] next[j] <= 0x39 by {
                if j < i - start {
                    assert(next[j] == digits.subrange(0, i - start)[j]);
                }
            }
            lemma_pow10_monotone((i - start) as nat, 14);
            lemma_pow10_monotone((i - start + 1) as nat, 15);
            reveal_with_fuel(pow10, 2);
        }
        acc = acc * 10 + (b - 0x30) as i64;
        i += 1;
    }
    proof {
        assert(digits.subrange(0, n - start) =~= digits);
        assert(!signed ==> digits =~= s@);
        lemma_pow10_monotone((n - start) as nat, 15);
    }
    if signed && s[0] == 0x2D {
        Some(-acc)
    } else {
        Some(acc)
    }
}

/// A text `i.fffeX` written as `ifffeY`, with `Y` smaller than `X` by the number of
/// digits behind the point, where that is shorter. A text without a point, without an
/// `e` behind the point, or without a readable exponent stays as it is.
pub open spec fn shifted_exponent_form(s: Seq<u8>) -> Seq<u8> {
    let dot = index_of_from(s, 0x2E, 0);
    if dot < s.len() {
        let e = index_of_from(s, 0x65, dot + 1);
        if e < s.len() {
            match parse_exponent(s.subrange(e + 1, s.len() as int)) {
                Some(exponent) => shorter_of(
                    s.subrange(0, dot) + s.subrange(dot + 1, e) + seq![0x65u8] + signed_decimal(
                        exponent - (e - dot - 1),
                    ),
                    s,
                ),
                None => s,
            }
        } else {
            s
        }
    } else {
        s
    }
}

/// The shortest way to write a number that is not negative. `shortest` is its decimal
/// text, `integer` its value where it is a whole number.
///
/// A whole number below 1000 keeps its decimal text. Any other number loses the `0`
/// before its point and the `+` of its exponent; then each of these is taken where it
/// is shorter than what was found so far: the hexadecimal form of a whole number, or
/// for a fraction the form without the zeros behind the point; the form without
/// trailing zeros, unless the number is already hexadecimal; the form without a point.
pub open spec fn spec_minified_number(shortest: Seq<u8>, integer: Option<u128>) -> Seq<u8> {
    if integer is Some && integer->0 < 1000 {
        shortest
    } else {
        let plain = spec_strip_exponent_plus(strip_leading_zero(shortest));
        let is_hex = integer is Some && lower_hex(integer->0 as nat).len() < plain.len();
        let first = if is_hex {
            lower_hex(integer->0 as nat)
        } else if integer is Some {
            plain
        } else {
            small_fraction_form(plain)
        };
        let second = if is_hex {
            first
        } else {
            trailing_zeros_form(first)
        };
        shifted_exponent_form(second)
    }
}

/// The minified form is never longer than the decimal text it started from.
pub proof fn lemma_minified_number_not_longer(shortest: Seq<u8>, integer: Option<u128>)
    ensures
        spec_minified_number(shortest, integer).len() <= shortest.len(),
{
    lemma_first_exponent_plus(strip_leading_zero(shortest), 0);
}

/// The minified form of an ASCII text is ASCII.
#[verifier::spinoff_prover]
#[verifier::rlimit(60)]
pub proof fn lemma_minified_number_ascii(shortest: Seq<u8>, integer: Option<u128>)
    requires
        forall|i: int| 0 <= i < shortest.len() ==> shortest[i] < 0x80,
    ensures
        forall|i: int|
            0 <= i < spec_minified_number(shortest, integer).len() ==> spec_minified_number(
                shortest,
                integer,
            )[i] < 0x80,
{
    if !(integer is Some && integer->0 < 1000) {
        let stripped = strip_leading_zero(shortest);
        lemma_first_exponent_plus(stripped, 0);
        let plain = spec_strip_exponent_plus(stripped);
        assert(ascii_text(plain));
        let is_hex = integer is Some && lower_hex(integer->0 as nat).len() < plain.len();
        if integer is Some {
            lemma_hex_ascii(integer->0 as nat);
        }
        let first = if is_hex {
            lower_hex(integer->0 as nat)
        } else if integer is Some {
            plain
        } else {
            small_fraction_form(plain)
        };
        lemma_decimal_digits_ascii((plain.len() - 1) as nat);
        assert(ascii_text(first));
        let second = if is_hex {
            first
        } else {
            trailing_zeros_form(first)
        };
        lemma_trailing_zeros_bound(first);
        lemma_decimal_digits_ascii(trailing_zeros(first));
        assert(ascii_text(second));
        let dot = index_of_from(second, 0x2E, 0);
        lemma_index_of_from(second, 0x2E, 0);
        if dot < second.len() {
            let e = index_of_from(second, 0x65, dot + 1);
            lemma_index_of_from(second, 0x65, dot + 1);
            if e < second.len() {
                match parse_exponent(second.subrange(e + 1, second.len() as int)) {
                    Some(exponent) => {
                        let shifted = exponent - (e - dot - 1);
                        if shifted < 0 {
                            lemma_decimal_digits_ascii((-shifted) as nat);
                        } else {
                            lemma_decimal_digits_ascii(shifted as nat);
                        }
                    },
                    None => {},
                }
            }
        }
        assert(ascii_text(shifted_exponent_form(second)));
    }
}

pub open spec fn ascii_text(s: Seq<u8>) -> bool {
    forall|i: int| 0 <= i < s.len() ==> #[trigger] s[i] < 0x80
}

proof fn lemma_hex_ascii(n: nat)
    ensures
        ascii_text(lower_hex(n)),
        ascii_text(hex_digits_reversed(n)),
    decreases n,
{
    if n >= 16 {
        lemma_hex_ascii(n / 16);
    }
    let r = hex_digits_reversed(n);
    assert(ascii_text(r)) by {
        assert forall|i: int| 0 <= i < r.len() implies #[trigger] r[i] < 0x80 by {
            if n >= 16 && i > 0 {
                assert(r[i] == hex_digits_reversed(n / 16)[i - 1]);
            }
        }
    }
    let h = lower_hex(n);
    assert forall|i: int| 0 <= i < h.len() implies #[trigger] h[i] < 0x80 by {
        if i >= 2 {
            assert(h[i] == r.reverse()[i - 2]);
            assert(r.reverse()[i - 2] == r[r.len() - 1 - (i - 2)]);
        }
    }
}

fn count_zeros_from(s: &[u8], from: usize) -> (count: usize)
    requires
        from <= s@.len(),
    ensures
        count == zeros_from(s@, from as int),
        from + count <= s@.len(),
{
    let n = s.len();
    let mut i = from;
    proof {
        lemma_zeros_from_bound(s@, from as int);
    }
    while i < n && s[i] == 0x30
        invariant
            from <= i <= n,
            n == s@.len(),
            (i - from) + zeros_from(s@, i as int) == zeros_from(s@, from as int),
        decreases n - i,
    {
        i += 1;
    }
    i - from
}

fn count_trailing_zeros(s: &[u8]) -> (count: usize)
    ensures
        count == trailing_zeros(s@),
        count <= s@.len(),
{
    let n = s.len();
    let mut i = n;
    assert(s@.subrange(0, n as int) =~= s@);
    proof {
        lemma_trailing_zeros_bound(s@);
    }
    while i > 0 && s[i - 1] == 0x30
        invariant
            i <= n,
            n == s@.len(),
            (n - i) + trailing_zeros(s@.subrange(0, i as int)) == trailing_zeros(s@),
        decreases i,
    {
        assert(s@.subrange(0, i as int).drop_last() =~= s@.subrange(0, i as int - 1));
        i -= 1;
    }
    n - i
}

fn small_fraction(s: Vec<u8>) -> (out: Vec<u8>)
    ensures
        out@ == small_fraction_form(s@),
{
    let n = s.len();
    if n >= 2 && s[0] == 0x2E && s[1] == 0x30 {
        let start = 1 + count_zeros_from(s.as_slice(), 1);
        if start < n {
            let mut candidate = copy_range(s.as_slice(), start, n);
            candidate.push(0x65);
            candidate.push(0x2D);
            let exponent = format_int((n - 1) as i128);
            append(&mut candidate, exponent.as_slice());
            assert(candidate@ =~= s@.subrange(start as int, n as int) + seq![0x65u8, 0x2Du8]
                + decimal_digits((n - 1) as nat));
            if candidate.len() < n {
                return candidate;
            }
        }
    }
    s
}

fn without_trailing_zeros(s: Vec<u8>) -> (out: Vec<u8>)
    ensures
        out@ == trailing_zeros_form(s@),
{
    let n = s.len();
    let zeros = count_trailing_zeros(s.as_slice());
    if 0 < zeros && zeros < n {
        let mut candidate = copy_range(s.as_slice(), 0, n - zeros);
        candidate.push(0x65);
        let exponent = format_int(zeros as i128);
        append(&mut candidate, exponent.as_slice());
        assert(candidate@ =~= s@.subrange(0, n - zeros) + seq![0x65u8] + decimal_digits(
            zeros as nat,
        ));
        if candidate.len() < n {
            return candidate;
        }
    }
    s
}

fn shifted_exponent(s: Vec<u8>) -> (out: Vec<u8>)
    ensures
        out@ == shifted_exponent_form(s@),
{
    let n = s.len();
    let dot = find_from(s.as_slice(), 0x2E, 0);
    if dot < n {
        let e = find_from(s.as_slice(), 0x65, dot + 1);
        if e < n {
            let tail = slice_subrange(s.as_slice(), e + 1, n);
            match parse_exponent_text(tail) {
                Some(exponent) => {
                    let shifted: i128 = exponent as i128 - (e - dot - 1) as i128;
                    let mut candidate = copy_range(s.as_slice(), 0, dot);
                    append(&mut candidate, slice_subrange(s.as_slice(), dot + 1, e));
                    candidate.push(0x65);
                    let text = format_int(shifted);
                    append(&mut candidate, text.as_slice());
                    assert(candidate@ =~= s@.subrange(0, dot as int) + s@.subrange(
                        dot as int + 1,
                        e as int,
                    ) + seq![0x65u8] + signed_decimal(exponent as int - (e - dot - 1)));
                    if candidate.len() < n {
                        return candidate;
                    }
                },
                None => {},
            }
        }
    }
    s
}

/// The shortest way to write a number that is not negative: see `spec_minified_number`.
pub fn minified_number(shortest: &[u8], integer: Option<u128>) -> (out: Vec<u8>)
    ensures
        out@ == spec_minified_number(shortest@, integer),
        out@.len() <= shortest@.len(),
{
    proof {
        lemma_minified_number_not_longer(shortest@, integer);
    }
    let n = shortest.len();
    if let Some(value) = integer {
        if value < 1000 {
            let out = copy_range(shortest, 0, n);
            assert(shortest@.subrange(0, n as int) =~= shortest@);
            return out;
        }
    }
    let stripped = if n >= 2 && shortest[0] == 0x30 && shortest[1] == 0x2E {
        slice_subrange(shortest, 1, n)
    } else {
        shortest
    };
    let plain = strip_exponent_plus(stripped);
    let mut is_hex = false;
    let first = match integer {
        Some(value) => {
            let hex = format_lower_hex(value);
            if hex.len() < plain.len() {
                is_hex = true;
                hex
            } else {
                plain
            }
        },
        None => small_fraction(plain),
    };
    let second = if is_hex {
        first
    } else {
        without_trailing_zeros(first)
    };
    shifted_exponent(second)
}

/// The text holds a `.`, an `e` or an `x`: a `.` that follows it starts no fraction.
pub open spec fn has_dot_e_or_x(s: Seq<u8>) -> bool {
    exists|i: int| 0 <= i < s.len() && (s[i] == 0x2E || s[i] == 0x65 || s[i] == 0x78)
}

pub fn contains_dot_e_or_x(s: &[u8]) -> (b: bool)
    ensures
        b == has_dot_e_or_x(s@),
{
    let mut i: usize = 0;
    while i < s.len()
        invariant
            i <= s.len(),
            forall|j: int| 0 <= j < i ==> !(s@[j] == 0x2E || s@[j] == 0x65 || s@[j] == 0x78),
        decreases s.len() - i,
    {
        if s[i] == 0x2E || s[i] == 0x65 || s[i] == 0x78 {
            return true;
        }
        i += 1;
    }
    false
}

} // verus!
