//! What a number text denotes.
//!
//! The printer shortens the decimal text of a number. This module says what number a
//! text stands for, and shows that the shortened text stands for the same number as
//! the text it was made from.

use crate::number::{
    all_digits, decimal_digits, digits_value, exponent_plus_at, first_exponent_plus, hex_digit,
    hex_digits_reversed, index_of_from, lemma_index_of_from, lower_hex, parse_exponent, pow10,
    shifted_exponent_form, signed_decimal, small_fraction_form, spec_minified_number,
    spec_strip_exponent_plus, strip_leading_zero, trailing_zeros, trailing_zeros_form, zeros_from,
};
use vstd::prelude::*;

verus! {

/// A number that is not negative: `digits` times ten to the power `exponent`.
pub struct Decimal {
    pub digits: nat,
    pub exponent: int,
}

/// The two stand for the same number.
pub open spec fn same_number(a: Decimal, b: Decimal) -> bool {
    if a.exponent <= b.exponent {
        a.digits == b.digits * pow10((b.exponent - a.exponent) as nat)
    } else {
        a.digits * pow10((a.exponent - b.exponent) as nat) == b.digits
    }
}

/// A number is the same number as itself.
pub proof fn lemma_same_number_reflexive(a: Decimal)
    ensures
        same_number(a, a),
{
    assert(pow10(0) == 1);
    assert(a.digits * 1 == a.digits);
}

/// The value of a lower-case hexadecimal digit, and 16 for any other byte.
pub open spec fn hex_digit_value(b: u8) -> nat {
    if 0x30 <= b <= 0x39 {
        (b - 0x30) as nat
    } else if 0x61 <= b <= 0x66 {
        (b - 0x61 + 10) as nat
    } else {
        16
    }
}

pub open spec fn all_hex_digits(s: Seq<u8>) -> bool {
    forall|i: int| 0 <= i < s.len() ==> hex_digit_value(#[trigger] s[i]) < 16
}

/// The value of a text of hexadecimal digits.
pub open spec fn hex_value(s: Seq<u8>) -> nat
    decreases s.len(),
{
    if s.len() == 0 {
        0
    } else {
        hex_value(s.drop_last()) * 16 + hex_digit_value(s.last())
    }
}

/// The text starts with `0x`.
pub open spec fn is_hex_text(s: Seq<u8>) -> bool {
    s.len() >= 2 && s[0] == 0x30 && s[1] == 0x78
}

/// The number that a text stands for, read as a numeric literal of the language: `0x`
/// and hexadecimal digits, or decimal digits with at most one point among them and at
/// most one exponent behind them. Any other text stands for none.
pub open spec fn number_value(s: Seq<u8>) -> Option<Decimal> {
    if is_hex_text(s) {
        let digits = s.subrange(2, s.len() as int);
        if digits.len() >= 1 && all_hex_digits(digits) {
            Some(Decimal { digits: hex_value(digits), exponent: 0 })
        } else {
            None
        }
    } else {
        let e = index_of_from(s, 0x65, 0);
        let mantissa = s.subrange(0, e);
        let exponent = if e < s.len() {
            parse_exponent(s.subrange(e + 1, s.len() as int))
        } else {
            Some(0int)
        };
        let dot = index_of_from(mantissa, 0x2E, 0);
        let int_part = mantissa.subrange(0, dot);
        let frac_part = if dot < mantissa.len() {
            mantissa.subrange(dot + 1, mantissa.len() as int)
        } else {
            Seq::<u8>::empty()
        };
        if all_digits(int_part) && all_digits(frac_part) && int_part.len() + frac_part.len() >= 1
            && exponent is Some {
            Some(
                Decimal {
                    digits: digits_value(int_part + frac_part),
                    exponent: exponent->0 - frac_part.len(),
                },
            )
        } else {
            None
        }
    }
}

/// A decimal text from its parts: the digits before the point, the digits behind it
/// with the point where there are any, and the exponent where there is one.
pub open spec fn decimal_text(int_part: Seq<u8>, frac_part: Seq<u8>, exponent: Seq<u8>) -> Seq<u8> {
    int_part + (if frac_part.len() > 0 {
        seq![0x2Eu8] + frac_part
    } else {
        Seq::<u8>::empty()
    }) + (if exponent.len() > 0 {
        seq![0x65u8] + exponent
    } else {
        Seq::<u8>::empty()
    })
}

/// A decimal text stands for its digits, the point taken out, times ten to the power
/// of its exponent less the number of digits behind the point.
pub proof fn lemma_value_of_decimal_text(int_part: Seq<u8>, frac_part: Seq<u8>, exponent: Seq<u8>)
    requires
        all_digits(int_part),
        all_digits(frac_part),
        int_part.len() + frac_part.len() >= 1,
        exponent.len() == 0 || parse_exponent(exponent) is Some,
        !is_hex_text(decimal_text(int_part, frac_part, exponent)),
    ensures
        number_value(decimal_text(int_part, frac_part, exponent)) == Some(
            Decimal {
                digits: digits_value(int_part + frac_part),
                exponent: (if exponent.len() == 0 {
                    0int
                } else {
                    parse_exponent(exponent)->0
                }) - frac_part.len(),
            },
        ),
{
    let s = decimal_text(int_part, frac_part, exponent);
    let point = if frac_part.len() > 0 {
        seq![0x2Eu8] + frac_part
    } else {
        Seq::<u8>::empty()
    };
    let mantissa = int_part + point;
    let at = mantissa.len() as int;
    assert forall|j: int| 0 <= j < at implies s[j] != 0x65 by {
        if j < int_part.len() {
            assert(s[j] == int_part[j]);
        } else if j == int_part.len() {
            assert(s[j] == 0x2E);
        } else {
            assert(s[j] == frac_part[j - int_part.len() - 1]);
        }
    }
    lemma_index_of_from(s, 0x65, 0);
    let e = index_of_from(s, 0x65, 0);
    if exponent.len() > 0 {
        assert(s[at] == 0x65);
        assert(e == at);
        assert(s.subrange(e + 1, s.len() as int) =~= exponent);
    } else {
        assert(s.len() == at);
        assert(e == at);
    }
    assert(s.subrange(0, e) =~= mantissa);
    assert forall|j: int| 0 <= j < int_part.len() implies mantissa[j] != 0x2E by {
        assert(mantissa[j] == int_part[j]);
    }
    lemma_index_of_from(mantissa, 0x2E, 0);
    let dot = index_of_from(mantissa, 0x2E, 0);
    if frac_part.len() > 0 {
        assert(mantissa[int_part.len() as int] == 0x2E);
        assert(dot == int_part.len());
        assert(mantissa.subrange(dot + 1, mantissa.len() as int) =~= frac_part);
    } else {
        assert(mantissa.len() == int_part.len());
        assert(dot == int_part.len());
    }
    assert(mantissa.subrange(0, dot) =~= int_part);
}

/// The value of digits put behind other digits.
pub proof fn lemma_digits_value_concat(a: Seq<u8>, b: Seq<u8>)
    ensures
        digits_value(a + b) == digits_value(a) * pow10(b.len()) + digits_value(b),
    decreases b.len(),
{
    if b.len() == 0 {
        assert(a + b =~= a);
        assert(pow10(0) == 1);
        assert(digits_value(b) == 0);
        assert(digits_value(a) * 1 == digits_value(a));
    } else {
        assert((a + b).drop_last() =~= a + b.drop_last());
        assert((a + b).last() == b.last());
        lemma_digits_value_concat(a, b.drop_last());
        let x = digits_value(a);
        let p = pow10((b.len() - 1) as nat);
        let y = digits_value(b.drop_last());
        let d = (b.last() - 0x30) as nat;
        assert(pow10(b.len()) == 10 * p);
        assert(digits_value(a + b) == digits_value(a + b.drop_last()) * 10 + d);
        assert(digits_value(b) == y * 10 + d);
        assert(digits_value(a + b.drop_last()) == x * p + y);
        assert((x * p + y) * 10 + d == x * (10 * p) + (y * 10 + d)) by (nonlinear_arith);
    }
}

pub proof fn lemma_all_digits_concat(a: Seq<u8>, b: Seq<u8>)
    requires
        all_digits(a),
        all_digits(b),
    ensures
        all_digits(a + b),
{
    assert forall|i: int| 0 <= i < (a + b).len() implies 0x30 <= #[trigger] (a + b)[i] <= 0x39 by {
        if i < a.len() {
            assert((a + b)[i] == a[i]);
        } else {
            assert((a + b)[i] == b[i - a.len()]);
        }
    }
}

pub proof fn lemma_all_digits_subrange(s: Seq<u8>, from: int, to: int)
    requires
        all_digits(s),
        0 <= from <= to <= s.len(),
    ensures
        all_digits(s.subrange(from, to)),
{
    assert forall|i: int| 0 <= i < to - from implies 0x30 <= #[trigger] s.subrange(from, to)[i]
        <= 0x39 by {
        assert(s.subrange(from, to)[i] == s[from + i]);
    }
}

/// Zeros are worth nothing.
pub proof fn lemma_zeros_value(z: Seq<u8>)
    requires
        forall|i: int| 0 <= i < z.len() ==> z[i] == 0x30,
    ensures
        digits_value(z) == 0,
    decreases z.len(),
{
    if z.len() > 0 {
        lemma_zeros_value(z.drop_last());
    }
}

/// The decimal digits of a number spell that number.
pub proof fn lemma_decimal_digits_value(n: nat)
    ensures
        all_digits(decimal_digits(n)),
        decimal_digits(n).len() >= 1,
        digits_value(decimal_digits(n)) == n,
        n < 10 ==> decimal_digits(n).len() == 1,
        10 <= n < 100 ==> decimal_digits(n).len() == 2,
        100 <= n < 1000 ==> decimal_digits(n).len() == 3,
        n >= 1 ==> decimal_digits(n)[0] != 0x30,
    decreases n,
{
    if n < 10 {
        let d = decimal_digits(n);
        assert(d.drop_last() =~= Seq::<u8>::empty());
        assert(digits_value(d.drop_last()) == 0);
    } else {
        lemma_decimal_digits_value(n / 10);
        let d = decimal_digits(n);
        assert(d.drop_last() =~= decimal_digits(n / 10));
        assert(d[0] == decimal_digits(n / 10)[0]);
        assert forall|i: int| 0 <= i < d.len() implies 0x30 <= #[trigger] d[i] <= 0x39 by {
            if i < d.len() - 1 {
                assert(d[i] == decimal_digits(n / 10)[i]);
            }
        }
    }
}

/// A number below a thousand with its sign reads back as itself.
pub proof fn lemma_parse_signed_decimal(k: int)
    requires
        -1000 < k < 1000,
    ensures
        parse_exponent(signed_decimal(k)) == Some(k),
        signed_decimal(k).len() >= 1,
{
    if k < 0 {
        lemma_decimal_digits_value((-k) as nat);
        let s = signed_decimal(k);
        assert(s.subrange(1, s.len() as int) =~= decimal_digits((-k) as nat));
    } else {
        lemma_decimal_digits_value(k as nat);
    }
}

/// The hexadecimal digits of a number, the least significant first, spell that number
/// when they are turned round.
proof fn lemma_hex_digits_value(n: nat)
    ensures
        all_hex_digits(hex_digits_reversed(n).reverse()),
        hex_digits_reversed(n).len() >= 1,
        hex_value(hex_digits_reversed(n).reverse()) == n,
    decreases n,
{
    let r = hex_digits_reversed(n);
    if n < 16 {
        let one = seq![hex_digit(n)];
        assert(r.reverse() =~= one);
        assert(one.drop_last() =~= Seq::<u8>::empty());
        assert(hex_value(Seq::<u8>::empty()) == 0);
        assert(hex_value(one) == hex_value(one.drop_last()) * 16 + hex_digit_value(one.last()));
        assert(hex_digit_value(hex_digit(n)) == n);
    } else {
        lemma_hex_digits_value(n / 16);
        let rest = hex_digits_reversed(n / 16);
        let low = hex_digit(n % 16);
        assert(r =~= seq![low] + rest);
        assert(r.reverse() =~= rest.reverse().push(low));
        assert(r.reverse().drop_last() =~= rest.reverse());
        assert(r.reverse().last() == low);
        assert(hex_digit_value(low) == n % 16);
        assert(hex_value(r.reverse()) == hex_value(r.reverse().drop_last()) * 16
            + hex_digit_value(r.reverse().last()));
        assert(hex_value(rest.reverse()) == n / 16);
        assert forall|i: int| 0 <= i < r.reverse().len() implies hex_digit_value(
            #[trigger] r.reverse()[i],
        ) < 16 by {
            if i < rest.len() {
                assert(r.reverse()[i] == rest.reverse()[i]);
            }
        }
    }
}

/// The hexadecimal text of a number stands for that number.
pub proof fn lemma_value_of_hex_text(n: nat)
    ensures
        number_value(lower_hex(n)) == Some(Decimal { digits: n, exponent: 0 }),
{
    lemma_hex_digits_value(n);
    let s = lower_hex(n);
    assert(s.subrange(2, s.len() as int) =~= hex_digits_reversed(n).reverse());
}

/// A text without `e` and `E` has no exponent to take a `+` from.
proof fn lemma_no_exponent_plus(s: Seq<u8>, i: int)
    requires
        0 <= i <= s.len(),
        forall|j: int| i <= j < s.len() ==> s[j] != 0x65 && s[j] != 0x45,
    ensures
        first_exponent_plus(s, i) == s.len(),
    decreases s.len() - i,
{
    if i < s.len() {
        lemma_no_exponent_plus(s, i + 1);
    }
}

/// A text without a point is left alone by the form that moves the point.
proof fn lemma_no_point_no_shift(s: Seq<u8>)
    requires
        forall|j: int| 0 <= j < s.len() ==> s[j] != 0x2E,
    ensures
        shifted_exponent_form(s) == s,
{
    lemma_index_of_from(s, 0x2E, 0);
}

/// The zeros that a text ends in are zeros, and what stands before them is none.
proof fn lemma_trailing_zeros(s: Seq<u8>)
    ensures
        trailing_zeros(s) <= s.len(),
        forall|i: int| s.len() - trailing_zeros(s) <= i < s.len() ==> s[i] == 0x30,
        trailing_zeros(s) < s.len() ==> s[s.len() - trailing_zeros(s) - 1] != 0x30,
    decreases s.len(),
{
    if s.len() > 0 && s.last() == 0x30 {
        lemma_trailing_zeros(s.drop_last());
        assert forall|i: int| s.len() - trailing_zeros(s) <= i < s.len() implies s[i] == 0x30 by {
            if i < s.len() - 1 {
                assert(s[i] == s.drop_last()[i]);
            }
        }
        if trailing_zeros(s) < s.len() {
            assert(s[s.len() - trailing_zeros(s) - 1] == s.drop_last()[s.drop_last().len()
                - trailing_zeros(s.drop_last()) - 1]);
        }
    }
}

/// The text of a whole number: digits, and no zero before them but for zero itself.
pub open spec fn whole_text_ok(digits: Seq<u8>) -> bool {
    all_digits(digits) && 1 <= digits.len() <= 100 && (digits.len() == 1 || digits[0] != 0x30)
}

/// The shortened text of a whole number stands for the number: whether it keeps its
/// digits, is written in hexadecimal, or has its trailing zeros counted in an
/// exponent.
pub proof fn lemma_minified_whole_number_keeps_its_value(digits: Seq<u8>, integer: u128)
    requires
        whole_text_ok(digits),
        integer == digits_value(digits),
    ensures
        number_value(digits) == Some(Decimal { digits: integer as nat, exponent: 0 }),
        number_value(spec_minified_number(digits, Some(integer))) is Some,
        same_number(
            number_value(spec_minified_number(digits, Some(integer)))->0,
            Decimal { digits: integer as nat, exponent: 0 },
        ),
{
    let empty = Seq::<u8>::empty();
    assert(decimal_text(digits, empty, empty) =~= digits);
    assert(digits.len() >= 2 ==> 0x30 <= digits[1] <= 0x39);
    lemma_value_of_decimal_text(digits, empty, empty);
    assert(digits + empty =~= digits);
    lemma_same_number_reflexive(Decimal { digits: integer as nat, exponent: 0 });
    if integer >= 1000 {
        assert(strip_leading_zero(digits) == digits);
        lemma_no_exponent_plus(digits, 0);
        assert(spec_strip_exponent_plus(digits) == digits);
        let hex = lower_hex(integer as nat);
        if hex.len() < digits.len() {
            lemma_value_of_hex_text(integer as nat);
            assert forall|j: int| 0 <= j < hex.len() implies hex[j] != 0x2E by {
                lemma_hex_text_has_no_point(integer as nat, j);
            }
            lemma_no_point_no_shift(hex);
        } else {
            let zeros = trailing_zeros(digits);
            lemma_trailing_zeros(digits);
            let second = trailing_zeros_form(digits);
            if second == digits {
                lemma_no_point_no_shift(digits);
            } else {
                let head = digits.subrange(0, digits.len() - zeros);
                let tail = digits.subrange(digits.len() - zeros, digits.len() as int);
                let count = decimal_digits(zeros);
                lemma_decimal_digits_value(zeros);
                lemma_parse_signed_decimal(zeros as int);
                assert(second =~= decimal_text(head, empty, count));
                lemma_all_digits_subrange(digits, 0, digits.len() - zeros);
                assert(0x30 <= head[0] <= 0x39);
                assert(second.len() >= 2 ==> second[1] != 0x78) by {
                    if head.len() >= 2 {
                        assert(second[1] == head[1]);
                    } else {
                        assert(second[1] == 0x65);
                    }
                }
                lemma_value_of_decimal_text(head, empty, count);
                assert(head + empty =~= head);
                assert forall|j: int| 0 <= j < second.len() implies second[j] != 0x2E by {
                    if j < head.len() {
                        assert(second[j] == head[j]);
                    } else if j > head.len() {
                        assert(second[j] == count[j - head.len() - 1]);
                    }
                }
                lemma_no_point_no_shift(second);
                assert(digits =~= head + tail);
                lemma_digits_value_concat(head, tail);
                lemma_zeros_value(tail);
            }
        }
    }
}

/// The hexadecimal text of a number holds no point.
proof fn lemma_hex_text_has_no_point(n: nat, j: int)
    requires
        0 <= j < lower_hex(n).len(),
    ensures
        lower_hex(n)[j] != 0x2E,
{
    lemma_hex_digits_value(n);
    let s = lower_hex(n);
    if j >= 2 {
        assert(s[j] == hex_digits_reversed(n).reverse()[j - 2]);
        assert(hex_digit_value(hex_digits_reversed(n).reverse()[j - 2]) < 16);
    }
}

/// The zeros that a text holds from `i` on are zeros, and what follows them is none.
proof fn lemma_zeros_from(s: Seq<u8>, i: int)
    requires
        0 <= i <= s.len(),
    ensures
        i + zeros_from(s, i) <= s.len(),
        forall|j: int| i <= j < i + zeros_from(s, i) ==> s[j] == 0x30,
        i + zeros_from(s, i) < s.len() ==> s[i + zeros_from(s, i)] != 0x30,
    decreases s.len() - i,
{
    if i < s.len() && s[i] == 0x30 {
        lemma_zeros_from(s, i + 1);
    }
}

/// A text that ends in a sign and a number below a thousand is left alone by the form
/// that counts trailing zeros: what it would save, the count would take up again.
proof fn lemma_exponent_keeps_its_zeros(head: Seq<u8>, sign: u8, k: nat)
    requires
        sign != 0x30,
        1 <= k < 1000,
    ensures
        trailing_zeros_form(head + seq![sign] + decimal_digits(k)) == head + seq![sign]
            + decimal_digits(k),
{
    let count = decimal_digits(k);
    let s = head + seq![sign] + count;
    lemma_decimal_digits_value(k);
    lemma_trailing_zeros(s);
    let z = trailing_zeros(s);
    assert(s[s.len() - count.len() - 1] == sign);
    assert(s[s.len() - count.len()] == count[0]);
    if z >= count.len() {
        assert(s[s.len() - count.len()] == 0x30);
    }
    assert(z < count.len());
    assert(z <= 2);
    lemma_decimal_digits_value(z);
}

/// The text of a fraction: a whole number, a point, and digits that do not end in a
/// zero.
pub open spec fn fraction_text_ok(int_part: Seq<u8>, frac_part: Seq<u8>) -> bool {
    whole_text_ok(int_part) && all_digits(frac_part) && 1 <= frac_part.len() <= 100
        && frac_part.last() != 0x30
}

/// A text of digits with a point among them, and no exponent, is well read, and the
/// forms that work on exponents and on trailing zeros leave it alone.
proof fn lemma_fraction_is_stable(int_part: Seq<u8>, frac_part: Seq<u8>)
    requires
        all_digits(int_part),
        int_part.len() <= 100,
        all_digits(frac_part),
        1 <= frac_part.len() <= 100,
        frac_part.last() != 0x30,
    ensures
        ({
            let plain = decimal_text(int_part, frac_part, Seq::empty());
            &&& plain == int_part + seq![0x2Eu8] + frac_part
            &&& spec_strip_exponent_plus(plain) == plain
            &&& number_value(plain) == Some(
                Decimal { digits: digits_value(int_part + frac_part), exponent: -frac_part.len() },
            )
            &&& trailing_zeros_form(plain) == plain
            &&& shifted_exponent_form(plain) == plain
            &&& int_part.len() > 0 ==> small_fraction_form(plain) == plain
        }),
{
    let empty = Seq::<u8>::empty();
    let plain = decimal_text(int_part, frac_part, empty);
    assert(plain =~= int_part + seq![0x2Eu8] + frac_part);
    assert forall|j: int| 0 <= j < plain.len() implies plain[j] != 0x65 && plain[j] != 0x45 by {
        if j < int_part.len() {
            assert(plain[j] == int_part[j]);
        } else if j > int_part.len() {
            assert(plain[j] == frac_part[j - int_part.len() - 1]);
        }
    }
    lemma_no_exponent_plus(plain, 0);
    assert(!is_hex_text(plain)) by {
        if int_part.len() >= 2 {
            assert(plain[1] == int_part[1]);
        } else if int_part.len() == 1 {
            assert(plain[1] == 0x2E);
        } else {
            assert(plain[0] == 0x2E);
        }
    }
    lemma_value_of_decimal_text(int_part, frac_part, empty);
    assert(shifted_exponent_form(plain) == plain) by {
        lemma_index_of_from(plain, 0x2E, 0);
        let dot = index_of_from(plain, 0x2E, 0);
        assert(plain[int_part.len() as int] == 0x2E);
        assert(dot < plain.len());
        lemma_index_of_from(plain, 0x65, dot + 1);
    }
    assert(trailing_zeros_form(plain) == plain) by {
        assert(plain.last() == frac_part.last());
        assert(trailing_zeros(plain) == 0);
    }
    if int_part.len() > 0 {
        assert(plain[0] == int_part[0]);
    }
}

/// A fraction below one, written without the zero before its point: where the form
/// with its digits and a negative exponent is taken, that form stands for the same
/// number, and the later forms leave it alone.
#[verifier::spinoff_prover]
proof fn lemma_small_fraction_form(frac_part: Seq<u8>)
    requires
        all_digits(frac_part),
        1 <= frac_part.len() <= 100,
        frac_part.last() != 0x30,
    ensures
        ({
            let plain = seq![0x2Eu8] + frac_part;
            let first = small_fraction_form(plain);
            first == plain || (number_value(first) == Some(
                Decimal { digits: digits_value(frac_part), exponent: -frac_part.len() },
            ) && trailing_zeros_form(first) == first && shifted_exponent_form(first) == first)
        }),
{
    let empty = Seq::<u8>::empty();
    let plain = seq![0x2Eu8] + frac_part;
    let first = small_fraction_form(plain);
    if first != plain {
        lemma_zeros_from(plain, 1);
        let zeros = zeros_from(plain, 1);
        let start = 1 + zeros;
        let digits = plain.subrange(start as int, plain.len() as int);
        let lead = frac_part.subrange(0, zeros as int);
        let k = frac_part.len();
        assert(plain.len() - 1 == k);
        assert(plain.last() == frac_part.last());
        assert(start < plain.len());
        assert(digits =~= frac_part.subrange(zeros as int, k as int));
        lemma_all_digits_subrange(frac_part, zeros as int, k as int);
        assert(frac_part =~= lead + digits);
        assert forall|j: int| 0 <= j < lead.len() implies lead[j] == 0x30 by {
            assert(lead[j] == plain[1 + j]);
        }
        lemma_zeros_value(lead);
        lemma_digits_value_concat(lead, digits);
        assert(0 * pow10(digits.len()) == 0);
        assert(digits_value(digits) == digits_value(frac_part));
        let exponent = seq![0x2Du8] + decimal_digits(k);
        assert(exponent == signed_decimal(-(k as int)));
        lemma_parse_signed_decimal(-(k as int));
        lemma_small_fraction_tail(digits, k, first);
    }
}

/// Digits with a negative exponent below a thousand behind them: the text is well read,
/// and the later forms leave it alone.
proof fn lemma_small_fraction_tail(digits: Seq<u8>, k: nat, first: Seq<u8>)
    requires
        all_digits(digits),
        digits.len() >= 1,
        1 <= k < 1000,
        first == digits + seq![0x65u8, 0x2Du8] + decimal_digits(k),
    ensures
        number_value(first) == Some(Decimal { digits: digits_value(digits), exponent: -k }),
        trailing_zeros_form(first) == first,
        shifted_exponent_form(first) == first,
{
    let empty = Seq::<u8>::empty();
    let exponent = seq![0x2Du8] + decimal_digits(k);
    assert(exponent == signed_decimal(-(k as int)));
    lemma_parse_signed_decimal(-(k as int));
    lemma_decimal_digits_value(k);
    assert(first =~= decimal_text(digits, empty, exponent));
    assert(first[0] == digits[0]);
    assert(first.len() >= 2 && first[1] != 0x78) by {
        if digits.len() >= 2 {
            assert(first[1] == digits[1]);
        } else {
            assert(first[1] == 0x65);
        }
    }
    lemma_value_of_decimal_text(digits, empty, exponent);
    assert(digits + empty =~= digits);
    assert(first =~= (digits + seq![0x65u8]) + seq![0x2Du8] + decimal_digits(k));
    lemma_exponent_keeps_its_zeros(digits + seq![0x65u8], 0x2D, k);
    assert forall|j: int| 0 <= j < first.len() implies first[j] != 0x2E by {
        if j < digits.len() {
            assert(first[j] == digits[j]);
        } else if j > digits.len() + 1 {
            assert(first[j] == decimal_digits(k)[j - digits.len() - 2]);
        } else if j == digits.len() {
            assert(first[j] == 0x65);
        } else {
            assert(first[j] == 0x2D);
        }
    }
    lemma_no_point_no_shift(first);
}

/// The shortened text of a fraction stands for the number: whether it loses the zero
/// before its point, or is written as its digits and a negative exponent.
pub proof fn lemma_minified_fraction_keeps_its_value(int_part: Seq<u8>, frac_part: Seq<u8>)
    requires
        fraction_text_ok(int_part, frac_part),
    ensures
        number_value(decimal_text(int_part, frac_part, Seq::empty())) == Some(
            Decimal { digits: digits_value(int_part + frac_part), exponent: -frac_part.len() },
        ),
        number_value(
            spec_minified_number(decimal_text(int_part, frac_part, Seq::empty()), None),
        ) is Some,
        same_number(
            number_value(
                spec_minified_number(decimal_text(int_part, frac_part, Seq::empty()), None),
            )->0,
            Decimal { digits: digits_value(int_part + frac_part), exponent: -frac_part.len() },
        ),
{
    let empty = Seq::<u8>::empty();
    let s = decimal_text(int_part, frac_part, empty);
    let value = Decimal { digits: digits_value(int_part + frac_part), exponent: -frac_part.len() };
    lemma_fraction_is_stable(int_part, frac_part);
    lemma_same_number_reflexive(value);
    assert(s[0] == int_part[0]);
    if int_part.len() == 1 && int_part[0] == 0x30 {
        assert(s[1] == 0x2E);
        let plain = seq![0x2Eu8] + frac_part;
        assert(strip_leading_zero(s) =~= plain);
        assert(decimal_text(empty, frac_part, empty) =~= plain);
        lemma_fraction_is_stable(empty, frac_part);
        lemma_small_fraction_form(frac_part);
        lemma_digits_value_concat(int_part, frac_part);
        lemma_zeros_value(int_part);
        assert(empty + frac_part =~= frac_part);
        assert(0 * pow10(frac_part.len()) == 0);
    } else {
        if int_part.len() == 1 {
            assert(s[0] != 0x30);
        } else {
            assert(s[1] == int_part[1]);
        }
        assert(strip_leading_zero(s) == s);
    }
}

/// The first `e` or `E` with a `+` behind it is found where one stands.
proof fn lemma_first_exponent_plus_at(s: Seq<u8>, i: int, at: int)
    requires
        0 <= i <= at,
        exponent_plus_at(s, at),
        forall|j: int| i <= j < at ==> !exponent_plus_at(s, j),
    ensures
        first_exponent_plus(s, i) == at,
    decreases at - i,
{
    if i < at {
        lemma_first_exponent_plus_at(s, i + 1, at);
    }
}

/// A text without `e+` and `E+` keeps all its bytes.
proof fn lemma_no_plus_to_strip(s: Seq<u8>, i: int)
    requires
        0 <= i <= s.len(),
        forall|j: int| i <= j < s.len() ==> !exponent_plus_at(s, j),
    ensures
        first_exponent_plus(s, i) == s.len(),
    decreases s.len() - i,
{
    if i < s.len() {
        lemma_no_plus_to_strip(s, i + 1);
    }
}

/// The digits and the point of a number, without an exponent.
pub open spec fn mantissa_text(int_part: Seq<u8>, frac_part: Seq<u8>) -> Seq<u8> {
    decimal_text(int_part, frac_part, Seq::empty())
}

/// The exponent as the decimal text of a number has it: with its sign, also where that
/// is a `+`.
pub open spec fn written_exponent(k: int) -> Seq<u8> {
    if k < 0 {
        signed_decimal(k)
    } else {
        seq![0x2Bu8] + decimal_digits(k as nat)
    }
}

proof fn lemma_mantissa_bytes(int_part: Seq<u8>, frac_part: Seq<u8>)
    requires
        all_digits(int_part),
        all_digits(frac_part),
    ensures
        forall|j: int|
            0 <= j < mantissa_text(int_part, frac_part).len() ==> {
                let b = #[trigger] mantissa_text(int_part, frac_part)[j];
                b == 0x2E || 0x30 <= b <= 0x39
            },
        mantissa_text(int_part, frac_part).len() == int_part.len() + (if frac_part.len() > 0 {
            1 + frac_part.len()
        } else {
            0
        }),
{
    let m = mantissa_text(int_part, frac_part);
    assert forall|j: int| 0 <= j < m.len() implies {
        let b = #[trigger] m[j];
        b == 0x2E || 0x30 <= b <= 0x39
    } by {
        if j < int_part.len() {
            assert(m[j] == int_part[j]);
        } else if j > int_part.len() {
            assert(m[j] == frac_part[j - int_part.len() - 1]);
        }
    }
}

/// The decimal text of a number with an exponent loses the `+` of the exponent, and
/// nothing else.
proof fn lemma_strip_plus_of_exponent(int_part: Seq<u8>, frac_part: Seq<u8>, k: int)
    requires
        all_digits(int_part),
        all_digits(frac_part),
        -1000 < k < 1000,
        k != 0,
    ensures
        spec_strip_exponent_plus(decimal_text(int_part, frac_part, written_exponent(k)))
            == decimal_text(int_part, frac_part, signed_decimal(k)),
{
    let m = mantissa_text(int_part, frac_part);
    lemma_mantissa_bytes(int_part, frac_part);
    let s = decimal_text(int_part, frac_part, written_exponent(k));
    let at = m.len() as int;
    let magnitude = if k < 0 {
        (-k) as nat
    } else {
        k as nat
    };
    lemma_decimal_digits_value(magnitude);
    let count = decimal_digits(magnitude);
    assert(written_exponent(k).len() > 0);
    assert(signed_decimal(k).len() > 0);
    assert(s =~= m + seq![0x65u8] + written_exponent(k));
    assert forall|j: int| 0 <= j < s.len() && j != at implies s[j] != 0x65 && s[j] != 0x45 by {
        if j < at {
            assert(s[j] == m[j]);
        } else if j == at + 1 {
        } else {
            assert(s[j] == count[j - at - 2]);
        }
    }
    assert(s[at] == 0x65);
    if k < 0 {
        assert(s[at + 1] == 0x2D);
        lemma_no_plus_to_strip(s, 0);
    } else {
        assert(s[at + 1] == 0x2B);
        lemma_first_exponent_plus_at(s, 0, at);
        assert(s.subrange(0, at + 1) + s.subrange(at + 2, s.len() as int) =~= m + seq![0x65u8]
            + count);
        assert(decimal_text(int_part, frac_part, signed_decimal(k)) =~= m + seq![0x65u8] + count);
    }
}

/// A number with a sign as the decimal text has it reads back as itself.
proof fn lemma_parse_written_exponent(k: int)
    requires
        -1000 < k < 1000,
    ensures
        parse_exponent(written_exponent(k)) == Some(k),
        written_exponent(k).len() >= 1,
{
    lemma_parse_signed_decimal(k);
    if k >= 0 {
        lemma_decimal_digits_value(k as nat);
        let s = written_exponent(k);
        assert(s.subrange(1, s.len() as int) =~= decimal_digits(k as nat));
    }
}

/// The parts of a decimal text with an exponent: one digit that is no zero, digits
/// behind the point that do not end in a zero, and an exponent that is not zero.
pub open spec fn exponent_text_ok(int_part: Seq<u8>, frac_part: Seq<u8>, k: int) -> bool {
    all_digits(int_part) && int_part.len() == 1 && int_part[0] != 0x30 && all_digits(frac_part)
        && frac_part.len() <= 16 && (frac_part.len() == 0 || frac_part.last() != 0x30) && -400
        < k < 400 && k != 0
}

/// A text with an exponent, its `+` taken off: it is well read, and the forms for small
/// fractions and for trailing zeros leave it alone.
proof fn lemma_exponent_text_is_stable(int_part: Seq<u8>, frac_part: Seq<u8>, k: int)
    requires
        exponent_text_ok(int_part, frac_part, k),
    ensures
        ({
            let plain = decimal_text(int_part, frac_part, signed_decimal(k));
            &&& number_value(plain) == Some(
                Decimal { digits: digits_value(int_part + frac_part), exponent: k - frac_part.len() },
            )
            &&& small_fraction_form(plain) == plain
            &&& trailing_zeros_form(plain) == plain
            &&& plain.len() <= 24
            &&& !is_hex_text(plain)
        }),
{
    let plain = decimal_text(int_part, frac_part, signed_decimal(k));
    let m = mantissa_text(int_part, frac_part);
    lemma_mantissa_bytes(int_part, frac_part);
    lemma_parse_signed_decimal(k);
    let magnitude = if k < 0 {
        (-k) as nat
    } else {
        k as nat
    };
    lemma_decimal_digits_value(magnitude);
    assert(plain =~= m + seq![0x65u8] + signed_decimal(k));
    assert(plain[0] == int_part[0]);
    lemma_value_of_decimal_text(int_part, frac_part, signed_decimal(k));
    if k < 0 {
        assert(plain =~= (m + seq![0x65u8]) + seq![0x2Du8] + decimal_digits(magnitude));
        lemma_exponent_keeps_its_zeros(m + seq![0x65u8], 0x2D, magnitude);
    } else {
        assert(plain =~= m + seq![0x65u8] + decimal_digits(magnitude));
        lemma_exponent_keeps_its_zeros(m, 0x65, magnitude);
    }
}

/// A text with an exponent, its `+` taken off: the form that moves the point out of it
/// stands for the same number.
proof fn lemma_shifted_exponent_keeps_value(int_part: Seq<u8>, frac_part: Seq<u8>, k: int)
    requires
        exponent_text_ok(int_part, frac_part, k),
    ensures
        number_value(
            shifted_exponent_form(decimal_text(int_part, frac_part, signed_decimal(k))),
        ) == Some(
            Decimal { digits: digits_value(int_part + frac_part), exponent: k - frac_part.len() },
        ),
{
    let empty = Seq::<u8>::empty();
    let plain = decimal_text(int_part, frac_part, signed_decimal(k));
    let m = mantissa_text(int_part, frac_part);
    lemma_exponent_text_is_stable(int_part, frac_part, k);
    lemma_mantissa_bytes(int_part, frac_part);
    lemma_parse_signed_decimal(k);
    assert(plain =~= m + seq![0x65u8] + signed_decimal(k));
    let magnitude = if k < 0 {
        (-k) as nat
    } else {
        k as nat
    };
    lemma_decimal_digits_value(magnitude);
    if frac_part.len() == 0 {
        assert(m =~= int_part);
        assert forall|j: int| 0 <= j < plain.len() implies plain[j] != 0x2E by {
            if j < 1 {
                assert(plain[j] == int_part[j]);
            } else if j == 1 {
            } else if k < 0 {
                if j > 2 {
                    assert(plain[j] == decimal_digits(magnitude)[j - 3]);
                }
            } else {
                assert(plain[j] == decimal_digits(magnitude)[j - 2]);
            }
        }
        lemma_no_point_no_shift(plain);
    } else {
        let flen = frac_part.len() as int;
        assert(plain[0] == int_part[0]);
        assert(plain[1] == 0x2E);
        lemma_index_of_from(plain, 0x2E, 0);
        let dot = index_of_from(plain, 0x2E, 0);
        assert(dot == 1);
        let at = 2 + flen;
        assert(plain[at] == 0x65);
        assert forall|j: int| 2 <= j < at implies plain[j] != 0x65 by {
            assert(plain[j] == frac_part[j - 2]);
        }
        lemma_index_of_from(plain, 0x65, 2);
        let e = index_of_from(plain, 0x65, 2);
        assert(e == at);
        assert(plain.subrange(e + 1, plain.len() as int) =~= signed_decimal(k));
        assert(plain.subrange(0, dot) =~= int_part);
        assert(plain.subrange(dot + 1, e) =~= frac_part);
        let moved = signed_decimal(k - flen);
        lemma_parse_signed_decimal(k - flen);
        let candidate = int_part + frac_part + seq![0x65u8] + moved;
        lemma_all_digits_concat(int_part, frac_part);
        assert(candidate =~= decimal_text(int_part + frac_part, empty, moved));
        assert(candidate[0] == int_part[0]);
        lemma_value_of_decimal_text(int_part + frac_part, empty, moved);
        assert((int_part + frac_part) + empty =~= int_part + frac_part);
    }
}

/// A number of at least 16 to the power `m` has more than `m` hexadecimal digits.
proof fn lemma_hex_digits_at_least(n: nat, m: nat)
    requires
        n >= pow16(m),
    ensures
        hex_digits_reversed(n).len() >= m + 1,
    decreases m,
{
    if m > 0 {
        assert(pow16(m) == 16 * pow16((m - 1) as nat));
        assert(pow16((m - 1) as nat) >= 1) by {
            lemma_pow16_positive((m - 1) as nat);
        }
        assert(n >= 16);
        assert(n / 16 >= pow16((m - 1) as nat));
        lemma_hex_digits_at_least(n / 16, (m - 1) as nat);
        assert(hex_digits_reversed(n) =~= seq![hex_digit(n % 16)] + hex_digits_reversed(n / 16));
    }
}

pub open spec fn pow16(n: nat) -> nat
    decreases n,
{
    if n == 0 {
        1
    } else {
        16 * pow16((n - 1) as nat)
    }
}

proof fn lemma_pow16_sum(a: nat, b: nat)
    ensures
        pow16(a + b) == pow16(a) * pow16(b),
    decreases b,
{
    if b == 0 {
        assert(pow16(0) == 1);
        assert(pow16(a) * 1 == pow16(a));
    } else {
        lemma_pow16_sum(a, (b - 1) as nat);
        assert(pow16(a + b) == 16 * pow16((a + b - 1) as nat));
        assert(pow16(b) == 16 * pow16((b - 1) as nat));
        assert(16 * (pow16(a) * pow16((b - 1) as nat)) == pow16(a) * (16 * pow16((b - 1) as nat)))
            by (nonlinear_arith);
    }
}

proof fn lemma_pow16_positive(m: nat)
    ensures
        pow16(m) >= 1,
    decreases m,
{
    if m > 0 {
        lemma_pow16_positive((m - 1) as nat);
    }
}

/// The largest 128-bit number has 32 hexadecimal digits, so its text has 34 bytes.
proof fn lemma_largest_hex_text_is_long()
    ensures
        lower_hex(u128::MAX as nat).len() >= 34,
{
    reveal_with_fuel(pow16, 9);
    assert(pow16(8) == 0x1_0000_0000);
    lemma_pow16_sum(8, 8);
    assert(pow16(16) == 0x1_0000_0000_0000_0000) by (nonlinear_arith)
        requires
            pow16(16) == pow16(8) * pow16(8),
            pow16(8) == 0x1_0000_0000,
    ;
    lemma_pow16_sum(16, 8);
    lemma_pow16_sum(24, 7);
    assert(pow16(7) == 0x1000_0000);
    assert(pow16(24) == 0x1_0000_0000_0000_0000_0000_0000) by (nonlinear_arith)
        requires
            pow16(24) == pow16(16) * pow16(8),
            pow16(16) == 0x1_0000_0000_0000_0000,
            pow16(8) == 0x1_0000_0000,
    ;
    assert(pow16(31) == 0x1000_0000_0000_0000_0000_0000_0000_0000) by (nonlinear_arith)
        requires
            pow16(31) == pow16(24) * pow16(7),
            pow16(24) == 0x1_0000_0000_0000_0000_0000_0000,
            pow16(7) == 0x1000_0000,
    ;
    lemma_hex_digits_at_least(u128::MAX as nat, 31);
}

/// The whole number that a text with an exponent stands for, as the printer is handed
/// it: the number itself where it fits into 128 bits, and the largest such number
/// where it does not.
pub open spec fn whole_value_fits(int_part: Seq<u8>, frac_part: Seq<u8>, k: int, integer: u128) -> bool {
    k >= frac_part.len() && {
        let exact = digits_value(int_part + frac_part) * pow10((k - frac_part.len()) as nat);
        integer == (if exact <= u128::MAX {
            exact
        } else {
            u128::MAX as nat
        })
    }
}

/// The shortened text of a number with an exponent stands for the number: whether it
/// loses the `+` of its exponent, is written in hexadecimal, or has its point moved
/// out.
pub proof fn lemma_minified_exponent_number_keeps_its_value(
    int_part: Seq<u8>,
    frac_part: Seq<u8>,
    k: int,
    integer: Option<u128>,
)
    requires
        exponent_text_ok(int_part, frac_part, k),
        integer is Some ==> whole_value_fits(int_part, frac_part, k, integer->0),
    ensures
        number_value(decimal_text(int_part, frac_part, written_exponent(k))) == Some(
            Decimal { digits: digits_value(int_part + frac_part), exponent: k - frac_part.len() },
        ),
        number_value(
            spec_minified_number(decimal_text(int_part, frac_part, written_exponent(k)), integer),
        ) is Some,
        same_number(
            number_value(
                spec_minified_number(
                    decimal_text(int_part, frac_part, written_exponent(k)),
                    integer,
                ),
            )->0,
            Decimal { digits: digits_value(int_part + frac_part), exponent: k - frac_part.len() },
        ),
{
    let s = decimal_text(int_part, frac_part, written_exponent(k));
    let value = Decimal { digits: digits_value(int_part + frac_part), exponent: k - frac_part.len() };
    let m = mantissa_text(int_part, frac_part);
    lemma_parse_written_exponent(k);
    assert(s =~= m + seq![0x65u8] + written_exponent(k));
    assert(s[0] == int_part[0]);
    lemma_value_of_decimal_text(int_part, frac_part, written_exponent(k));
    lemma_same_number_reflexive(value);
    if !(integer is Some && integer->0 < 1000) {
        assert(strip_leading_zero(s) == s);
        lemma_strip_plus_of_exponent(int_part, frac_part, k);
        let plain = decimal_text(int_part, frac_part, signed_decimal(k));
        lemma_exponent_text_is_stable(int_part, frac_part, k);
        lemma_shifted_exponent_keeps_value(int_part, frac_part, k);
        if integer is Some && lower_hex(integer->0 as nat).len() < plain.len() {
            let hex = lower_hex(integer->0 as nat);
            lemma_value_of_hex_text(integer->0 as nat);
            assert forall|j: int| 0 <= j < hex.len() implies hex[j] != 0x2E by {
                lemma_hex_text_has_no_point(integer->0 as nat, j);
            }
            lemma_no_point_no_shift(hex);
            let exact = digits_value(int_part + frac_part) * pow10((k - frac_part.len()) as nat);
            if exact > u128::MAX {
                lemma_largest_hex_text_is_long();
            }
            assert(integer->0 as nat == exact);
        }
    }
}

/// The decimal text of a number that is not negative, by its parts. It comes in three
/// forms: a whole number (`12300`), a fraction (`0.00012`, `12.5`), and a number with
/// an exponent (`1e+21`, `1.5e-7`).
pub enum ShortestText {
    Whole { digits: Seq<u8> },
    Fraction { int_part: Seq<u8>, frac_part: Seq<u8> },
    Exponent { int_part: Seq<u8>, frac_part: Seq<u8>, exponent: int },
}

impl ShortestText {
    /// The text.
    pub open spec fn text(self) -> Seq<u8> {
        match self {
            ShortestText::Whole { digits } => digits,
            ShortestText::Fraction { int_part, frac_part } => decimal_text(
                int_part,
                frac_part,
                Seq::empty(),
            ),
            ShortestText::Exponent { int_part, frac_part, exponent } => decimal_text(
                int_part,
                frac_part,
                written_exponent(exponent),
            ),
        }
    }

    /// The number that the text stands for.
    pub open spec fn value(self) -> Decimal {
        match self {
            ShortestText::Whole { digits } => Decimal { digits: digits_value(digits), exponent: 0 },
            ShortestText::Fraction { int_part, frac_part } => Decimal {
                digits: digits_value(int_part + frac_part),
                exponent: -frac_part.len(),
            },
            ShortestText::Exponent { int_part, frac_part, exponent } => Decimal {
                digits: digits_value(int_part + frac_part),
                exponent: exponent - frac_part.len(),
            },
        }
    }

    /// The text is one that the shortest decimal text of a number can be, and `integer`
    /// is what the printer is handed beside it: the number where it is whole, cut to
    /// 128 bits, and nothing for a fraction.
    pub open spec fn fits(self, integer: Option<u128>) -> bool {
        match self {
            ShortestText::Whole { digits } => whole_text_ok(digits) && integer is Some
                && integer->0 == digits_value(digits),
            ShortestText::Fraction { int_part, frac_part } => fraction_text_ok(
                int_part,
                frac_part,
            ) && integer is None,
            ShortestText::Exponent { int_part, frac_part, exponent } => exponent_text_ok(
                int_part,
                frac_part,
                exponent,
            ) && (integer is Some ==> whole_value_fits(
                int_part,
                frac_part,
                exponent,
                integer->0,
            )),
        }
    }
}

/// The text that the printer writes for a number reads back as that number: the
/// shortest decimal text of a number and its shortened form stand for the same
/// number.
pub proof fn lemma_minified_number_reads_back(shortest: ShortestText, integer: Option<u128>)
    requires
        shortest.fits(integer),
    ensures
        number_value(shortest.text()) == Some(shortest.value()),
        number_value(spec_minified_number(shortest.text(), integer)) is Some,
        same_number(
            number_value(spec_minified_number(shortest.text(), integer))->0,
            shortest.value(),
        ),
{
    match shortest {
        ShortestText::Whole { digits } => {
            lemma_minified_whole_number_keeps_its_value(digits, integer->0);
        },
        ShortestText::Fraction { int_part, frac_part } => {
            lemma_minified_fraction_keeps_its_value(int_part, frac_part);
        },
        ShortestText::Exponent { int_part, frac_part, exponent } => {
            lemma_minified_exponent_number_keeps_its_value(int_part, frac_part, exponent, integer);
        },
    }
}

} // verus!
