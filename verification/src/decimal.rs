//! Decimal text for whole numbers and fixed-point amounts.

use vstd::prelude::*;
use vstd::utf8::is_ascii_chars;

verus! {

/// True for the ten ASCII digits.
pub open spec fn is_digit(c: char) -> bool {
    '0' <= c && c <= '9'
}

/// The number that a digit stands for.
pub open spec fn digit_value(c: char) -> nat {
    (c as u32 - '0' as u32) as nat
}

/// The digit that stands for `d`, for `d` below ten.
pub open spec fn digit_char(d: nat) -> char {
    ((d + 48) as u8) as char
}

/// True when every character of `s` is a digit.
pub open spec fn all_digits(s: Seq<char>) -> bool {
    forall|i: int| 0 <= i < s.len() ==> is_digit(#[trigger] s[i])
}

/// The number that a string of digits spells, most significant digit first.
pub open spec fn decimal_value(s: Seq<char>) -> nat
    decreases s.len(),
{
    if s.len() == 0 {
        0
    } else {
        decimal_value(s.drop_last()) * 10 + digit_value(s.last())
    }
}

/// The shortest string of digits that spells `n`.
pub open spec fn decimal_digits(n: nat) -> Seq<char>
    decreases n,
{
    if n < 10 {
        seq![digit_char(n)]
    } else {
        decimal_digits(n / 10).push(digit_char(n % 10))
    }
}

/// The digit for a value below ten.
pub(crate) fn digit_of(d: u8) -> (c: char)
    requires
        d < 10,
    ensures
        c == digit_char(d as nat),
        is_digit(c),
        digit_value(c) == d,
{
    let b: u8 = d + 48;
    b as char
}

/// `String::push` appends one character to the end of the string and leaves
/// the characters before it as they were.
pub assume_specification[ String::push ](s: &mut String, c: char)
    ensures
        final(s)@ == old(s)@.push(c),
;

/// Appends the shortest decimal spelling of `n` to `out`.
pub fn push_decimal(out: &mut String, n: u64)
    ensures
        final(out)@ == old(out)@ + decimal_digits(n as nat),
    decreases n,
{
    if n >= 10 {
        push_decimal(out, n / 10);
    }
    let d: u8 = (n % 10) as u8;
    out.push(digit_of(d));
    proof {
        let digits = decimal_digits(n as nat);
        if n >= 10 {
            let head = decimal_digits((n / 10) as nat);
            assert(digits == head.push(digit_char((n % 10) as nat)));
            assert(out@ =~= old(out)@ + digits);
        } else {
            assert(digits == seq![digit_char(n as nat)]);
            assert(out@ =~= old(out)@ + digits);
        }
    }
}

/// The shortest decimal spelling of `n`.
pub fn u64_to_decimal(n: u64) -> (text: String)
    ensures
        text@ == decimal_digits(n as nat),
{
    let mut text = String::new();
    push_decimal(&mut text, n);
    assert(text@ =~= decimal_digits(n as nat));
    text
}

/// The shortest spelling of a number is made of digits, has no leading zero
/// unless the number is zero, and spells that number.
pub proof fn lemma_decimal_digits_round_trip(n: nat)
    ensures
        decimal_digits(n).len() >= 1,
        all_digits(decimal_digits(n)),
        decimal_value(decimal_digits(n)) == n,
        n > 0 ==> decimal_digits(n)[0] != '0',
        n == 0 ==> decimal_digits(n) == seq!['0'],
    decreases n,
{
    let digits = decimal_digits(n);
    if n < 10 {
        assert(digits == seq![digit_char(n)]);
        assert(digits.drop_last() =~= Seq::<char>::empty());
        assert(decimal_value(digits.drop_last()) == 0);
        assert(digit_value(digits.last()) == n);
        assert(decimal_value(digits) == n);
    } else {
        lemma_decimal_digits_round_trip(n / 10);
        let head = decimal_digits(n / 10);
        assert(digits == head.push(digit_char(n % 10)));
        assert(digits.drop_last() =~= head);
        assert(digits.last() == digit_char(n % 10));
        assert(digit_value(digits.last()) == n % 10);
        assert(decimal_value(digits) == (n / 10) * 10 + n % 10);
        assert(digits[0] == head[0]);
        assert forall|i: int| 0 <= i < digits.len() implies is_digit(#[trigger] digits[i]) by {
            if i < head.len() {
                assert(digits[i] == head[i]);
            }
        }
    }
}

/// What is left of `s` once one leading plus sign, if there is one, is taken off.
pub open spec fn without_plus(s: Seq<char>) -> Seq<char> {
    if s.len() > 0 && s[0] == '+' {
        s.subrange(1, s.len() as int)
    } else {
        s
    }
}

/// The unsigned number that `s` spells: an optional plus sign, then at least
/// one digit and nothing else, with a value that fits in 64 bits.
pub open spec fn spec_parse_u64(s: Seq<char>) -> Option<u64> {
    let body = without_plus(s);
    if body.len() > 0 && all_digits(body) && decimal_value(body) <= u64::MAX {
        Some(decimal_value(body) as u64)
    } else {
        None
    }
}

/// Reading the shortest spelling of a number gives the number back.
pub proof fn lemma_parse_of_digits(n: u64)
    ensures
        spec_parse_u64(decimal_digits(n as nat)) == Some(n),
{
    lemma_decimal_digits_round_trip(n as nat);
    let digits = decimal_digits(n as nat);
    assert(is_digit(digits[0]));
    assert(without_plus(digits) == digits);
}

/// A string of digits spells at least what any of its prefixes spells.
pub proof fn lemma_decimal_value_prefix(s: Seq<char>, k: int)
    requires
        0 <= k <= s.len(),
    ensures
        decimal_value(s.subrange(0, k)) <= decimal_value(s),
    decreases s.len(),
{
    if k == s.len() {
        assert(s.subrange(0, k) =~= s);
    } else {
        lemma_decimal_value_prefix(s.drop_last(), k);
        assert(s.drop_last().subrange(0, k) =~= s.subrange(0, k));
    }
}

/// Reads an unsigned decimal number.
pub fn parse_u64(s: &str) -> (r: Option<u64>)
    ensures
        r == spec_parse_u64(s@),
{
    let ghost body = without_plus(s@);
    if !s.is_ascii() {
        proof {
            let i = choose|i: int| 0 <= i < s@.len() && !('\0' <= #[trigger] s@[i] <= '\u{7f}');
            if s@.len() > 0 && s@[0] == '+' {
                assert(body[i - 1] == s@[i]);
                assert(!is_digit(body[i - 1]));
            } else {
                assert(!is_digit(body[i]));
            }
        }
        return None;
    }
    let bytes = s.as_bytes();
    proof {
        vstd::string::is_ascii_spec_bytes(s);
    }
    let n: usize = bytes.len();
    let start: usize = if n > 0 && bytes[0] == 43u8 { 1 } else { 0 };
    assert(body =~= s@.subrange(start as int, n as int)) by {
        if n > 0 {
            assert(bytes@[0] == s@[0] as u8);
        }
    }
    if start == n {
        return None;
    }
    let mut acc: u64 = 0;
    let mut i: usize = start;
    while i < n
        invariant
            start <= i <= n,
            n == s@.len(),
            bytes@.len() == n,
            is_ascii_chars(s@),
            forall|k: int| 0 <= k < n ==> bytes@[k] == s@[k] as u8,
            body == without_plus(s@),
            body == s@.subrange(start as int, n as int),
            all_digits(body.subrange(0, i - start)),
            acc == decimal_value(body.subrange(0, i - start)),
        decreases n - i,
    {
        let b: u8 = bytes[i];
        let ghost c = s@[i as int];
        let ghost seen = body.subrange(0, i - start);
        let ghost next = body.subrange(0, i + 1 - start);
        assert(b == c as u8);
        assert('\0' <= c <= '\u{7f}');
        assert(body[i - start] == c);
        if b < 48u8 || b > 57u8 {
            assert(!is_digit(c));
            return None;
        }
        assert(is_digit(c));
        let d: u64 = (b - 48u8) as u64;
        assert(d == digit_value(c));
        proof {
            assert(next.drop_last() =~= seen);
            assert(next.last() == c);
            assert(decimal_value(next) == acc * 10 + d);
            lemma_decimal_value_prefix(body, i + 1 - start);
        }
        if acc > (u64::MAX - d) / 10 {
            return None;
        }
        acc = acc * 10 + d;
        assert forall|k: int| 0 <= k < next.len() implies is_digit(#[trigger] next[k]) by {
            if k < seen.len() {
                assert(next[k] == seen[k]);
            }
        }
        i = i + 1;
    }
    assert(body.subrange(0, n - start) =~= body);
    Some(acc)
}

/// Digits after the point of an amount: an amount is a whole number of
/// billionths.
pub const AMOUNT_DECIMALS: usize = 9;

/// Ten to the power `exponent`.
pub open spec fn pow10(exponent: nat) -> nat
    decreases exponent,
{
    if exponent == 0 {
        1
    } else {
        10 * pow10((exponent - 1) as nat)
    }
}

/// The characters that a string of ASCII bytes stands for.
pub open spec fn chars_of(bytes: Seq<u8>) -> Seq<char> {
    Seq::new(bytes.len(), |i: int| bytes[i] as char)
}

/// Place of the first point in `s`, or the length of `s` if it has none.
pub open spec fn first_point(s: Seq<char>) -> nat
    decreases s.len(),
{
    if s.len() == 0 || s[0] == '.' {
        0
    } else {
        1 + first_point(s.drop_first())
    }
}

/// What is left of `s` once one leading sign, if there is one, is taken off.
pub open spec fn without_sign(s: Seq<char>) -> Seq<char> {
    if s.len() > 0 && (s[0] == '+' || s[0] == '-') {
        s.subrange(1, s.len() as int)
    } else {
        s
    }
}

/// The number of billionths that an unsigned decimal spells: at least one
/// digit, then, if there is a point, one to nine digits after it.
pub open spec fn spec_magnitude(body: Seq<char>) -> Option<nat> {
    let point = first_point(body) as int;
    let whole = body.subrange(0, point);
    if whole.len() == 0 || !all_digits(whole) {
        None
    } else if point == body.len() {
        Some(decimal_value(whole) * pow10(AMOUNT_DECIMALS as nat))
    } else {
        let fraction = body.subrange(point + 1, body.len() as int);
        if fraction.len() == 0 || fraction.len() > AMOUNT_DECIMALS || !all_digits(fraction) {
            None
        } else {
            Some(
                decimal_value(whole) * pow10(AMOUNT_DECIMALS as nat) + decimal_value(fraction)
                    * pow10((AMOUNT_DECIMALS - fraction.len()) as nat),
            )
        }
    }
}

/// The amount in billionths that a signed decimal spells, where it spells
/// one that fits in 64 bits.
pub open spec fn spec_parse_amount(s: Seq<char>) -> Option<i64> {
    let negative = s.len() > 0 && s[0] == '-';
    match spec_magnitude(without_sign(s)) {
        None => None,
        Some(magnitude) => if negative {
            if magnitude <= 0x8000_0000_0000_0000 {
                Some((-(magnitude as int)) as i64)
            } else {
                None
            }
        } else {
            if magnitude <= i64::MAX {
                Some(magnitude as i64)
            } else {
                None
            }
        },
    }
}

/// Where `s` has no point before place `p`, and has one there or ends there,
/// `p` is the place of its first point.
pub proof fn lemma_first_point(s: Seq<char>, p: int)
    requires
        0 <= p <= s.len(),
        forall|i: int| 0 <= i < p ==> s[i] != '.',
        p == s.len() || s[p] == '.',
    ensures
        first_point(s) == p,
    decreases s.len(),
{
    if p > 0 {
        let rest = s.drop_first();
        assert forall|i: int| 0 <= i < p - 1 implies rest[i] != '.' by {
            assert(rest[i] == s[i + 1]);
        }
        lemma_first_point(rest, p - 1);
    }
}

/// A string of `n` digits spells a number below ten to the `n`.
pub proof fn lemma_decimal_value_bound(s: Seq<char>)
    requires
        all_digits(s),
    ensures
        decimal_value(s) < pow10(s.len()),
    decreases s.len(),
{
    if s.len() > 0 {
        let head = s.drop_last();
        assert forall|i: int| 0 <= i < head.len() implies is_digit(#[trigger] head[i]) by {
            assert(head[i] == s[i]);
        }
        lemma_decimal_value_bound(head);
        assert(is_digit(s.last()));
    }
}

/// Ten to the power `exponent`, for an exponent up to nineteen.
pub(crate) fn power_of_ten(exponent: usize) -> (power: u64)
    requires
        exponent <= 19,
    ensures
        power == pow10(exponent as nat),
{
    let mut power: u64 = 1;
    let mut i: usize = 0;
    while i < exponent
        invariant
            i <= exponent <= 19,
            power == pow10(i as nat),
        decreases exponent - i,
    {
        proof {
            lemma_pow10_monotonic((i + 1) as nat, 19);
            assert(pow10(19) == 10_000_000_000_000_000_000) by {
                reveal_with_fuel(pow10, 20);
            }
        }
        power = power * 10;
        i = i + 1;
    }
    power
}

/// A larger exponent gives a larger or equal power of ten.
pub proof fn lemma_pow10_monotonic(a: nat, b: nat)
    requires
        a <= b,
    ensures
        pow10(a) <= pow10(b),
        pow10(a) >= 1,
    decreases b,
{
    if a < b {
        lemma_pow10_monotonic(a, (b - 1) as nat);
    } else if a > 0 {
        lemma_pow10_monotonic((a - 1) as nat, (a - 1) as nat);
    }
}

/// Reads the run of digits that starts at place `from`: where it ends, and
/// the number it spells if that fits in 64 bits.
fn scan_digits(bytes: &[u8], from: usize) -> (r: (usize, Option<u64>))
    requires
        from <= bytes@.len(),
    ensures
        from <= r.0 <= bytes@.len(),
        all_digits(chars_of(bytes@).subrange(from as int, r.0 as int)),
        r.0 < bytes@.len() ==> !is_digit(chars_of(bytes@)[r.0 as int]),
        r.1 == (if decimal_value(chars_of(bytes@).subrange(from as int, r.0 as int)) <= u64::MAX {
            Some(decimal_value(chars_of(bytes@).subrange(from as int, r.0 as int)) as u64)
        } else {
            None::<u64>
        }),
{
    let ghost text = chars_of(bytes@);
    let n: usize = bytes.len();
    let mut acc: Option<u64> = Some(0);
    let mut i: usize = from;
    assert(text.subrange(from as int, from as int) =~= Seq::<char>::empty());
    while i < n && 48u8 <= bytes[i] && bytes[i] <= 57u8
        invariant
            from <= i <= n,
            n == bytes@.len(),
            text == chars_of(bytes@),
            all_digits(text.subrange(from as int, i as int)),
            acc == (if decimal_value(text.subrange(from as int, i as int)) <= u64::MAX {
                Some(decimal_value(text.subrange(from as int, i as int)) as u64)
            } else {
                None::<u64>
            }),
        decreases n - i,
    {
        let b: u8 = bytes[i];
        let d: u64 = (b - 48u8) as u64;
        let ghost seen = text.subrange(from as int, i as int);
        let ghost next = text.subrange(from as int, i + 1);
        proof {
            assert(text[i as int] == b as char);
            assert(is_digit(text[i as int]));
            assert(digit_value(text[i as int]) == d);
            assert(next.drop_last() =~= seen);
            assert(next.last() == text[i as int]);
            assert(decimal_value(next) == decimal_value(seen) * 10 + d);
            assert forall|k: int| 0 <= k < next.len() implies is_digit(#[trigger] next[k]) by {
                if k < seen.len() {
                    assert(next[k] == seen[k]);
                }
            }
        }
        acc = match acc {
            Some(value) => if value > (u64::MAX - d) / 10 {
                None
            } else {
                Some(value * 10 + d)
            },
            None => None,
        };
        i = i + 1;
    }
    proof {
        if i < n {
            assert(text[i as int] == bytes@[i as int] as char);
        }
    }
    (i, acc)
}

/// Reads a signed decimal amount, such as `0.1` or `-12.5`, as a whole number
/// of billionths.
pub fn parse_amount(s: &str) -> (r: Option<i64>)
    ensures
        r == spec_parse_amount(s@),
{
    let ghost body = without_sign(s@);
    if !s.is_ascii() {
        proof {
            let i = choose|i: int| 0 <= i < s@.len() && !('\0' <= #[trigger] s@[i] <= '\u{7f}');
            let c = s@[i];
            let j = if body.len() == s@.len() {
                i
            } else {
                i - 1
            };
            assert(body[j] == c);
            let point = first_point(body) as int;
            lemma_first_point_bounds(body);
            if j < point {
                assert(body.subrange(0, point)[j] == c);
            } else {
                assert(j > point);
                assert(body.subrange(point + 1, body.len() as int)[j - point - 1] == c);
            }
        }
        return None;
    }
    let bytes = s.as_bytes();
    proof {
        vstd::string::is_ascii_spec_bytes(s);
        assert(s@ =~= chars_of(bytes@)) by {
            assert forall|k: int| 0 <= k < s@.len() implies s@[k] == chars_of(bytes@)[k] by {
                assert('\0' <= s@[k] <= '\u{7f}');
                assert(bytes@[k] == s@[k] as u8);
            }
        }
    }
    let n: usize = bytes.len();
    let negative: bool = n > 0 && bytes[0] == 45u8;
    let start: usize = if n > 0 && (bytes[0] == 43u8 || bytes[0] == 45u8) {
        1
    } else {
        0
    };
    assert(body =~= s@.subrange(start as int, n as int));
    assert(negative == (s@.len() > 0 && s@[0] == '-'));
    let (point, whole) = scan_digits(bytes, start);
    let ghost whole_text = s@.subrange(start as int, point as int);
    proof {
        assert(whole_text =~= body.subrange(0, point - start));
        assert forall|i: int| 0 <= i < point - start implies body[i] != '.' by {
            assert(whole_text[i] == body[i]);
            assert(is_digit(whole_text[i]));
        }
    }
    if point == start {
        proof {
            // The whole part is empty, or it holds what is no digit.
            let q = first_point(body) as int;
            lemma_first_point_bounds(body);
            if q > 0 {
                assert(body.subrange(0, q)[0] == body[0]);
                assert(body[0] == s@[start as int]);
            }
        }
        return None;
    }
    if point < n && bytes[point] != 46u8 {
        proof {
            // A character that is neither digit nor point ends the digits.
            let q = first_point(body) as int;
            let j = point - start;
            lemma_first_point_bounds(body);
            assert(body[j] == s@[point as int]);
            assert(body[j] != '.');
            assert(!is_digit(body[j]));
            if q > j {
                assert(body.subrange(0, q)[j] == body[j]);
            } else {
                assert(q < j);
                assert(body[q] == '.');
                assert(false);
            }
        }
        return None;
    }
    proof {
        if point < n {
            assert(body[point - start] == s@[point as int]);
            assert(s@[point as int] == '.');
        }
        lemma_first_point(body, point - start);
    }
    let whole_value: u64 = match whole {
        Some(value) => value,
        None => {
            proof {
                // The whole part alone is beyond what 64 bits can say.
                lemma_pow10_monotonic(0, AMOUNT_DECIMALS as nat);
                let w = decimal_value(whole_text);
                let unit = pow10(AMOUNT_DECIMALS as nat);
                assert(w * unit >= w) by (nonlinear_arith)
                    requires
                        unit >= 1,
                        w >= 0,
                ;
            }
            return None;
        },
    };
    let unit: u64 = power_of_ten(AMOUNT_DECIMALS);
    proof {
        reveal_with_fuel(pow10, 10);
        assert(unit == 1_000_000_000);
        assert(whole_value * unit <= u64::MAX * 1_000_000_000) by (nonlinear_arith)
            requires
                whole_value <= u64::MAX,
                unit == 1_000_000_000,
        ;
    }
    let mut magnitude: u128 = (whole_value as u128) * (unit as u128);
    if point < n {
        let (end, fraction) = scan_digits(bytes, point + 1);
        let ghost fraction_text = body.subrange(point - start + 1, body.len() as int);
        let ghost seen = s@.subrange(point + 1, end as int);
        if end != n {
            proof {
                assert(fraction_text[end - point - 1] == s@[end as int]);
            }
            return None;
        }
        assert(fraction_text =~= seen);
        let digits: usize = end - (point + 1);
        if digits == 0 || digits > AMOUNT_DECIMALS {
            return None;
        }
        proof {
            lemma_decimal_value_bound(fraction_text);
            lemma_pow10_monotonic(digits as nat, AMOUNT_DECIMALS as nat);
        }
        let fraction_value: u64 = match fraction {
            Some(value) => value,
            None => {
                return None;
            },
        };
        let scale: u64 = power_of_ten(AMOUNT_DECIMALS - digits);
        proof {
            lemma_pow10_monotonic((AMOUNT_DECIMALS - digits) as nat, AMOUNT_DECIMALS as nat);
            assert(fraction_value * scale <= 1_000_000_000 * 1_000_000_000) by (nonlinear_arith)
                requires
                    fraction_value < 1_000_000_000,
                    scale <= 1_000_000_000,
            ;
        }
        magnitude = magnitude + (fraction_value as u128) * (scale as u128);
    }
    assert(spec_magnitude(body) == Some(magnitude as nat));
    if negative {
        if magnitude <= 0x8000_0000_0000_0000u128 {
            if magnitude == 0x8000_0000_0000_0000u128 {
                Some(i64::MIN)
            } else {
                Some(-(magnitude as i64))
            }
        } else {
            None
        }
    } else {
        if magnitude <= i64::MAX as u128 {
            Some(magnitude as i64)
        } else {
            None
        }
    }
}

/// The first point of a string lies within it, and no point comes before it.
pub proof fn lemma_first_point_bounds(s: Seq<char>)
    ensures
        first_point(s) <= s.len(),
        first_point(s) < s.len() ==> s[first_point(s) as int] == '.',
        forall|i: int| 0 <= i < first_point(s) ==> s[i] != '.',
    decreases s.len(),
{
    if s.len() > 0 && s[0] != '.' {
        let rest = s.drop_first();
        lemma_first_point_bounds(rest);
        assert forall|i: int| 0 <= i < first_point(s) implies s[i] != '.' by {
            if i > 0 {
                assert(rest[i - 1] == s[i]);
            }
        }
    }
}

} // verus!
