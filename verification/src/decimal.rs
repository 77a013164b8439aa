//! Decimal numbers with an exact number of fraction digits.
use crate::text;
use rust_decimal::prelude::ToPrimitive;
use vstd::arithmetic::div_mod::*;
use vstd::prelude::*;

verus! {

/// The largest mantissa, of 96 bits.
pub const MAX_MANTISSA: i128 = 79_228_162_514_264_337_593_543_950_335;

/// The largest number of fraction digits.
pub const MAX_SCALE: u32 = 28;

/// Whether a mantissa and a number of fraction digits are within the limits.
pub open spec fn representable(mantissa: int, scale: int) -> bool {
    -MAX_MANTISSA <= mantissa <= MAX_MANTISSA && 0 <= scale <= MAX_SCALE
}

/// Ten to the power `n`.
pub open spec fn pow10(n: nat) -> nat
    decreases n,
{
    if n == 0 {
        1
    } else {
        10 * pow10((n - 1) as nat)
    }
}

pub proof fn lemma_pow10_positive(n: nat)
    ensures
        pow10(n) > 0,
    decreases n,
{
    if n > 0 {
        lemma_pow10_positive((n - 1) as nat);
    }
}

/// The quotient without its fraction.
pub open spec fn truncated(n: int, d: nat) -> int {
    if n >= 0 {
        n / d as int
    } else {
        -((-n) / d as int)
    }
}

/// The nearest integer to `n / d`; of two that are equally near, the even one.
pub open spec fn half_even(n: int, d: nat) -> int {
    let q = n / d as int;
    let r = n % d as int;
    if 2 * r < d || (2 * r == d && q % 2 == 0) {
        q
    } else {
        q + 1
    }
}

/// The number with the given mantissa and number of fraction digits, where it is an integer and an
/// `i64`.
pub open spec fn whole(d: (i128, u32)) -> Option<i64> {
    let unit = pow10(d.1 as nat) as int;
    let n = d.0 as int / unit;
    if d.0 as int % unit == 0 && i64::MIN <= n <= i64::MAX {
        Some(n as i64)
    } else {
        None
    }
}

/// A number is the integer `n` exactly where `n`, with the fraction digits, is its mantissa.
pub proof fn whole_is_the_number(d: (i128, u32), n: i64)
    ensures
        whole(d) == Some(n) <==> n * pow10(d.1 as nat) == d.0,
{
    lemma_pow10_positive(d.1 as nat);
    let unit = pow10(d.1 as nat) as int;
    let m = d.0 as int;
    lemma_fundamental_div_mod(m, unit);
    if whole(d) == Some(n) {
        assert(n * unit == unit * (m / unit)) by (nonlinear_arith)
            requires
                n == m / unit,
        ;
    }
    if n * unit == m {
        assert(m == unit * n + 0) by (nonlinear_arith)
            requires
                n * unit == m,
        ;
        lemma_fundamental_div_mod_converse(m, unit, n as int, 0);
    }
}

/// The last `width` digits of `n`, with leading zeros.
pub open spec fn padded(n: nat, width: nat) -> Seq<char>
    decreases width,
{
    if width == 0 {
        Seq::empty()
    } else {
        padded(n / 10, (width - 1) as nat).push(text::digit(n % 10))
    }
}

/// The text of `mantissa` with a point before its last `scale` digits.
pub open spec fn fixed_point(mantissa: int, scale: nat) -> Seq<char> {
    let magnitude = (if mantissa < 0 {
        -mantissa
    } else {
        mantissa
    }) as nat;
    let sign = if mantissa < 0 {
        seq!['-']
    } else {
        Seq::empty()
    };
    let fraction = if scale == 0 {
        Seq::empty()
    } else {
        seq!['.'] + padded(magnitude % pow10(scale), scale)
    };
    sign + text::digits(magnitude / pow10(scale)) + fraction
}

/// What a number in plain form denotes: an optional minus sign, digits, and an optional point with
/// digits behind it, within the limits.
pub open spec fn plain_decimal(s: Seq<char>) -> Option<(i128, u32)> {
    let negative = s.len() > 0 && s[0] == '-';
    let body = if negative {
        s.skip(1)
    } else {
        s
    };
    let (whole, fraction) = match text::split_once(body, '.') {
        Some((w, f)) => (w, f),
        None => (body, Seq::empty()),
    };
    let value = text::digits_value(whole + fraction);
    let pointed = text::split_once(body, '.') is Some;
    if text::all_digits(whole) && (pointed ==> text::all_digits(fraction)) && fraction.len() <= MAX_SCALE && value <= MAX_MANTISSA {
        Some(
            (
                if negative {
                    (-(value as int)) as i128
                } else {
                    value as i128
                },
                fraction.len() as u32,
            ),
        )
    } else {
        None
    }
}

/// Whether a text is made of what a decimal number is made of: digits, one at least, one point at
/// most, separators, and a sign in front.
pub open spec fn has_decimal_shape(s: Seq<char>) -> bool {
    &&& exists|i: int| 0 <= i < s.len() && text::is_digit(#[trigger] s[i])
    &&& forall|i: int|
        0 <= i < s.len() ==> text::is_digit(#[trigger] s[i]) || s[i] == '.' || s[i] == '_' || (i == 0 && (s[i] == '-'
            || s[i] == '+'))
    &&& forall|i: int, j: int| 0 <= i < j < s.len() ==> !(#[trigger] s[i] == '.' && #[trigger] s[j] == '.')
}

/// The mantissa and the number of fraction digits that a text denotes without loss.
pub uninterp spec fn parsed_decimal(s: Seq<char>) -> Option<(i128, u32)>;

/// The product of a decimal number and an integer, as a mantissa and a number of fraction digits.
pub uninterp spec fn decimal_product(mantissa: i128, scale: u32, factor: i64) -> Option<(i128, u32)>;

/// The quotient of two integers, as a mantissa and a number of fraction digits.
pub uninterp spec fn decimal_quotient(dividend: i64, divisor: i64) -> (i128, u32);

/// `rust_decimal::Decimal::from_str_exact`: the number that the text denotes, where it can be held
/// without loss. It depends on the text alone. A number in plain form keeps all its fraction
/// digits, and a text of another shape than a number's denotes none.
#[verifier::external_body]
fn exact_decimal(s: &str) -> (r: Option<(i128, u32)>)
    ensures
        r == parsed_decimal(s@),
        plain_decimal(s@) is Some ==> r == plain_decimal(s@),
        !has_decimal_shape(s@) ==> r is None,
        r matches Some((m, n)) ==> representable(m as int, n as int),
{
    rust_decimal::Decimal::from_str_exact(s).ok().map(|d| (d.mantissa(), d.scale()))
}

/// `rust_decimal::Decimal::checked_mul` with an integer. A product whose mantissa fits is exact and
/// keeps the fraction digits; zero has none. Where the mantissa does not fit, an integer has no
/// product, and what becomes of a number with fraction digits is left open.
#[verifier::external_body]
fn checked_product(mantissa: i128, scale: u32, factor: i64) -> (r: Option<(i128, u32)>)
    requires
        representable(mantissa as int, scale as int),
    ensures
        r == decimal_product(mantissa, scale, factor),
        mantissa * factor == 0 ==> r == Some((0i128, 0u32)),
        mantissa * factor != 0 && representable(mantissa * factor, scale as int) ==> r == Some(
            ((mantissa * factor) as i128, scale),
        ),
        scale == 0 && !representable(mantissa * factor, 0) ==> r is None,
        r matches Some((m, n)) ==> representable(m as int, n as int),
{
    rust_decimal::Decimal::from_i128_with_scale(mantissa, scale).checked_mul(
        rust_decimal::Decimal::from(factor),
    ).map(|d| (d.mantissa(), d.scale()))
}

/// Division of two integers as `rust_decimal::Decimal`s. It depends on the two alone. A quotient by
/// one is the dividend itself; a quotient by one hundred is exact and has at most two fraction
/// digits, of which a last zero may or may not be kept.
#[verifier::external_body]
fn quotient(dividend: i64, divisor: i64) -> (r: (i128, u32))
    requires
        divisor > 0,
    ensures
        r == decimal_quotient(dividend, divisor),
        representable(r.0 as int, r.1 as int),
        divisor == 1 ==> r == (dividend as i128, 0u32),
        divisor == 100 ==> r.1 <= 2 && r.0 * 100 == dividend * pow10(r.1 as nat),
{
    let d = rust_decimal::Decimal::from(dividend) / rust_decimal::Decimal::from(divisor);
    (d.mantissa(), d.scale())
}

/// `rust_decimal::Decimal::round`: the nearest integer, half to even.
#[verifier::external_body]
fn round(mantissa: i128, scale: u32) -> (r: i128)
    requires
        representable(mantissa as int, scale as int),
    ensures
        r == half_even(mantissa as int, pow10(scale as nat)),
        representable(r as int, 0),
{
    rust_decimal::Decimal::from_i128_with_scale(mantissa, scale).round().mantissa()
}

/// `to_i64` of `rust_decimal::Decimal`: the number without its fraction, where it is an `i64`.
#[verifier::external_body]
fn to_i64(mantissa: i128, scale: u32) -> (r: Option<i64>)
    requires
        representable(mantissa as int, scale as int),
    ensures
        match r {
            Some(n) => n == truncated(mantissa as int, pow10(scale as nat)),
            None => {
                let n = truncated(mantissa as int, pow10(scale as nat));
                r is None && (n < i64::MIN || n > i64::MAX)
            },
        },
{
    rust_decimal::Decimal::from_i128_with_scale(mantissa, scale).to_i64()
}

/// `rust_decimal::Decimal::fract` and `is_zero`: whether the number is an integer.
#[verifier::external_body]
fn is_whole(mantissa: i128, scale: u32) -> (r: bool)
    requires
        representable(mantissa as int, scale as int),
    ensures
        r == (mantissa as int % pow10(scale as nat) as int == 0),
{
    rust_decimal::Decimal::from_i128_with_scale(mantissa, scale).fract().is_zero()
}

/// The text that `rust_decimal::Decimal` is shown as: all its fraction digits, and no other.
#[verifier::external_body]
fn decimal_text(mantissa: i128, scale: u32) -> (r: String)
    requires
        representable(mantissa as int, scale as int),
    ensures
        r@ == fixed_point(mantissa as int, scale as nat),
{
    rust_decimal::Decimal::from_i128_with_scale(mantissa, scale).to_string()
}

/// The text that `rust_decimal::Decimal` is shown as with a given number of fraction digits, no
/// fewer than it has: zeros fill up what is missing.
#[verifier::external_body]
fn decimal_text_to(mantissa: i128, scale: u32, places: u32) -> (r: String)
    requires
        scale <= places,
        representable(mantissa * pow10((places - scale) as nat), places as int),
    ensures
        r@ == fixed_point(mantissa * pow10((places - scale) as nat), places as nat),
{
    format!("{:.prec$}", rust_decimal::Decimal::from_i128_with_scale(mantissa, scale), prec = places as usize)
}

/// A decimal number: a mantissa and the number of its fraction digits.
#[derive(Debug, Clone, Copy)]
pub struct Decimal {
    mantissa: i128,
    scale: u32,
}

impl View for Decimal {
    type V = (i128, u32);

    closed spec fn view(&self) -> (i128, u32) {
        (self.mantissa, self.scale)
    }
}

impl Decimal {
    #[verifier::type_invariant]
    spec fn well_formed(self) -> bool {
        representable(self.mantissa as int, self.scale as int)
    }

    /// The number with the given mantissa and number of fraction digits, within the limits.
    pub fn new(mantissa: i128, scale: u32) -> (r: Option<Self>)
        ensures
            match r {
                Some(d) => representable(mantissa as int, scale as int) && d@ == (mantissa, scale),
                None => !representable(mantissa as int, scale as int),
            },
    {
        if mantissa < -MAX_MANTISSA || mantissa > MAX_MANTISSA || scale > MAX_SCALE {
            None
        } else {
            Some(Decimal { mantissa, scale })
        }
    }

    /// The quotient of two integers.
    pub fn of_quotient(dividend: i64, divisor: i64) -> (r: Self)
        requires
            divisor > 0,
        ensures
            r@ == decimal_quotient(dividend, divisor),
            divisor == 1 ==> r@ == (dividend as i128, 0u32),
            divisor == 100 ==> r@.1 <= 2 && r@.0 * 100 == dividend * pow10(r@.1 as nat),
    {
        let (mantissa, scale) = quotient(dividend, divisor);
        Decimal { mantissa, scale }
    }

    /// The number that `s` denotes, where it can be held without loss.
    pub fn from_str_exact(s: &str) -> (r: Option<Self>)
        ensures
            match r {
                Some(d) => parsed_decimal(s@) == Some(d@),
                None => parsed_decimal(s@) is None,
            },
            plain_decimal(s@) matches Some(v) ==> r matches Some(d) && d@ == v,
            !has_decimal_shape(s@) ==> r is None,
    {
        match exact_decimal(s) {
            Some((mantissa, scale)) => Some(Decimal { mantissa, scale }),
            None => None,
        }
    }

    /// The mantissa.
    pub fn mantissa(&self) -> (r: i128)
        ensures
            r == self@.0,
            representable(r as int, 0),
    {
        proof {
            use_type_invariant(self);
        }
        self.mantissa
    }

    /// The number of fraction digits.
    pub fn scale(&self) -> (r: u32)
        ensures
            r == self@.1,
            r <= MAX_SCALE,
    {
        proof {
            use_type_invariant(self);
        }
        self.scale
    }

    /// The product with an integer, where it can be held.
    pub fn checked_mul(&self, factor: i64) -> (r: Option<Self>)
        ensures
            match r {
                Some(d) => decimal_product(self@.0, self@.1, factor) == Some(d@),
                None => decimal_product(self@.0, self@.1, factor) is None,
            },
            self@.0 * factor == 0 ==> (r matches Some(d) && d@ == (0i128, 0u32)),
            self@.0 * factor != 0 && representable(self@.0 * factor, self@.1 as int) ==> (r matches Some(d)
                && d@ == ((self@.0 * factor) as i128, self@.1)),
            self@.1 == 0 && !representable(self@.0 * factor, 0) ==> r is None,
    {
        proof {
            use_type_invariant(self);
        }
        match checked_product(self.mantissa, self.scale, factor) {
            Some((mantissa, scale)) => Some(Decimal { mantissa, scale }),
            None => None,
        }
    }

    /// The nearest integer, half to even, where it is an `i64`.
    pub fn round_to_i64(&self) -> (r: Option<i64>)
        ensures
            match r {
                Some(n) => n == half_even(self@.0 as int, pow10(self@.1 as nat)),
                None => {
                    let n = half_even(self@.0 as int, pow10(self@.1 as nat));
                    n < i64::MIN || n > i64::MAX
                },
            },
    {
        proof {
            use_type_invariant(self);
            assert(pow10(0) == 1);
        }
        let whole: i128 = round(self.mantissa, self.scale);
        to_i64(whole, 0)
    }

    /// The number itself, where it is an integer and an `i64`.
    pub fn exact_i64(&self) -> (r: Option<i64>)
        ensures
            r == whole(self@),
    {
        proof {
            use_type_invariant(self);
            lemma_pow10_positive(self.scale as nat);
        }
        if !is_whole(self.mantissa, self.scale) {
            return None;
        }
        proof {
            lemma_whole_truncated(self.mantissa as int, pow10(self.scale as nat));
        }
        to_i64(self.mantissa, self.scale)
    }

    /// The text of the number, with all its fraction digits.
    pub fn to_string(&self) -> (r: String)
        ensures
            r@ == fixed_point(self@.0 as int, self@.1 as nat),
    {
        proof {
            use_type_invariant(self);
        }
        decimal_text(self.mantissa, self.scale)
    }

    /// The text of the number with the given number of fraction digits, no fewer than it has.
    pub fn to_string_with(&self, places: u32) -> (r: String)
        requires
            self@.1 <= places,
            representable(self@.0 * pow10((places - self@.1) as nat), places as int),
        ensures
            r@ == fixed_point(self@.0 * pow10((places - self@.1) as nat), places as nat),
    {
        decimal_text_to(self.mantissa, self.scale, places)
    }
}

proof fn lemma_whole_truncated(m: int, d: nat)
    requires
        d > 0,
        m % d as int == 0,
    ensures
        truncated(m, d) == m / d as int,
{
    let q = m / d as int;
    lemma_fundamental_div_mod(m, d as int);
    if m < 0 {
        assert(-m == d * (-q)) by (nonlinear_arith)
            requires
                m == d * q,
        ;
        lemma_fundamental_div_mod_converse(-m, d as int, -q, 0);
    }
}

proof fn lemma_padded(n: nat, width: nat)
    ensures
        padded(n, width).len() == width,
        forall|i: int| 0 <= i < width ==> text::is_digit(#[trigger] padded(n, width)[i]),
        text::digits_value(padded(n, width)) == n % pow10(width),
    decreases width,
{
    if width > 0 {
        let w = (width - 1) as nat;
        lemma_padded(n / 10, w);
        lemma_pow10_positive(w);
        let p = padded(n, width);
        assert(p.drop_last() =~= padded(n / 10, w));
        assert forall|i: int| 0 <= i < width implies text::is_digit(#[trigger] p[i]) by {
            if i < w {
                assert(p[i] == padded(n / 10, w)[i]);
            }
        }
        let q = pow10(w) as int;
        assert(n as int % (10 * q) == 10 * ((n as int / 10) % q) + n as int % 10) by {
            lemma_mod_breakdown(n as int, 10, q);
        }
    } else {
        assert(n % 1 == 0);
    }
}

proof fn lemma_digits_value_concat(a: Seq<char>, b: Seq<char>)
    ensures
        text::digits_value(a + b) == text::digits_value(a) * pow10(b.len()) + text::digits_value(b),
    decreases b.len(),
{
    let va = text::digits_value(a) as int;
    if b.len() == 0 {
        assert(a + b =~= a);
        assert(pow10(0) == 1);
        assert(va * 1 == va);
    } else {
        let c = b.drop_last();
        lemma_digits_value_concat(a, c);
        assert((a + b).drop_last() =~= a + c);
        assert((a + b).last() == b.last());
        let p = pow10(c.len()) as int;
        let vc = text::digits_value(c) as int;
        assert(pow10(b.len()) == 10 * p);
        assert(va * (10 * p) == 10 * (va * p)) by (nonlinear_arith);
        assert(text::digits_value(a + c) == va * p + vc);
    }
}

proof fn lemma_split_number(whole: Seq<char>, fraction: Seq<char>)
    requires
        text::all_digits(whole),
        text::all_digits(fraction),
    ensures
        text::split_once(whole + (seq!['.'] + fraction), '.') == Some((whole, fraction)),
{
    let body = whole + (seq!['.'] + fraction);
    assert forall|i: int| 0 <= i < whole.len() implies body[i] != '.' by {
        assert(body[i] == whole[i]);
        assert(text::is_digit(whole[i]));
    }
    text::lemma_find(body, '.', whole.len());
    assert(body.take(whole.len() as int) =~= whole);
    assert(body.skip(whole.len() as int + 1) =~= fraction);
}

proof fn lemma_split_whole(whole: Seq<char>)
    requires
        text::all_digits(whole),
    ensures
        text::split_once(whole, '.') is None,
{
    assert forall|i: int| 0 <= i < whole.len() implies whole[i] != '.' by {
        assert(text::is_digit(whole[i]));
    }
    text::lemma_find(whole, '.', whole.len());
}

proof fn lemma_magnitude(magnitude: nat, scale: nat)
    ensures
        ({
            let whole = text::digits(magnitude / pow10(scale));
            let fraction = padded(magnitude % pow10(scale), scale);
            &&& text::all_digits(whole)
            &&& fraction.len() == scale
            &&& scale > 0 ==> text::all_digits(fraction)
            &&& text::digits_value(whole + fraction) == magnitude
        }),
{
    let d = pow10(scale);
    lemma_pow10_positive(scale);
    let whole = text::digits(magnitude / d);
    let fraction = padded(magnitude % d, scale);
    text::digits_denote(magnitude / d);
    lemma_padded(magnitude % d, scale);
    lemma_digits_value_concat(whole, fraction);
    lemma_mod_twice(magnitude as int, d as int);
    lemma_fundamental_div_mod(magnitude as int, d as int);
    assert(d * (magnitude / d) == (magnitude / d) * d) by (nonlinear_arith);
}

/// A number is written in plain form, without white space around it, and reads back as itself.
pub proof fn fixed_point_is_plain(mantissa: int, scale: nat)
    requires
        representable(mantissa, scale as int),
    ensures
        plain_decimal(fixed_point(mantissa, scale)) == Some((mantissa as i128, scale as u32)),
        text::trim(fixed_point(mantissa, scale)) == fixed_point(mantissa, scale),
{
    let s = fixed_point(mantissa, scale);
    let magnitude = (if mantissa < 0 {
        -mantissa
    } else {
        mantissa
    }) as nat;
    let whole = text::digits(magnitude / pow10(scale));
    let fraction = padded(magnitude % pow10(scale), scale);
    lemma_magnitude(magnitude, scale);
    let body = if scale == 0 {
        whole
    } else {
        whole + (seq!['.'] + fraction)
    };
    assert(body[0] == whole[0]);
    assert(text::is_digit(whole[0]));
    if mantissa < 0 {
        assert(s =~= seq!['-'] + body);
        assert(s.skip(1) =~= body);
    } else {
        assert(s =~= body);
    }
    assert(s.last() == body.last());
    if scale == 0 {
        lemma_split_whole(whole);
        assert(fraction =~= Seq::<char>::empty());
        assert(text::is_digit(whole[whole.len() - 1]));
    } else {
        lemma_split_number(whole, fraction);
        assert(body.last() == fraction[scale - 1]);
        assert(text::is_digit(fraction[scale - 1]));
    }
    assert(!text::whitespace(s[0]));
    assert(!text::whitespace(s.last()));
    assert(text::trim_start(s) == s);
    assert(text::trim_end(s) == s);
}

/// Rounding gives the nearest integer, and of two that are equally near, the even one.
pub proof fn rounding_is_to_the_nearest(n: int, d: nat)
    requires
        d > 0,
    ensures
        -(d as int) <= 2 * (n - half_even(n, d) * d) <= d,
        2 * (n - half_even(n, d) * d) == d || 2 * (n - half_even(n, d) * d) == -(d as int) ==> half_even(n, d) % 2 == 0,
{
    let q = n / d as int;
    lemma_fundamental_div_mod(n, d as int);
    assert((q + 1) * d == d * q + d && q * d == d * q) by (nonlinear_arith);
}

/// What is no fraction at all needs no rounding.
pub proof fn integers_are_not_rounded(n: int, d: nat)
    requires
        d > 0,
    ensures
        half_even(n * d, d) == n,
{
    lemma_fundamental_div_mod_converse(n * d, d as int, n, 0);
    assert(n * d == d * n + 0) by (nonlinear_arith);
}

/// A number in fixed point has as many characters behind its point as it has fraction digits, and a
/// minus sign in front exactly where it is negative.
pub proof fn fixed_point_has_its_digits(mantissa: int, scale: nat)
    ensures
        ({
            let s = fixed_point(mantissa, scale);
            &&& s.len() > scale
            &&& s[0] == '-' <==> mantissa < 0
            &&& scale > 0 ==> s[s.len() - scale - 1] == '.'
            &&& forall|i: int| s.len() - scale <= i < s.len() ==> text::is_digit(#[trigger] s[i])
        }),
{
    let magnitude = (if mantissa < 0 {
        -mantissa
    } else {
        mantissa
    }) as nat;
    lemma_magnitude(magnitude, scale);
    let whole = text::digits(magnitude / pow10(scale));
    let fraction = padded(magnitude % pow10(scale), scale);
    let s = fixed_point(mantissa, scale);
    assert(text::is_digit(whole[0]));
    let front: int = if mantissa < 0 {
        1
    } else {
        0
    };
    assert(s[front] == whole[0]);
    if scale > 0 {
        let at = front + whole.len() as int;
        assert(s[at] == '.');
        assert forall|i: int| s.len() - scale <= i < s.len() implies text::is_digit(#[trigger] s[i]) by {
            assert(s[i] == fraction[i - at - 1]);
            assert(text::is_digit(fraction[i - at - 1]));
        }
    }
}

/// A decimal number has a mantissa of at most 96 bits, of either sign, and at most 28 fraction digits.
pub proof fn numbers_have_their_limits(mantissa: int, scale: int)
    ensures
        representable(mantissa, scale) <==> -79_228_162_514_264_337_593_543_950_335 <= mantissa
            <= 79_228_162_514_264_337_593_543_950_335 && 0 <= scale <= 28,
{
}

} // verus!
