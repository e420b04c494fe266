//! The decimal numbers the loan arithmetic works on.
//!
//! A [`Dec`] holds a sign, a 96-bit magnitude and a count of fractional
//! digits, the same value space as `rust_decimal::Decimal`. What has a short
//! exact statement is computed and proved here: building a number, testing
//! it for zero, changing its sign, rounding it for display. Division,
//! multiplication, addition, subtraction and powers round in ways that take
//! pages to state; they are done by `rust_decimal`, and so are reading a
//! number from text and writing it.
//!
//! Each call into `rust_decimal` stands in a function of its own at the end
//! of this file. Such a function rebuilds its operands with `from_parts` and
//! `set_sign_negative`, which together keep every field, makes the one
//! call, and takes the result apart with `unpack`. Its contract is believed,
//! not proved. Where the result is not spelled out it is given a name (see
//! [`quotient`] and what follows it), which claims no more than that equal
//! operands give equal results. All of them rely on two things that the
//! contracts do not show: the call does not panic, and the number that
//! comes back has a scale of at most [`MAX_SCALE`].

use vstd::prelude::*;

verus! {

/// The largest number of fractional digits a decimal can carry.
pub const MAX_SCALE: u32 = 28;

/// The largest magnitude a decimal can carry: `2^96 - 1`.
pub const MAX_MAGNITUDE: u128 = 0xffff_ffff_ffff_ffff_ffff_ffff;

/// What a decimal denotes: `magnitude / 10^scale`, negated when `negative`.
///
/// The sign is kept apart from the magnitude because a zero may carry
/// either sign.
pub struct DecimalModel {
    pub negative: bool,
    pub magnitude: nat,
    pub scale: nat,
}

/// A decimal number: a 96-bit magnitude in three 32-bit words, a sign and a
/// scale of at most [`MAX_SCALE`].
///
/// `==` compares sign, magnitude and scale: `1.0` and `1.00` are different
/// values, and so are the two zeros of one scale.
#[derive(Clone, Copy, Debug, PartialEq, Eq, Structural)]
pub struct Dec {
    lo: u32,
    mid: u32,
    hi: u32,
    negative: bool,
    scale: u32,
}

/// The model of the integer `n`.
pub open spec fn integer_model(n: nat) -> DecimalModel {
    DecimalModel { negative: false, magnitude: n, scale: 0 }
}

/// The model of an optional decimal.
pub open spec fn model_of(d: Option<Dec>) -> Option<DecimalModel> {
    match d {
        Some(v) => Some(v@),
        None => None,
    }
}

/// The quotient `rust_decimal` gives for two nonzero operands, `None` where
/// it does not fit the decimal range.
pub uninterp spec fn quotient(a: DecimalModel, b: DecimalModel) -> Option<DecimalModel>;

/// The product `rust_decimal` gives for two nonzero operands, `None` where
/// it does not fit the decimal range.
pub uninterp spec fn product(a: DecimalModel, b: DecimalModel) -> Option<DecimalModel>;

/// The sum `rust_decimal` gives, `None` where it does not fit the decimal
/// range.
pub uninterp spec fn sum(a: DecimalModel, b: DecimalModel) -> Option<DecimalModel>;

/// The difference `rust_decimal` gives, `None` where it does not fit the
/// decimal range.
pub uninterp spec fn difference(a: DecimalModel, b: DecimalModel) -> Option<DecimalModel>;

/// The power `rust_decimal` gives for a whole exponent, `None` where it does
/// not fit the decimal range.
pub uninterp spec fn power(base: DecimalModel, exponent: DecimalModel) -> Option<DecimalModel>;

/// The decimal `rust_decimal` reads from a text, `None` where it reads none.
pub uninterp spec fn parsed(text: Seq<char>) -> Option<DecimalModel>;

/// The text `rust_decimal` writes for a decimal.
pub uninterp spec fn rendered(a: DecimalModel) -> Seq<char>;

/// Division: undefined by zero, the plain zero for a zero dividend, and
/// otherwise the rounded [`quotient`].
pub open spec fn div_model(a: DecimalModel, b: DecimalModel) -> Option<DecimalModel> {
    if b.magnitude == 0 {
        None
    } else if a.magnitude == 0 {
        Some(integer_model(0))
    } else {
        quotient(a, b)
    }
}

/// Multiplication: the plain zero where either factor is zero, and
/// otherwise the rounded [`product`].
pub open spec fn mul_model(a: DecimalModel, b: DecimalModel) -> Option<DecimalModel> {
    if a.magnitude == 0 || b.magnitude == 0 {
        Some(integer_model(0))
    } else {
        product(a, b)
    }
}

/// The same magnitude and scale with the opposite sign.
pub open spec fn neg_model(a: DecimalModel) -> DecimalModel {
    DecimalModel { negative: !a.negative, magnitude: a.magnitude, scale: a.scale }
}

/// `10^n`.
pub open spec fn pow10(n: nat) -> nat
    decreases n,
{
    if n == 0 {
        1
    } else {
        10 * pow10((n - 1) as nat)
    }
}

/// Rounding to at most `dp` fractional digits, ties to the even neighbour.
///
/// A number that already has no more than `dp` digits is left as it is.
/// Otherwise the result has exactly `dp` digits; it keeps the sign, except
/// that a nonzero number rounded to zero becomes positive.
pub open spec fn round_model(a: DecimalModel, dp: nat) -> DecimalModel {
    if a.scale <= dp {
        a
    } else if a.magnitude == 0 {
        DecimalModel { negative: a.negative, magnitude: 0, scale: dp }
    } else {
        let unit = pow10((a.scale - dp) as nat);
        let kept = a.magnitude / unit;
        let dropped = a.magnitude % unit;
        let up = 2 * dropped > unit || (2 * dropped == unit && kept % 2 == 1);
        let rounded = if up { kept + 1 } else { kept };
        DecimalModel { negative: a.negative && rounded != 0, magnitude: rounded, scale: dp }
    }
}

impl View for Dec {
    type V = DecimalModel;

    closed spec fn view(&self) -> DecimalModel {
        DecimalModel {
            negative: self.negative,
            magnitude: (self.lo + self.mid * 0x1_0000_0000 + self.hi * 0x1_0000_0000_0000_0000) as nat,
            scale: self.scale as nat,
        }
    }
}

impl Dec {
    #[verifier::type_invariant]
    spec fn scale_in_range(self) -> bool {
        self.scale <= MAX_SCALE
    }

    /// The decimal `num / 10^scale`, as `rust_decimal::Decimal::new` builds
    /// it.
    pub fn new(num: i64, scale: u32) -> (d: Dec)
        requires
            scale <= MAX_SCALE,
        ensures
            d@ == (DecimalModel {
                negative: num < 0,
                magnitude: (if num < 0 { -num } else { num as int }) as nat,
                scale: scale as nat,
            }),
    {
        let size: u128 = if num < 0 { (-(num as i128)) as u128 } else { num as u128 };
        Dec::assemble(size, num < 0, scale)
    }

    /// The decimal with the given sign, magnitude and scale, or `None` where
    /// the magnitude takes more than 96 bits or the scale is over
    /// [`MAX_SCALE`].
    pub fn from_magnitude(magnitude: u128, negative: bool, scale: u32) -> (d: Option<Dec>)
        ensures
            d is Some <==> magnitude <= MAX_MAGNITUDE && scale <= MAX_SCALE,
            d matches Some(v) ==> v@ == (DecimalModel {
                negative,
                magnitude: magnitude as nat,
                scale: scale as nat,
            }),
    {
        if magnitude <= MAX_MAGNITUDE && scale <= MAX_SCALE {
            Some(Dec::assemble(magnitude, negative, scale))
        } else {
            None
        }
    }

    fn assemble(magnitude: u128, negative: bool, scale: u32) -> (d: Dec)
        requires
            magnitude <= MAX_MAGNITUDE,
            scale <= MAX_SCALE,
        ensures
            d@ == (DecimalModel { negative, magnitude: magnitude as nat, scale: scale as nat }),
    {
        let low: u128 = magnitude & 0xffff_ffff;
        let middle: u128 = (magnitude >> 32) & 0xffff_ffff;
        let high: u128 = magnitude >> 64;
        assert(low <= 0xffff_ffff && middle <= 0xffff_ffff && high <= 0xffff_ffff
            && low + middle * 0x1_0000_0000 + high * 0x1_0000_0000_0000_0000 == magnitude)
            by (bit_vector)
            requires
                magnitude <= 0xffff_ffff_ffff_ffff_ffff_ffff,
                low == magnitude & 0xffff_ffff,
                middle == (magnitude >> 32) & 0xffff_ffff,
                high == magnitude >> 64,
        ;
        Dec { lo: low as u32, mid: middle as u32, hi: high as u32, negative, scale }
    }

    /// The magnitude: the number without its sign and its decimal point.
    pub fn magnitude(&self) -> (m: u128)
        ensures
            m == self@.magnitude,
            m <= MAX_MAGNITUDE,
    {
        let lo = self.lo;
        let mid = self.mid;
        let hi = self.hi;
        let m: u128 = ((hi as u128) << 64) | ((mid as u128) << 32) | (lo as u128);
        assert(m == lo + mid * 0x1_0000_0000 + hi * 0x1_0000_0000_0000_0000
            && m <= 0xffff_ffff_ffff_ffff_ffff_ffff) by (bit_vector)
            requires
                m == ((hi as u128) << 64) | ((mid as u128) << 32) | (lo as u128),
        ;
        m
    }

    /// Whether the sign is negative; true of a negative zero too.
    pub fn is_sign_negative(&self) -> (negative: bool)
        ensures
            negative == self@.negative,
    {
        self.negative
    }

    /// The number of fractional digits.
    pub fn scale(&self) -> (scale: u32)
        ensures
            scale == self@.scale,
            scale <= MAX_SCALE,
    {
        proof {
            use_type_invariant(self);
        }
        self.scale
    }

    /// The number rounded to at most `dp` fractional digits, ties to the
    /// even neighbour, as `rust_decimal::Decimal::round_dp` rounds.
    pub fn round_dp(self, dp: u32) -> (r: Dec)
        ensures
            r@ == round_model(self@, dp as nat),
    {
        proof {
            use_type_invariant(&self);
        }
        if self.scale <= dp {
            return self;
        }
        if self.is_zero() {
            return Dec { lo: 0, mid: 0, hi: 0, negative: self.negative, scale: dp };
        }
        let unit = power_of_ten(self.scale - dp);
        proof {
            lemma_pow10_grows(1, (self.scale - dp) as nat);
            assert(pow10(1) == 10) by {
                reveal_with_fuel(pow10, 2);
            }
        }
        let magnitude = self.magnitude();
        let kept = magnitude / unit;
        let dropped = magnitude % unit;
        let rest = unit - dropped;
        let up = dropped > rest || (dropped == rest && kept % 2 == 1);
        let rounded = if up { kept + 1 } else { kept };
        proof {
            assert(kept <= magnitude / 10) by (nonlinear_arith)
                requires
                    kept == magnitude / unit,
                    unit >= 10,
            ;
        }
        Dec::assemble(rounded, self.negative && rounded != 0, dp)
    }

    /// Whether the number is zero, of either sign and any scale.
    pub fn is_zero(&self) -> (zero: bool)
        ensures
            zero == (self@.magnitude == 0),
    {
        self.lo == 0 && self.mid == 0 && self.hi == 0
    }

    /// The number with its sign flipped; a zero changes sign too.
    pub fn neg(self) -> (d: Dec)
        ensures
            d@ == neg_model(self@),
    {
        proof {
            use_type_invariant(&self);
        }
        Dec { lo: self.lo, mid: self.mid, hi: self.hi, negative: !self.negative, scale: self.scale }
    }

    /// The decimal for an unsigned integer, with no fractional digits.
    pub fn from_u64(n: u64) -> (d: Dec)
        ensures
            d@ == integer_model(n as nat),
    {
        let low: u64 = n & 0xffff_ffff;
        let high: u64 = n >> 32;
        assert(low <= 0xffff_ffff && high <= 0xffff_ffff && low + high * 0x1_0000_0000 == n)
            by (bit_vector)
            requires
                low == n & 0xffff_ffff,
                high == n >> 32,
        ;
        Dec { lo: low as u32, mid: high as u32, hi: 0, negative: false, scale: 0 }
    }
}

/// Powers of ten grow with the exponent.
proof fn lemma_pow10_grows(low: nat, high: nat)
    requires
        low <= high,
    ensures
        0 < pow10(low) <= pow10(high),
    decreases high,
{
    if low < high {
        lemma_pow10_grows(low, (high - 1) as nat);
    } else if low > 0 {
        lemma_pow10_grows((low - 1) as nat, (high - 1) as nat);
    }
}

/// `10^exponent` for an exponent of at most [`MAX_SCALE`].
fn power_of_ten(exponent: u32) -> (p: u128)
    requires
        exponent <= MAX_SCALE,
    ensures
        p == pow10(exponent as nat),
        p <= 10_000_000_000_000_000_000_000_000_000,
{
    let mut p: u128 = 1;
    let mut i: u32 = 0;
    proof {
        assert(pow10(28) == 10_000_000_000_000_000_000_000_000_000) by {
            reveal_with_fuel(pow10, 29);
        }
    }
    while i < exponent
        invariant
            i <= exponent <= MAX_SCALE,
            p == pow10(i as nat),
            pow10(28) == 10_000_000_000_000_000_000_000_000_000,
        decreases exponent - i,
    {
        proof {
            lemma_pow10_grows((i + 1) as nat, 28);
        }
        p = p * 10;
        i = i + 1;
    }
    proof {
        lemma_pow10_grows(exponent as nat, 28);
    }
    p
}

/// Rounding a second time to the same number of digits changes nothing.
pub proof fn lemma_round_idempotent(a: DecimalModel, dp: nat)
    ensures
        round_model(round_model(a, dp), dp) == round_model(a, dp),
{
}

/// `rust_decimal::Decimal::checked_div`, computing `a / b`.
///
/// Taken on trust: there is no result for a zero divisor; a zero dividend
/// over any other divisor gives the positive zero of scale 0; for two
/// nonzero operands the outcome depends on the operands alone. Together the
/// clauses say that the outcome is [`div_model`].
#[verifier::external_body]
pub(crate) fn checked_div(a: Dec, b: Dec) -> (q: Option<Dec>)
    ensures
        b@.magnitude == 0 ==> q is None,
        b@.magnitude != 0 && a@.magnitude == 0 ==> model_of(q) == Some(integer_model(0)),
        b@.magnitude != 0 && a@.magnitude != 0 ==> model_of(q) == quotient(a@, b@),
{
    let mut x = rust_decimal::Decimal::from_parts(a.lo, a.mid, a.hi, a.negative, a.scale);
    x.set_sign_negative(a.negative);
    let mut y = rust_decimal::Decimal::from_parts(b.lo, b.mid, b.hi, b.negative, b.scale);
    y.set_sign_negative(b.negative);
    match x.checked_div(y) {
        Some(r) => {
            let u = r.unpack();
            Some(Dec { lo: u.lo, mid: u.mid, hi: u.hi, negative: u.negative, scale: u.scale })
        },
        None => None,
    }
}

/// `rust_decimal::Decimal::checked_mul`, computing `a * b`.
///
/// Taken on trust: a zero factor gives the positive zero of scale 0; for
/// two nonzero factors the outcome depends on the factors alone. Together
/// the clauses say that the outcome is [`mul_model`].
#[verifier::external_body]
pub(crate) fn checked_mul(a: Dec, b: Dec) -> (p: Option<Dec>)
    ensures
        a@.magnitude == 0 || b@.magnitude == 0 ==> model_of(p) == Some(integer_model(0)),
        a@.magnitude != 0 && b@.magnitude != 0 ==> model_of(p) == product(a@, b@),
{
    let mut x = rust_decimal::Decimal::from_parts(a.lo, a.mid, a.hi, a.negative, a.scale);
    x.set_sign_negative(a.negative);
    let mut y = rust_decimal::Decimal::from_parts(b.lo, b.mid, b.hi, b.negative, b.scale);
    y.set_sign_negative(b.negative);
    match x.checked_mul(y) {
        Some(r) => {
            let u = r.unpack();
            Some(Dec { lo: u.lo, mid: u.mid, hi: u.hi, negative: u.negative, scale: u.scale })
        },
        None => None,
    }
}

/// `rust_decimal::Decimal::checked_add`, computing `a + b`.
///
/// Taken on trust: the outcome depends on the operands alone.
#[verifier::external_body]
pub(crate) fn checked_add(a: Dec, b: Dec) -> (s: Option<Dec>)
    ensures
        model_of(s) == sum(a@, b@),
{
    let mut x = rust_decimal::Decimal::from_parts(a.lo, a.mid, a.hi, a.negative, a.scale);
    x.set_sign_negative(a.negative);
    let mut y = rust_decimal::Decimal::from_parts(b.lo, b.mid, b.hi, b.negative, b.scale);
    y.set_sign_negative(b.negative);
    match x.checked_add(y) {
        Some(r) => {
            let u = r.unpack();
            Some(Dec { lo: u.lo, mid: u.mid, hi: u.hi, negative: u.negative, scale: u.scale })
        },
        None => None,
    }
}

/// `rust_decimal::Decimal::checked_sub`, computing `a - b`.
///
/// Taken on trust: the outcome depends on the operands alone.
#[verifier::external_body]
pub(crate) fn checked_sub(a: Dec, b: Dec) -> (s: Option<Dec>)
    ensures
        model_of(s) == difference(a@, b@),
{
    let mut x = rust_decimal::Decimal::from_parts(a.lo, a.mid, a.hi, a.negative, a.scale);
    x.set_sign_negative(a.negative);
    let mut y = rust_decimal::Decimal::from_parts(b.lo, b.mid, b.hi, b.negative, b.scale);
    y.set_sign_negative(b.negative);
    match x.checked_sub(y) {
        Some(r) => {
            let u = r.unpack();
            Some(Dec { lo: u.lo, mid: u.mid, hi: u.hi, negative: u.negative, scale: u.scale })
        },
        None => None,
    }
}

/// `rust_decimal::MathematicalOps::checked_powd`, raising `base` to an
/// `exponent` of scale 0.
///
/// Taken on trust: for such an exponent the outcome depends on the operands
/// alone. Exponents with fractional digits are left out: for them
/// `rust_decimal` takes a logarithm, and that call panics where it has no
/// result.
#[verifier::external_body]
pub(crate) fn checked_powd(base: Dec, exponent: Dec) -> (p: Option<Dec>)
    requires
        exponent@.scale == 0,
    ensures
        model_of(p) == power(base@, exponent@),
{
    let mut x = rust_decimal::Decimal::from_parts(base.lo, base.mid, base.hi, base.negative, base.scale);
    x.set_sign_negative(base.negative);
    let mut y = rust_decimal::Decimal::from_parts(exponent.lo, exponent.mid, exponent.hi, exponent.negative, exponent.scale);
    y.set_sign_negative(exponent.negative);
    match rust_decimal::MathematicalOps::checked_powd(&x, y) {
        Some(r) => {
            let u = r.unpack();
            Some(Dec { lo: u.lo, mid: u.mid, hi: u.hi, negative: u.negative, scale: u.scale })
        },
        None => None,
    }
}

/// `str::parse::<rust_decimal::Decimal>`, that is the `FromStr` impl of
/// `rust_decimal::Decimal`, on the text.
///
/// Taken on trust: whether a decimal is read, and which, depends on the
/// text alone.
#[verifier::external_body]
pub(crate) fn parse_decimal(text: &str) -> (d: Option<Dec>)
    ensures
        model_of(d) == parsed(text@),
{
    match text.parse::<rust_decimal::Decimal>() {
        Ok(r) => {
            let u = r.unpack();
            Some(Dec { lo: u.lo, mid: u.mid, hi: u.hi, negative: u.negative, scale: u.scale })
        },
        Err(_) => None,
    }
}

/// `to_string` on the number as a `rust_decimal::Decimal`, that is its
/// `Display` impl.
///
/// Taken on trust: the text depends on the number alone.
#[verifier::external_body]
pub(crate) fn render_decimal(a: Dec) -> (text: String)
    ensures
        text@ == rendered(a@),
{
    let mut x = rust_decimal::Decimal::from_parts(a.lo, a.mid, a.hi, a.negative, a.scale);
    x.set_sign_negative(a.negative);
    x.to_string()
}

} // verus!
