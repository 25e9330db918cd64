//! Exact base-10 numbers with a 96-bit mantissa, computed by `rust_decimal`.

use vstd::prelude::*;

verus! {

/// The number `mantissa / 10^scale`, as contracts speak of it.
pub struct DecimalValue {
    pub mantissa: int,
    pub scale: nat,
}

/// Ten to the power `exponent`.
pub open spec fn pow10(exponent: nat) -> int
    decreases exponent,
{
    if exponent == 0 {
        1
    } else {
        10 * pow10((exponent - 1) as nat)
    }
}

/// The largest magnitude a mantissa can have: `2^96 - 1`.
pub open spec fn max_mantissa() -> int {
    0xFFFF_FFFF_FFFF_FFFF_FFFF_FFFF
}

/// The largest number of fractional digits.
pub open spec fn max_scale() -> nat {
    28
}

impl DecimalValue {
    /// Whether the number fits the 96-bit representation.
    pub open spec fn representable(self) -> bool {
        &&& -max_mantissa() <= self.mantissa <= max_mantissa()
        &&& self.scale <= max_scale()
    }

    /// The number zero, without fractional digits.
    pub open spec fn zero() -> DecimalValue {
        DecimalValue { mantissa: 0, scale: 0 }
    }

    /// Whether the number is zero, with whatever scale.
    pub open spec fn is_zero(self) -> bool {
        self.mantissa == 0
    }

    /// The same number without trailing fractional zeros; zero becomes `0`.
    pub open spec fn normalized(self) -> DecimalValue
        decreases self.scale,
    {
        if self.mantissa == 0 {
            DecimalValue::zero()
        } else if self.scale == 0 || self.mantissa % 10 != 0 {
            self
        } else {
            (DecimalValue { mantissa: self.mantissa / 10, scale: (self.scale - 1) as nat }).normalized()
        }
    }

    /// The number rounded to at most `places` fractional digits, a tie going
    /// to the neighbour whose last digit is even.
    pub open spec fn rounded(self, places: nat) -> DecimalValue {
        if self.scale <= places {
            self
        } else {
            let unit = pow10((self.scale - places) as nat);
            let magnitude = if self.mantissa < 0 { -self.mantissa } else { self.mantissa };
            let kept = magnitude / unit;
            let dropped = magnitude % unit;
            let up = 2 * dropped > unit || (2 * dropped == unit && kept % 2 == 1);
            let result = if up { kept + 1 } else { kept };
            DecimalValue { mantissa: if self.mantissa < 0 { -result } else { result }, scale: places }
        }
    }
}

/// Whether two decimals stand for one number, whatever their scales.
pub open spec fn same_number(left: DecimalValue, right: DecimalValue) -> bool {
    left.mantissa * pow10(right.scale) == right.mantissa * pow10(left.scale)
}

/// A power of ten is positive.
pub proof fn lemma_pow10_positive(exponent: nat)
    ensures
        pow10(exponent) > 0,
    decreases exponent,
{
    if exponent > 0 {
        lemma_pow10_positive((exponent - 1) as nat);
    }
}

/// The shortest form stands for the same number, has no more fractional
/// digits, and ends in no zero that could be dropped.
pub proof fn lemma_normalized_is_shortest(value: DecimalValue)
    ensures
        same_number(value, value.normalized()),
        value.normalized().scale <= value.scale,
        value.normalized().scale == 0 || value.normalized().mantissa % 10 != 0,
        value.representable() ==> value.normalized().representable(),
    decreases value.scale,
{
    if value.mantissa != 0 && value.scale > 0 && value.mantissa % 10 == 0 {
        let tenth = DecimalValue { mantissa: value.mantissa / 10, scale: (value.scale - 1) as nat };
        let shortest = tenth.normalized();
        lemma_normalized_is_shortest(tenth);
        assert(value.mantissa == 10 * tenth.mantissa);
        assert(pow10(value.scale) == 10 * pow10(tenth.scale));
        assert(value.mantissa * pow10(shortest.scale) == shortest.mantissa * pow10(value.scale))
            by (nonlinear_arith)
            requires
                tenth.mantissa * pow10(shortest.scale) == shortest.mantissa * pow10(tenth.scale),
                value.mantissa == 10 * tenth.mantissa,
                pow10(value.scale) == 10 * pow10(tenth.scale),
        ;
    }
}

/// Rounding gives a number with `places` fractional digits that is as near
/// to the given one as such a number can be: they differ by half a unit of
/// the last place at most.
pub proof fn lemma_rounded_is_nearest(value: DecimalValue, places: nat)
    requires
        value.scale > places,
    ensures
        ({
            let unit = pow10((value.scale - places) as nat);
            let rounded = value.rounded(places);
            &&& rounded.scale == places
            &&& -unit <= 2 * (value.mantissa - rounded.mantissa * unit) <= unit
        }),
{
    let unit = pow10((value.scale - places) as nat);
    let magnitude = if value.mantissa < 0 {
        -value.mantissa
    } else {
        value.mantissa
    };
    let kept = magnitude / unit;
    let dropped = magnitude % unit;
    lemma_pow10_positive((value.scale - places) as nat);
    vstd::arithmetic::div_mod::lemma_fundamental_div_mod(magnitude, unit);
    vstd::arithmetic::div_mod::lemma_mod_bound(magnitude, unit);
    assert(magnitude == kept * unit + dropped) by (nonlinear_arith)
        requires
            magnitude == unit * kept + dropped,
    ;
    assert((kept + 1) * unit == kept * unit + unit) by (nonlinear_arith);
    assert((-kept) * unit == -(kept * unit)) by (nonlinear_arith);
    assert((-(kept + 1)) * unit == -(kept * unit) - unit) by (nonlinear_arith);
}

/// What `rust_decimal` reads from a text, `None` where it rejects the text.
pub uninterp spec fn decimal_from_text(text: Seq<char>) -> Option<DecimalValue>;

/// How `rust_decimal` writes a number.
pub uninterp spec fn decimal_text(value: DecimalValue) -> Seq<char>;

/// The sum that `rust_decimal` computes, `None` where it overflows.
pub uninterp spec fn decimal_sum(left: DecimalValue, right: DecimalValue) -> Option<DecimalValue>;

/// The product that `rust_decimal` computes, `None` where it overflows.
pub uninterp spec fn decimal_product(left: DecimalValue, right: DecimalValue) -> Option<DecimalValue>;

/// The quotient that `rust_decimal` computes, `None` where it overflows or
/// the divisor is zero.
pub uninterp spec fn decimal_quotient(left: DecimalValue, right: DecimalValue) -> Option<DecimalValue>;

/// An exact decimal number.
///
/// Two decimals are equal where they have the same digits: `1.0` and `1.00`
/// stand for one number and are not equal.
#[derive(Clone, Copy, Debug, PartialEq, Eq)]
pub struct Decimal {
    mantissa: i128,
    scale: u32,
}

impl View for Decimal {
    type V = DecimalValue;

    closed spec fn view(&self) -> DecimalValue {
        DecimalValue { mantissa: self.mantissa as int, scale: self.scale as nat }
    }
}

impl Decimal {
    #[verifier::type_invariant]
    spec fn well_formed(self) -> bool {
        self@.representable()
    }

    /// The number zero.
    pub fn zero() -> (result: Decimal)
        ensures
            result@ == DecimalValue::zero(),
    {
        Decimal { mantissa: 0, scale: 0 }
    }

    /// The number `mantissa / 10^scale`, if it fits the representation.
    pub fn from_parts(mantissa: i128, scale: u32) -> (result: Option<Decimal>)
        ensures
            match result {
                Some(d) => d@ == (DecimalValue { mantissa: mantissa as int, scale: scale as nat })
                    && d@.representable(),
                None => !(DecimalValue { mantissa: mantissa as int, scale: scale as nat }).representable(),
            },
    {
        if scale <= 28 && -0xFFFF_FFFF_FFFF_FFFF_FFFF_FFFFi128 <= mantissa && mantissa
            <= 0xFFFF_FFFF_FFFF_FFFF_FFFF_FFFFi128 {
            Some(Decimal { mantissa, scale })
        } else {
            None
        }
    }

    /// The digits of the number as an integer, with its sign.
    pub fn mantissa(&self) -> (result: i128)
        ensures
            result == self@.mantissa,
            self@.representable(),
    {
        proof {
            use_type_invariant(self);
        }
        self.mantissa
    }

    /// The number of fractional digits.
    pub fn scale(&self) -> (result: u32)
        ensures
            result == self@.scale,
            self@.representable(),
    {
        proof {
            use_type_invariant(self);
        }
        self.scale
    }

    /// Whether the number is zero.
    pub fn is_zero(&self) -> (result: bool)
        ensures
            result == self@.is_zero(),
    {
        self.mantissa == 0
    }

    /// Reads a number written with digits, an optional sign and an optional
    /// decimal point. A text that `rust_decimal` cannot hold exactly is
    /// rejected, and the error carries the text.
    pub fn from_str_exact(text: &str) -> (result: Result<Decimal, NumericParseError>)
        ensures
            match result {
                Ok(d) => decimal_from_text(text@) == Some(d@),
                Err(e) => decimal_from_text(text@) is None && e.text@ == text@,
            },
    {
        match parse_exact(text) {
            Some(d) => Ok(d),
            None => Err(NumericParseError { text: text.to_owned() }),
        }
    }

    /// The number in its shortest form: trailing fractional zeros are
    /// stripped before it is written.
    pub fn to_normalized_text(&self) -> (result: String)
        ensures
            result@ == decimal_text(self@.normalized()),
    {
        render(normalize(*self))
    }
}

/// A text that is not a number.
#[derive(Debug)]
pub struct NumericParseError {
    pub text: String,
}

/// The value of an optional decimal.
pub open spec fn value_of(number: Option<Decimal>) -> Option<DecimalValue> {
    match number {
        Some(d) => Some(d@),
        None => None,
    }
}

/// `rust_decimal::Decimal::from_str_exact`: the number that the crate reads
/// from `text`, with the crate's mantissa and scale; `None` where the crate
/// returns an error.
#[verifier::external_body]
fn parse_exact(text: &str) -> (result: Option<Decimal>)
    ensures
        value_of(result) == decimal_from_text(text@),
{
    rust_decimal::Decimal::from_str_exact(text).ok().map(
        |d| Decimal { mantissa: d.mantissa(), scale: d.scale() },
    )
}

/// `rust_decimal::Decimal`'s `Display`: the digits of the number, with a sign
/// and a decimal point where it has them.
#[verifier::external_body]
fn render(number: Decimal) -> (result: String)
    ensures
        result@ == decimal_text(number@),
{
    rust_decimal::Decimal::from_i128_with_scale(number.mantissa, number.scale).to_string()
}

/// `rust_decimal::Decimal::normalize`: strips trailing fractional zeros and
/// turns any zero into `0`.
#[verifier::external_body]
pub(crate) fn normalize(number: Decimal) -> (result: Decimal)
    ensures
        result@ == number@.normalized(),
{
    let d = rust_decimal::Decimal::from_i128_with_scale(number.mantissa, number.scale).normalize();
    Decimal { mantissa: d.mantissa(), scale: d.scale() }
}

/// `rust_decimal::Decimal::round_dp`: rounds to `places` fractional digits,
/// half to even; a number with no more digits than that is left as it is.
#[verifier::external_body]
pub(crate) fn round_dp(number: Decimal, places: u32) -> (result: Decimal)
    ensures
        result@ == number@.rounded(places as nat),
{
    let d = rust_decimal::Decimal::from_i128_with_scale(number.mantissa, number.scale).round_dp(places);
    Decimal { mantissa: d.mantissa(), scale: d.scale() }
}

/// `rust_decimal::Decimal::checked_add`: the crate's sum, `None` on overflow.
#[verifier::external_body]
pub(crate) fn checked_add(left: Decimal, right: Decimal) -> (result: Option<Decimal>)
    ensures
        value_of(result) == decimal_sum(left@, right@),
{
    let a = rust_decimal::Decimal::from_i128_with_scale(left.mantissa, left.scale);
    let b = rust_decimal::Decimal::from_i128_with_scale(right.mantissa, right.scale);
    a.checked_add(b).map(|d| Decimal { mantissa: d.mantissa(), scale: d.scale() })
}

/// `rust_decimal::Decimal::checked_mul`: the crate's product, `None` on
/// overflow.
#[verifier::external_body]
pub(crate) fn checked_mul(left: Decimal, right: Decimal) -> (result: Option<Decimal>)
    ensures
        value_of(result) == decimal_product(left@, right@),
{
    let a = rust_decimal::Decimal::from_i128_with_scale(left.mantissa, left.scale);
    let b = rust_decimal::Decimal::from_i128_with_scale(right.mantissa, right.scale);
    a.checked_mul(b).map(|d| Decimal { mantissa: d.mantissa(), scale: d.scale() })
}

/// `rust_decimal::Decimal::checked_div`: the crate's quotient, `None` on
/// overflow and where `right` is zero.
#[verifier::external_body]
pub(crate) fn checked_div(left: Decimal, right: Decimal) -> (result: Option<Decimal>)
    ensures
        value_of(result) == decimal_quotient(left@, right@),
{
    let a = rust_decimal::Decimal::from_i128_with_scale(left.mantissa, left.scale);
    let b = rust_decimal::Decimal::from_i128_with_scale(right.mantissa, right.scale);
    a.checked_div(b).map(|d| Decimal { mantissa: d.mantissa(), scale: d.scale() })
}

} // verus!
