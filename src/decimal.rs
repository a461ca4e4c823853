use vstd::prelude::*;

use crate::text::{decimal_digits, digit_char};

verus! {

/// Atomic units in one whole unit of a `Decimal`.
pub const DECIMAL_FRACTIONAL: u128 = 1_000_000_000_000_000_000;

/// A non-negative fixed-point number with eighteen fractional digits, held as its atomic units.
#[derive(Clone, Copy, Debug, PartialEq, Eq, Structural)]
pub struct Decimal {
    pub atomics: u128,
}

/// The atomic units of `numerator / denominator`, rounded down.
pub open spec fn ratio_atomics(numerator: int, denominator: int) -> int {
    numerator * DECIMAL_FRACTIONAL / denominator
}

/// `amount` times the decimal with `atomics` atomic units, rounded down.
pub open spec fn mul_floor_spec(amount: int, atomics: int) -> int {
    amount * atomics / DECIMAL_FRACTIONAL as int
}

/// The last `width` decimal digits of `n`, padded with zeros on the left.
pub open spec fn padded_digits(n: nat, width: nat) -> Seq<char>
    decreases width,
{
    if width == 0 {
        Seq::empty()
    } else {
        padded_digits(n / 10, (width - 1) as nat).push(digit_char((n % 10) as int))
    }
}

/// `s` without its trailing zeros.
pub open spec fn trim_trailing_zeros(s: Seq<char>) -> Seq<char>
    decreases s.len(),
{
    if s.len() > 0 && s.last() == '0' {
        trim_trailing_zeros(s.drop_last())
    } else {
        s
    }
}

/// The text of a decimal with these atomic units: the digits of the whole part, then, when
/// the fraction is not zero, a dot and the eighteen fractional digits without trailing zeros.
pub open spec fn decimal_text(atomics: u128) -> Seq<char> {
    let whole = (atomics / DECIMAL_FRACTIONAL) as nat;
    let fraction = (atomics % DECIMAL_FRACTIONAL) as nat;
    if fraction == 0 {
        decimal_digits(whole)
    } else {
        decimal_digits(whole) + seq!['.'] + trim_trailing_zeros(padded_digits(fraction, 18))
    }
}

/// Relies on cosmwasm_std::Decimal::from_ratio: numerator * 10^18 / denominator, rounded down.
/// It panics on a zero denominator or when the result leaves u128.
#[verifier::external_body]
fn checked_ratio(numerator: u128, denominator: u128) -> (r: u128)
    requires
        denominator > 0,
        ratio_atomics(numerator as int, denominator as int) <= u128::MAX,
    ensures
        r == ratio_atomics(numerator as int, denominator as int),
{
    cosmwasm_std::Decimal::from_ratio(numerator, denominator).atomics().u128()
}

/// Relies on cosmwasm_std's `Uint128 * Decimal`: amount * atomics / 10^18, rounded down,
/// computed without intermediate overflow. It panics when the result leaves u128.
#[verifier::external_body]
fn uint_times_decimal(amount: u128, atomics: u128) -> (r: u128)
    requires
        mul_floor_spec(amount as int, atomics as int) <= u128::MAX,
    ensures
        r == mul_floor_spec(amount as int, atomics as int),
{
    (cosmwasm_std::Uint128::new(amount) * cosmwasm_std::Decimal::raw(atomics)).u128()
}

/// Relies on cosmwasm_std::Decimal's Display: the whole part, and for a non-zero fraction a
/// dot and the fraction padded to eighteen digits with its trailing zeros trimmed.
#[verifier::external_body]
fn decimal_display(atomics: u128) -> (r: String)
    ensures
        r@ == decimal_text(atomics),
{
    cosmwasm_std::Decimal::raw(atomics).to_string()
}

impl Decimal {
    pub fn raw(atomics: u128) -> (d: Decimal)
        ensures
            d.atomics == atomics,
    {
        Decimal { atomics }
    }

    pub fn zero() -> (d: Decimal)
        ensures
            d.atomics == 0,
    {
        Decimal { atomics: 0 }
    }

    pub fn is_zero(&self) -> (r: bool)
        ensures
            r == (self.atomics == 0),
    {
        self.atomics == 0
    }

    /// The decimal `numerator / denominator`, rounded down to eighteen places.
    pub fn from_ratio(numerator: u128, denominator: u128) -> (d: Decimal)
        requires
            denominator > 0,
            ratio_atomics(numerator as int, denominator as int) <= u128::MAX,
        ensures
            d.atomics == ratio_atomics(numerator as int, denominator as int),
    {
        Decimal { atomics: checked_ratio(numerator, denominator) }
    }

    /// `amount` times this decimal, rounded down.
    pub fn mul_floor(&self, amount: u128) -> (r: u128)
        requires
            mul_floor_spec(amount as int, self.atomics as int) <= u128::MAX,
        ensures
            r == mul_floor_spec(amount as int, self.atomics as int),
    {
        uint_times_decimal(amount, self.atomics)
    }

    /// The decimal written out, as cosmwasm writes it.
    pub fn to_text(&self) -> (r: String)
        ensures
            r@ == decimal_text(self.atomics),
    {
        decimal_display(self.atomics)
    }
}

/// A product with a decimal of at most one never exceeds the amount.
pub proof fn lemma_mul_floor_at_most_amount(amount: int, atomics: int)
    requires
        0 <= amount,
        0 <= atomics <= DECIMAL_FRACTIONAL,
    ensures
        0 <= mul_floor_spec(amount, atomics) <= amount,
{
    let f = DECIMAL_FRACTIONAL as int;
    assert(amount * atomics <= amount * f) by (nonlinear_arith)
        requires
            0 <= amount,
            atomics <= f,
    ;
    assert(0 <= amount * atomics) by (nonlinear_arith)
        requires
            0 <= amount,
            0 <= atomics,
    ;
    assert(amount * f / f == amount) by (nonlinear_arith)
        requires
            f > 0,
    ;
    assert((amount * atomics) / f <= (amount * f) / f) by (nonlinear_arith)
        requires
            amount * atomics <= amount * f,
            f > 0,
    ;
}

} // verus!
