use vstd::prelude::*;

use crate::decimal::{
    Decimal, lemma_mul_floor_at_most_amount, mul_floor_spec, ratio_atomics, DECIMAL_FRACTIONAL,
};
use crate::state::{is_native, native_denom};

verus! {

/// A source of quotes: how much of `token_out` a trade of `amount_in` of `token_in` yields.
pub trait PriceOracle {
    spec fn quote_spec(&self, token_in: Seq<char>, token_out: Seq<char>, amount_in: u128) -> u128;

    fn quote(&self, token_in: &String, token_out: &String, amount_in: u128) -> (r: u128)
        ensures
            r == self.quote_spec(token_in@, token_out@, amount_in),
    ;
}

/// The atomics of the share that the stand-in pricing passes on: 95 in 100.
pub open spec fn haircut_atomics() -> int {
    ratio_atomics(95, 100)
}

/// The stand-in pricing: the native asset against itself at par, anything else at 95%,
/// rounded down.
pub open spec fn flat_haircut(token_in: Seq<char>, token_out: Seq<char>, amount_in: u128) -> u128 {
    if token_in == native_denom() && token_out == native_denom() {
        amount_in
    } else {
        mul_floor_spec(amount_in as int, haircut_atomics()) as u128
    }
}

/// The stand-in quote used until a real order book or pool is wired in.
pub fn execute_trade(token_in: &String, token_out: &String, amount_in: u128) -> (r: u128)
    ensures
        r == flat_haircut(token_in@, token_out@, amount_in),
        r <= amount_in,
{
    if is_native(token_in) && is_native(token_out) {
        return amount_in;
    }
    assert(ratio_atomics(95, 100) == 950_000_000_000_000_000);
    let share = Decimal::from_ratio(95, 100);
    proof {
        lemma_mul_floor_at_most_amount(amount_in as int, share.atomics as int);
    }
    share.mul_floor(amount_in)
}

/// The stand-in pricing as a quote source.
pub struct FlatHaircut;

impl PriceOracle for FlatHaircut {
    open spec fn quote_spec(&self, token_in: Seq<char>, token_out: Seq<char>, amount_in: u128) -> u128 {
        flat_haircut(token_in, token_out, amount_in)
    }

    fn quote(&self, token_in: &String, token_out: &String, amount_in: u128) -> (r: u128) {
        execute_trade(token_in, token_out, amount_in)
    }
}

/// Quotes every trade one for one, as a venue with no spread would.
pub struct AtPar;

impl PriceOracle for AtPar {
    open spec fn quote_spec(&self, token_in: Seq<char>, token_out: Seq<char>, amount_in: u128) -> u128 {
        amount_in
    }

    fn quote(&self, token_in: &String, token_out: &String, amount_in: u128) -> (r: u128) {
        amount_in
    }
}

} // verus!
