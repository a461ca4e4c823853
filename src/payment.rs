use vstd::prelude::*;

use cw_utils::PaymentError;

use crate::msg::{Coin, MessageInfo};

verus! {

/// The funds are exactly one coin, of `denom`, with a non-zero amount.
pub open spec fn pays_one_coin(funds: Seq<Coin>, denom: Seq<char>) -> bool {
    &&& funds.len() == 1
    &&& funds[0].amount != 0
    &&& funds[0].denom@ == denom
}

/// Relies on cw_utils::must_pay: it accepts exactly one coin, non-zero, of the asked
/// denomination, and returns its amount; it returns an error otherwise.
#[verifier::external_body]
pub(crate) fn must_pay(info: &MessageInfo, denom: &str) -> (r: Result<u128, PaymentError>)
    ensures
        match r {
            Ok(a) => pays_one_coin(info.funds@, denom@) && a == info.funds@[0].amount,
            Err(_) => !pays_one_coin(info.funds@, denom@),
        },
{
    let info = cosmwasm_std::MessageInfo {
        sender: cosmwasm_std::Addr::unchecked(info.sender.as_str()),
        funds: info.funds.iter().map(
            |c: &Coin| cosmwasm_std::coin(c.amount, c.denom.as_str()),
        ).collect(),
    };
    cw_utils::must_pay(&info, denom).map(|a| a.u128())
}

} // verus!
