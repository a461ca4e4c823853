use vstd::prelude::*;

use crate::contract::{
    add_liquidity_post, cancel_order_post, create_limit_order_post, emergency_withdraw_post,
    execute_post, limit_order_id, market_trade_post, max_fee_rate, remove_liquidity_post,
    update_config_post, update_fee_rate_post, Router,
};
use crate::decimal::{mul_floor_spec, Decimal};
use crate::error::ContractError;
use crate::msg::{ExecuteMsg, MessageInfo, Response};
use crate::pricing::PriceOracle;
use crate::payment::pays_one_coin;
use crate::state::{native_denom, FeeInfo};

verus! {

/// How many times `x` occurs in `s`.
pub open spec fn occurrences(s: Seq<Seq<char>>, x: Seq<char>) -> nat
    decreases s.len(),
{
    if s.len() == 0 {
        0
    } else {
        occurrences(s.drop_last(), x) + if s.last() == x {
            1nat
        } else {
            0nat
        }
    }
}

proof fn lemma_absent_occurs_never(s: Seq<Seq<char>>, x: Seq<char>)
    requires
        !s.contains(x),
    ensures
        occurrences(s, x) == 0,
    decreases s.len(),
{
    if s.len() > 0 {
        assert(!s.drop_last().contains(x)) by {
            if s.drop_last().contains(x) {
                let i = choose|i: int| 0 <= i < s.drop_last().len() && s.drop_last()[i] == x;
                assert(s[i] == x);
            }
        }
        lemma_absent_occurs_never(s.drop_last(), x);
        assert(s[s.len() - 1] != x);
    }
}

/// A valid limit order whose identifier is not yet stored is accepted, stored active, and its
/// identifier occurs exactly once in the owner's list of orders. Valid means: not past its
/// deadline, a positive amount and price, two distinct assets, and, when it sells the native
/// asset, one coin of it attached that covers the amount.
pub proof fn law_new_order_active_and_listed_once(
    pre: Router,
    post: Router,
    now: u64,
    info: MessageInfo,
    token_in: Seq<char>,
    token_out: Seq<char>,
    amount_in: u128,
    price: Decimal,
    deadline: u64,
    r: Result<Response, ContractError>,
)
    requires
        pre.wf(),
        create_limit_order_post(
            pre,
            post,
            now,
            info,
            token_in,
            token_out,
            amount_in,
            price,
            deadline,
            r,
        ),
        now <= deadline,
        amount_in > 0,
        price.atomics > 0,
        token_in != token_out,
        token_in == native_denom() ==> pays_one_coin(info.funds@, native_denom())
            && info.funds@[0].amount >= amount_in,
        !pre.orders_spec().contains_key(
            limit_order_id(info.sender@, token_in, token_out, amount_in, now),
        ),
    ensures
        r is Ok,
        ({
            let id = limit_order_id(info.sender@, token_in, token_out, amount_in, now);
            &&& post.orders_spec().contains_key(id)
            &&& post.orders_spec()[id].is_active
            &&& occurrences(post.order_ids_of(info.sender@), id) == 1
        }),
{
    let id = limit_order_id(info.sender@, token_in, token_out, amount_in, now);
    let before = pre.order_ids_of(info.sender@);
    if before.contains(id) {
        assert(pre.orders_spec().contains_key(id));
    }
    lemma_absent_occurs_never(before, id);
    assert(before.push(id).drop_last() =~= before);
}

/// Cancelling an active native-asset order of one's own deactivates it and sends back exactly
/// its amount, once; cancelling it again is refused as not active.
pub proof fn law_cancel_native_order_once(
    pre: Router,
    mid: Router,
    post: Router,
    sender: Seq<char>,
    order_id: Seq<char>,
    first: Result<Response, ContractError>,
    second: Result<Response, ContractError>,
)
    requires
        pre.orders_spec().contains_key(order_id),
        pre.orders_spec()[order_id].user@ == sender,
        pre.orders_spec()[order_id].is_active,
        pre.orders_spec()[order_id].token_in@ == native_denom(),
        cancel_order_post(pre, mid, sender, order_id, first),
        cancel_order_post(mid, post, sender, order_id, second),
    ensures
        mid.orders_spec().contains_key(order_id),
        !mid.orders_spec()[order_id].is_active,
        first matches Ok(resp) && resp.sends() == seq![
            (sender, native_denom(), pre.orders_spec()[order_id].amount_in),
        ],
        second matches Err(ContractError::OrderNotActive {}),
{
}

/// A market trade in the native asset that pays a fee adds exactly that fee, the amount times
/// the rate rounded down, to the asset's collected total.
pub proof fn law_fee_collected_exactly<P: PriceOracle>(
    pre: Router,
    post: Router,
    pricer: P,
    now: u64,
    sender: Seq<char>,
    token_in: Seq<char>,
    token_out: Seq<char>,
    amount_in: u128,
    min_amount_out: u128,
    deadline: u64,
    resp: Response,
)
    requires
        market_trade_post(
            pre,
            post,
            pricer,
            now,
            sender,
            token_in,
            token_out,
            amount_in,
            min_amount_out,
            deadline,
            Ok(resp),
        ),
        token_in == native_denom(),
        mul_floor_spec(amount_in as int, pre.fee_info_of(token_in).rate.atomics as int) > 0,
    ensures
        post.fee_info_of(token_in).collected == pre.fee_info_of(token_in).collected
            + mul_floor_spec(amount_in as int, pre.fee_info_of(token_in).rate.atomics as int),
        post.fee_info_of(token_in).rate == pre.fee_info_of(token_in).rate,
{
}

/// A market trade in the native asset that is within its deadline, for a positive amount
/// between two distinct assets, whose fee record is active, whose fee is positive and whose
/// quote meets the minimum, succeeds whenever the totals stay within their integer ranges; it
/// adds exactly the fee, rounded down, to the collected total.
pub proof fn law_fee_trade_succeeds<P: PriceOracle>(
    pre: Router,
    post: Router,
    pricer: P,
    now: u64,
    sender: Seq<char>,
    token_in: Seq<char>,
    token_out: Seq<char>,
    amount_in: u128,
    min_amount_out: u128,
    deadline: u64,
    r: Result<Response, ContractError>,
)
    requires
        market_trade_post(
            pre,
            post,
            pricer,
            now,
            sender,
            token_in,
            token_out,
            amount_in,
            min_amount_out,
            deadline,
            r,
        ),
        now <= deadline,
        amount_in > 0,
        token_in == native_denom(),
        token_out != token_in,
        pre.fee_info_of(token_in).is_active,
        mul_floor_spec(amount_in as int, pre.fee_info_of(token_in).rate.atomics as int) > 0,
        pricer.quote_spec(
            token_in,
            token_out,
            (amount_in - mul_floor_spec(
                amount_in as int,
                pre.fee_info_of(token_in).rate.atomics as int,
            )) as u128,
        ) >= min_amount_out,
        pre.fee_info_of(token_in).collected + mul_floor_spec(
            amount_in as int,
            pre.fee_info_of(token_in).rate.atomics as int,
        ) <= u128::MAX,
        pre.stats_spec().total_volume + amount_in <= u128::MAX,
        pre.stats_spec().total_trades < u64::MAX,
    ensures
        r is Ok,
        post.fee_rates_spec().contains_key(token_in),
        post.fee_rates_spec()[token_in] == (FeeInfo {
            rate: pre.fee_info_of(token_in).rate,
            collected: (pre.fee_info_of(token_in).collected + mul_floor_spec(
                amount_in as int,
                pre.fee_info_of(token_in).rate.atomics as int,
            )) as u128,
            is_active: true,
        }),
{
}

/// Removing liquidity that succeeds names two distinct assets, and lowers the sender's
/// balance in each by exactly the amount of it that is sent back.
pub proof fn law_removal_conserves_balances(
    pre: Router,
    post: Router,
    sender: Seq<char>,
    token_a: Seq<char>,
    token_b: Seq<char>,
    liquidity: u128,
    min_amount_a: u128,
    min_amount_b: u128,
    resp: Response,
)
    requires
        remove_liquidity_post(
            pre,
            post,
            sender,
            token_a,
            token_b,
            liquidity,
            min_amount_a,
            min_amount_b,
            Ok(resp),
        ),
    ensures
        token_a != token_b,
        resp.sends() == seq![(sender, token_a, liquidity / 2), (sender, token_b, liquidity / 2)],
        pre.balance_of(sender, token_a) - post.balance_of(sender, token_a) == liquidity / 2,
        pre.balance_of(sender, token_b) - post.balance_of(sender, token_b) == liquidity / 2,
{
}

/// Adding equal amounts of two assets and then removing the whole credit gives each balance
/// back its value from before the deposit, when the stated minimums are within the amounts.
pub proof fn law_liquidity_round_trip(
    pre: Router,
    mid: Router,
    post: Router,
    sender: Seq<char>,
    token_a: Seq<char>,
    token_b: Seq<char>,
    amount_a: u128,
    amount_b: u128,
    min_liquidity: u128,
    min_amount_a: u128,
    min_amount_b: u128,
    added: Response,
    removed: Result<Response, ContractError>,
)
    requires
        add_liquidity_post(
            pre,
            mid,
            sender,
            token_a,
            token_b,
            amount_a,
            amount_b,
            min_liquidity,
            Ok(added),
        ),
        remove_liquidity_post(
            mid,
            post,
            sender,
            token_a,
            token_b,
            (amount_a + amount_b) as u128,
            min_amount_a,
            min_amount_b,
            removed,
        ),
        amount_a == amount_b,
        min_amount_a <= amount_a,
        min_amount_b <= amount_b,
    ensures
        removed is Ok,
        post.balance_of(sender, token_a) == pre.balance_of(sender, token_a),
        post.balance_of(sender, token_b) == pre.balance_of(sender, token_b),
{
}

/// A fee rate above the cap is refused and the asset's fee record stays as it was.
pub proof fn law_fee_rate_above_cap_refused(
    pre: Router,
    post: Router,
    sender: Seq<char>,
    token: Seq<char>,
    rate: Decimal,
    r: Result<Response, ContractError>,
)
    requires
        update_fee_rate_post(pre, post, sender, token, rate, r),
        rate.atomics > max_fee_rate(),
    ensures
        r is Err,
        sender == pre.config_spec().admin@ ==> r matches Err(ContractError::InvalidFeeRate {}),
        post.fee_info_of(token) == pre.fee_info_of(token),
        post == pre,
{
}

/// Whatever they carry, configuration updates, fee-rate updates and emergency withdrawals
/// from anyone but the admin are refused as unauthorized and change nothing.
pub proof fn law_admin_only(
    pre: Router,
    after_config: Router,
    after_fee: Router,
    sender: Seq<char>,
    admin: Option<String>,
    fee_collector: Option<String>,
    order_book: Option<String>,
    amm_factory: Option<String>,
    fee_token: Seq<char>,
    rate: Decimal,
    withdraw_token: Seq<char>,
    amount: u128,
    config_result: Result<Response, ContractError>,
    fee_result: Result<Response, ContractError>,
    withdraw_result: Result<Response, ContractError>,
)
    requires
        sender != pre.config_spec().admin@,
        update_config_post(
            pre,
            after_config,
            sender,
            admin,
            fee_collector,
            order_book,
            amm_factory,
            config_result,
        ),
        update_fee_rate_post(pre, after_fee, sender, fee_token, rate, fee_result),
        emergency_withdraw_post(pre, sender, withdraw_token, amount, withdraw_result),
    ensures
        config_result matches Err(ContractError::Unauthorized {}),
        after_config == pre,
        fee_result matches Err(ContractError::Unauthorized {}),
        after_fee == pre,
        withdraw_result matches Err(ContractError::Unauthorized {}),
{
}

/// No command lowers the number of trades, the traded volume, or the fees collected on any
/// asset.
pub proof fn law_totals_never_decrease<P: PriceOracle>(
    pre: Router,
    post: Router,
    pricer: P,
    now: u64,
    info: MessageInfo,
    msg: ExecuteMsg,
    r: Result<Response, ContractError>,
    token: Seq<char>,
)
    requires
        execute_post(pre, post, pricer, now, info, msg, r),
    ensures
        post.stats_spec().total_trades >= pre.stats_spec().total_trades,
        post.stats_spec().total_volume >= pre.stats_spec().total_volume,
        post.fee_info_of(token).collected >= pre.fee_info_of(token).collected,
{
}

} // verus!
