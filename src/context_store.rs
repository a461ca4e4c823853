use vstd::prelude::*;

use crate::msg::{Coin, Response};
use crate::text::{amount_text, decimal_digits};

verus! {

/// Nanoseconds in one second.
pub const NANOS_PER_SECOND: u64 = 1_000_000_000;

/// How long a stake is locked: 21 days, in seconds.
pub const STAKE_PERIOD_SECONDS: u64 = 1_814_400;

/// A point in time, in nanoseconds since the epoch.
#[derive(Clone, Copy, Debug, PartialEq, Eq, Structural)]
pub struct Timestamp {
    pub nanos: u64,
}

/// Relies on cosmwasm_std::Timestamp::plus_seconds: the nanoseconds plus the seconds times
/// 10^9. It panics when the result leaves u64.
#[verifier::external_body]
fn plus_seconds_nanos(nanos: u64, seconds: u64) -> (r: u64)
    requires
        nanos + seconds * NANOS_PER_SECOND <= u64::MAX,
    ensures
        r == nanos + seconds * NANOS_PER_SECOND,
{
    cosmwasm_std::Timestamp::from_nanos(nanos).plus_seconds(seconds).nanos()
}

impl Timestamp {
    pub fn plus_seconds(&self, seconds: u64) -> (r: Timestamp)
        requires
            self.nanos + seconds * NANOS_PER_SECOND <= u64::MAX,
        ensures
            r.nanos == self.nanos + seconds * NANOS_PER_SECOND,
    {
        Timestamp { nanos: plus_seconds_nanos(self.nanos, seconds) }
    }
}

pub struct InstantiateMsg {
    pub admin: String,
}

pub enum ExecuteMsg {
    StoreContext {
        user_query: String,
        ai_response: String,
        transaction_hash: String,
        success: bool,
    },
    UpdatePortfolio { user: String, total_value: u128 },
    Stake { amount: u128 },
    Unstake { stake_id: u64 },
    Borrow { amount: u128 },
    Repay { loan_id: u64 },
}

pub enum QueryMsg {
    GetContext { context_id: u64 },
    GetUserContexts { user: String },
    GetPortfolio { user: String },
    GetStake { stake_id: u64 },
    GetUserStakes { user: String },
    CalculateRewards { stake_id: u64 },
    GetLoan { loan_id: u64 },
    GetUserLoans { user: String },
    CalculateInterest { loan_id: u64 },
}

/// One recorded exchange between a user and the assistant.
#[derive(Clone, Debug)]
pub struct Context {
    pub id: u64,
    pub user: String,
    pub user_query: String,
    pub ai_response: String,
    pub transaction_hash: String,
    pub timestamp: Timestamp,
    pub success: bool,
}

#[derive(Clone, Debug)]
pub struct Portfolio {
    pub user: String,
    pub total_value: u128,
    pub last_update: Timestamp,
    pub active: bool,
}

#[derive(Clone, Debug)]
pub struct Stake {
    pub id: u64,
    pub user: String,
    pub amount: u128,
    pub start_time: Timestamp,
    pub end_time: Timestamp,
    pub active: bool,
    pub rewards: u128,
}

#[derive(Clone, Debug)]
pub struct Loan {
    pub id: u64,
    pub borrower: String,
    pub amount: u128,
    /// In hundredths of a percent: 8% is 800.
    pub interest_rate: u64,
    pub start_time: Timestamp,
    pub due_time: Timestamp,
    pub active: bool,
    pub repaid: bool,
}

/// The store's administrator and the last identifier given to each kind of record.
#[derive(Clone, Debug)]
pub struct State {
    pub admin: String,
    pub context_id: u64,
    pub stake_id: u64,
    pub loan_id: u64,
}

/// Why the store refused a call.
#[derive(Debug)]
pub enum StoreError {
    /// The native funds sent differ from the amount named.
    IncorrectAmount {},
    /// An identifier or a time would leave its integer range.
    Overflow {},
}

/// The amount of the first coin of `denom`; zero where there is none.
pub open spec fn first_amount(funds: Seq<Coin>, denom: Seq<char>) -> u128
    decreases funds.len(),
{
    if funds.len() == 0 {
        0
    } else if funds[0].denom@ == denom {
        funds[0].amount
    } else {
        first_amount(funds.drop_first(), denom)
    }
}

fn sent_amount(funds: &Vec<Coin>, denom: &str) -> (r: u128)
    ensures
        r == first_amount(funds@, denom@),
{
    let d = String::from_str(denom);
    let mut i: usize = 0;
    assert(funds@.subrange(0, funds@.len() as int) =~= funds@);
    while i < funds.len()
        invariant
            i <= funds@.len(),
            d@ == denom@,
            first_amount(funds@.subrange(i as int, funds@.len() as int), denom@) == first_amount(
                funds@,
                denom@,
            ),
        decreases funds@.len() - i,
    {
        let ghost rest = funds@.subrange(i as int, funds@.len() as int);
        assert(rest.drop_first() =~= funds@.subrange(i + 1, funds@.len() as int));
        if funds[i].denom == d {
            return funds[i].amount;
        }
        i = i + 1;
    }
    0
}

/// `post` gives out the next context identifier after `pre`, and keeps the rest.
pub open spec fn next_context(pre: State, post: State) -> bool {
    &&& post.context_id == pre.context_id + 1
    &&& post.admin == pre.admin
    &&& post.stake_id == pre.stake_id
    &&& post.loan_id == pre.loan_id
}

/// `post` gives out the next stake identifier after `pre`, and keeps the rest.
pub open spec fn next_stake(pre: State, post: State) -> bool {
    &&& post.stake_id == pre.stake_id + 1
    &&& post.admin == pre.admin
    &&& post.context_id == pre.context_id
    &&& post.loan_id == pre.loan_id
}

/// A new store: the given admin, and no identifier given yet.
pub fn instantiate(msg: InstantiateMsg) -> (r: (State, Response))
    ensures
        r.0.admin == msg.admin,
        r.0.context_id == 0,
        r.0.stake_id == 0,
        r.0.loan_id == 0,
        r.1.sends().len() == 0,
        r.1.log() == seq![("method"@, "instantiate"@), ("admin"@, msg.admin@)],
{
    let mut resp = Response::new();
    resp.add_attribute("method", String::from_str("instantiate"));
    resp.add_attribute("admin", msg.admin.clone());
    (State { admin: msg.admin, context_id: 0, stake_id: 0, loan_id: 0 }, resp)
}

/// Records an exchange under the next context identifier.
pub fn execute_store_context(
    state: &mut State,
    sender: &String,
    now: Timestamp,
    user_query: String,
    ai_response: String,
    transaction_hash: String,
    success: bool,
) -> (r: Result<(Context, Response), StoreError>)
    ensures
        old(state).context_id == u64::MAX ==> r matches Err(StoreError::Overflow {}),
        r is Err ==> *final(state) == *old(state),
        old(state).context_id < u64::MAX ==> (r matches Ok((c, resp)) && next_context(
            *old(state),
            *final(state),
        ) && c.id == final(state).context_id && c.user@ == sender@ && c.user_query == user_query
            && c.ai_response == ai_response && c.transaction_hash == transaction_hash && c.timestamp
            == now && c.success == success && resp.sends().len() == 0 && resp.log() == seq![
            ("method"@, "store_context"@),
            ("context_id"@, decimal_digits(c.id as nat)),
            ("user"@, sender@),
        ]),
{
    if state.context_id == u64::MAX {
        return Err(StoreError::Overflow {});
    }
    state.context_id = state.context_id + 1;
    let context = Context {
        id: state.context_id,
        user: sender.clone(),
        user_query,
        ai_response,
        transaction_hash,
        timestamp: now,
        success,
    };
    let mut resp = Response::new();
    resp.add_attribute("method", String::from_str("store_context"));
    resp.add_attribute("context_id", amount_text(state.context_id as u128));
    resp.add_attribute("user", sender.clone());
    Ok((context, resp))
}

/// Records a stake of native funds under the next stake identifier, locked for the stake
/// period. The native funds sent must equal the amount named.
pub fn execute_stake(
    state: &mut State,
    sender: &String,
    now: Timestamp,
    funds: &Vec<Coin>,
    amount: u128,
) -> (r: Result<(Stake, Response), StoreError>)
    ensures
        r is Err ==> *final(state) == *old(state),
        if first_amount(funds@, "usei"@) != amount {
            r matches Err(StoreError::IncorrectAmount {})
        } else if old(state).stake_id == u64::MAX || now.nanos + STAKE_PERIOD_SECONDS
            * NANOS_PER_SECOND > u64::MAX {
            r matches Err(StoreError::Overflow {})
        } else {
            r matches Ok((s, resp)) && next_stake(*old(state), *final(state))
                && s.id == final(state).stake_id
                && s.user@ == sender@ && s.amount == amount && s.start_time == now
                && s.end_time.nanos == now.nanos + STAKE_PERIOD_SECONDS * NANOS_PER_SECOND
                && s.active && s.rewards == 0 && resp.sends().len() == 0 && resp.log() == seq![
                ("method"@, "stake"@),
                ("stake_id"@, decimal_digits(s.id as nat)),
                ("amount"@, decimal_digits(amount as nat)),
            ]
        },
{
    let sei_amount = sent_amount(funds, "usei");
    if sei_amount != amount {
        return Err(StoreError::IncorrectAmount {});
    }
    if state.stake_id == u64::MAX || now.nanos > u64::MAX - STAKE_PERIOD_SECONDS * NANOS_PER_SECOND {
        return Err(StoreError::Overflow {});
    }
    state.stake_id = state.stake_id + 1;
    let stake = Stake {
        id: state.stake_id,
        user: sender.clone(),
        amount,
        start_time: now,
        end_time: now.plus_seconds(STAKE_PERIOD_SECONDS),
        active: true,
        rewards: 0,
    };
    let mut resp = Response::new();
    resp.add_attribute("method", String::from_str("stake"));
    resp.add_attribute("stake_id", amount_text(state.stake_id as u128));
    resp.add_attribute("amount", amount_text(amount));
    Ok((stake, resp))
}

} // verus!
