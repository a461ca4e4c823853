use vstd::prelude::*;

use crate::decimal::Decimal;
use crate::state::{Order, TradeType};

verus! {

pub struct InstantiateMsg {
    pub admin: String,
    pub fee_collector: String,
    pub order_book: String,
    pub amm_factory: String,
}

pub enum ExecuteMsg {
    ExecuteMarketTrade {
        token_in: String,
        token_out: String,
        amount_in: u128,
        min_amount_out: u128,
        deadline: u64,
    },
    CreateLimitOrder {
        token_in: String,
        token_out: String,
        amount_in: u128,
        price: Decimal,
        deadline: u64,
    },
    CancelOrder { order_id: String },
    AddLiquidity {
        token_a: String,
        token_b: String,
        amount_a: u128,
        amount_b: u128,
        min_liquidity: u128,
    },
    RemoveLiquidity {
        token_a: String,
        token_b: String,
        liquidity: u128,
        min_amount_a: u128,
        min_amount_b: u128,
    },
    UpdateConfig {
        admin: Option<String>,
        fee_collector: Option<String>,
        order_book: Option<String>,
        amm_factory: Option<String>,
    },
    UpdateFeeRate { token: String, rate: Decimal },
    EmergencyWithdraw { token: String, amount: u128 },
}

pub enum QueryMsg {
    Config {},
    Order { order_id: String },
    UserOrders { user: String },
    UserLiquidity { user: String, token: String },
    FeeInfo { token: String },
    Stats {},
}

/// An amount of one denomination.
#[derive(Clone, Debug)]
pub struct Coin {
    pub denom: String,
    pub amount: u128,
}

/// Who makes a call, and the funds attached to it.
#[derive(Clone, Debug)]
pub struct MessageInfo {
    pub sender: String,
    pub funds: Vec<Coin>,
}

/// An instruction to the bank: send `amount` of `denom` to `to_address`.
#[derive(Clone, Debug)]
pub struct Transfer {
    pub to_address: String,
    pub denom: String,
    pub amount: u128,
}

#[derive(Clone, Debug)]
pub struct Attribute {
    pub key: String,
    pub value: String,
}

/// What a successful call hands back to its host: transfers to perform and a log.
#[derive(Clone, Debug)]
pub struct Response {
    pub messages: Vec<Transfer>,
    pub attributes: Vec<Attribute>,
}

pub open spec fn transfer_view(t: Transfer) -> (Seq<char>, Seq<char>, u128) {
    (t.to_address@, t.denom@, t.amount)
}

pub open spec fn attribute_view(a: Attribute) -> (Seq<char>, Seq<char>) {
    (a.key@, a.value@)
}

impl Response {
    /// The transfers, as (recipient, denomination, amount).
    pub open spec fn sends(&self) -> Seq<(Seq<char>, Seq<char>, u128)> {
        self.messages@.map_values(|t: Transfer| transfer_view(t))
    }

    /// The log, as (key, value) pairs.
    pub open spec fn log(&self) -> Seq<(Seq<char>, Seq<char>)> {
        self.attributes@.map_values(|a: Attribute| attribute_view(a))
    }

    pub fn new() -> (r: Response)
        ensures
            r.sends() == Seq::<(Seq<char>, Seq<char>, u128)>::empty(),
            r.log() == Seq::<(Seq<char>, Seq<char>)>::empty(),
    {
        let r = Response { messages: Vec::new(), attributes: Vec::new() };
        assert(r.sends() =~= Seq::<(Seq<char>, Seq<char>, u128)>::empty());
        assert(r.log() =~= Seq::<(Seq<char>, Seq<char>)>::empty());
        r
    }

    pub fn add_attribute(&mut self, key: &str, value: String)
        ensures
            final(self).log() == old(self).log().push((key@, value@)),
            final(self).sends() == old(self).sends(),
    {
        let a = Attribute { key: String::from_str(key), value };
        self.attributes.push(a);
        assert(final(self).log() =~= old(self).log().push((key@, value@)));
    }

    pub fn add_message(&mut self, to_address: String, denom: String, amount: u128)
        ensures
            final(self).sends() == old(self).sends().push((to_address@, denom@, amount)),
            final(self).log() == old(self).log(),
    {
        let t = Transfer { to_address, denom, amount };
        self.messages.push(t);
        assert(final(self).sends() =~= old(self).sends().push((to_address@, denom@, amount)));
    }
}

pub struct ConfigResponse {
    pub admin: String,
    pub fee_collector: String,
    pub order_book: String,
    pub amm_factory: String,
}

pub struct OrderResponse {
    pub order: Option<Order>,
}

pub struct OrdersResponse {
    pub orders: Vec<String>,
}

pub struct LiquidityResponse {
    pub balance: u128,
}

pub struct FeeInfoResponse {
    pub rate: Decimal,
    pub collected: u128,
    pub is_active: bool,
}

pub struct StatsResponse {
    pub total_trades: u64,
    pub total_volume: u128,
    pub last_trade_time: u64,
}

/// The answer to a query, one variant for each kind of query.
pub enum QueryResponse {
    Config(ConfigResponse),
    Order(OrderResponse),
    UserOrders(OrdersResponse),
    UserLiquidity(LiquidityResponse),
    FeeInfo(FeeInfoResponse),
    Stats(StatsResponse),
}

} // verus!
