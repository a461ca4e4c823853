use vstd::prelude::*;

use crate::decimal::Decimal;
use crate::table::TableKey;

verus! {

/// The one asset that the router can move by itself.
pub const NATIVE_DENOM: &'static str = "usei";

pub open spec fn native_denom() -> Seq<char> {
    NATIVE_DENOM@
}

pub fn is_native(denom: &String) -> (r: bool)
    ensures
        r == (denom@ == native_denom()),
{
    let native = String::from_str(NATIVE_DENOM);
    *denom == native
}

/// The administrator and the three services that the router works with.
#[derive(Clone, Debug)]
pub struct Config {
    pub admin: String,
    pub fee_collector: String,
    pub order_book: String,
    pub amm_factory: String,
}

impl Config {
    pub fn copy(&self) -> (r: Config)
        ensures
            r == *self,
    {
        Config {
            admin: self.admin.clone(),
            fee_collector: self.fee_collector.clone(),
            order_book: self.order_book.clone(),
            amm_factory: self.amm_factory.clone(),
        }
    }
}

#[derive(Clone, Copy, Debug, PartialEq, Eq, Structural)]
pub enum TradeType {
    Market,
    Limit,
    StopLoss,
    TakeProfit,
}

/// A resting order.
#[derive(Clone, Debug)]
pub struct Order {
    pub user: String,
    pub token_in: String,
    pub token_out: String,
    pub amount_in: u128,
    pub min_amount_out: u128,
    pub price: Decimal,
    pub trade_type: TradeType,
    pub deadline: u64,
    pub is_active: bool,
    pub order_id: String,
}

/// The same order, no longer active.
pub open spec fn deactivated(o: Order) -> Order {
    Order {
        user: o.user,
        token_in: o.token_in,
        token_out: o.token_out,
        amount_in: o.amount_in,
        min_amount_out: o.min_amount_out,
        price: o.price,
        trade_type: o.trade_type,
        deadline: o.deadline,
        is_active: false,
        order_id: o.order_id,
    }
}

impl Order {
    pub fn copy(&self) -> (r: Order)
        ensures
            r == *self,
    {
        Order {
            user: self.user.clone(),
            token_in: self.token_in.clone(),
            token_out: self.token_out.clone(),
            amount_in: self.amount_in,
            min_amount_out: self.min_amount_out,
            price: self.price,
            trade_type: self.trade_type,
            deadline: self.deadline,
            is_active: self.is_active,
            order_id: self.order_id.clone(),
        }
    }

    pub fn deactivate(&self) -> (r: Order)
        ensures
            r == deactivated(*self),
    {
        Order {
            user: self.user.clone(),
            token_in: self.token_in.clone(),
            token_out: self.token_out.clone(),
            amount_in: self.amount_in,
            min_amount_out: self.min_amount_out,
            price: self.price,
            trade_type: self.trade_type,
            deadline: self.deadline,
            is_active: false,
            order_id: self.order_id.clone(),
        }
    }
}

/// The fee on one asset: its rate, what it has brought in, and whether it is collected.
#[derive(Clone, Copy, Debug, PartialEq, Eq, Structural)]
pub struct FeeInfo {
    pub rate: Decimal,
    pub collected: u128,
    pub is_active: bool,
}

/// Totals over the trades that paid a fee.
#[derive(Clone, Copy, Debug, PartialEq, Eq, Structural)]
pub struct Stats {
    pub total_trades: u64,
    pub total_volume: u128,
    pub last_trade_time: u64,
}

/// A user's liquidity position in one asset.
#[derive(Clone, Debug)]
pub struct LiquidityKey {
    pub user: String,
    pub token: String,
}

impl View for LiquidityKey {
    type V = (Seq<char>, Seq<char>);

    open spec fn view(&self) -> (Seq<char>, Seq<char>) {
        (self.user@, self.token@)
    }
}

impl TableKey for LiquidityKey {
    fn same_key(&self, other: &Self) -> (r: bool) {
        self.user == other.user && self.token == other.token
    }
}

} // verus!
