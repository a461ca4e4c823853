use vstd::prelude::*;

use crate::decimal::{
    decimal_text, lemma_mul_floor_at_most_amount, mul_floor_spec, ratio_atomics, Decimal,
};
use crate::error::ContractError;
use crate::msg::{
    ConfigResponse, ExecuteMsg, FeeInfoResponse, InstantiateMsg, LiquidityResponse, MessageInfo, OrderResponse,
    OrdersResponse, QueryMsg, QueryResponse, Response, StatsResponse,
};
use crate::payment::{must_pay, pays_one_coin};
use crate::pricing::PriceOracle;
use crate::state::{
    deactivated, is_native, native_denom, Config, FeeInfo, LiquidityKey, Order, Stats, TradeType, NATIVE_DENOM,
};
use crate::table::{entries_map, lemma_binding_has_entry, Table};
use crate::text::{amount_text, dash_join, decimal_digits};

verus! {

/// The fee rate of an asset that has none stored: 25 in 10000.
pub open spec fn default_fee_rate() -> int {
    ratio_atomics(25, 10000)
}

/// The highest fee rate that the admin may set: 1000 in 10000.
pub open spec fn max_fee_rate() -> int {
    ratio_atomics(1000, 10000)
}

pub open spec fn default_fee_info() -> FeeInfo {
    FeeInfo { rate: Decimal { atomics: default_fee_rate() as u128 }, collected: 0, is_active: true }
}

pub open spec fn digits(n: int) -> Seq<char> {
    decimal_digits(n as nat)
}

/// The identifier logged for a market trade.
pub open spec fn market_order_id(
    sender: Seq<char>,
    token_in: Seq<char>,
    token_out: Seq<char>,
    now: u64,
) -> Seq<char> {
    sender + seq!['-'] + token_in + seq!['-'] + token_out + seq!['-'] + digits(now as int)
}

/// The identifier of a limit order.
pub open spec fn limit_order_id(
    sender: Seq<char>,
    token_in: Seq<char>,
    token_out: Seq<char>,
    amount_in: u128,
    now: u64,
) -> Seq<char> {
    sender + seq!['-'] + token_in + seq!['-'] + token_out + seq!['-'] + digits(amount_in as int)
        + seq!['-'] + digits(now as int)
}

/// The ledger of the router: its configuration, statistics, orders, liquidity and fees.
pub struct Router {
    config: Config,
    stats: Stats,
    orders: Table<String, Order>,
    user_orders: Table<String, Vec<String>>,
    liquidity: Table<LiquidityKey, u128>,
    fee_rates: Table<String, FeeInfo>,
}

impl Router {
    pub closed spec fn config_spec(&self) -> Config {
        self.config
    }

    pub closed spec fn stats_spec(&self) -> Stats {
        self.stats
    }

    /// The orders, by identifier.
    pub closed spec fn orders_spec(&self) -> Map<Seq<char>, Order> {
        self.orders@
    }

    /// The identifiers of each user's orders, in order of creation.
    pub closed spec fn user_orders_spec(&self) -> Map<Seq<char>, Vec<String>> {
        self.user_orders@
    }

    /// Liquidity balances, by (user, asset).
    pub closed spec fn liquidity_spec(&self) -> Map<(Seq<char>, Seq<char>), u128> {
        self.liquidity@
    }

    /// Stored fee records, by asset.
    pub closed spec fn fee_rates_spec(&self) -> Map<Seq<char>, FeeInfo> {
        self.fee_rates@
    }

    /// The fee record that applies to an asset: the stored one, or the default.
    pub open spec fn fee_info_of(&self, token: Seq<char>) -> FeeInfo {
        if self.fee_rates_spec().contains_key(token) {
            self.fee_rates_spec()[token]
        } else {
            default_fee_info()
        }
    }

    /// A user's liquidity balance in an asset; zero where none is stored.
    pub open spec fn balance_of(&self, user: Seq<char>, token: Seq<char>) -> u128 {
        if self.liquidity_spec().contains_key((user, token)) {
            self.liquidity_spec()[(user, token)]
        } else {
            0
        }
    }

    /// The identifiers of a user's orders; empty where none is stored.
    pub open spec fn order_ids_of(&self, user: Seq<char>) -> Seq<Seq<char>> {
        if self.user_orders_spec().contains_key(user) {
            self.user_orders_spec()[user]@.map_values(|s: String| s@)
        } else {
            Seq::empty()
        }
    }

    /// Every stored fee rate is within the cap, and every identifier in a user's list names a
    /// stored order of that user.
    pub open spec fn wf(&self) -> bool {
        &&& forall|t: Seq<char>| #[trigger]
            self.fee_rates_spec().contains_key(t) ==> self.fee_rates_spec()[t].rate.atomics
                <= max_fee_rate()
        &&& forall|u: Seq<char>, id: Seq<char>| #[trigger]
            self.order_ids_of(u).contains(id) ==> self.orders_spec().contains_key(id)
                && self.orders_spec()[id].user@ == u
    }

    /// Everything but the fee records and the statistics is as in `other`.
    pub open spec fn same_ledgers(&self, other: Router) -> bool {
        &&& self.config_spec() == other.config_spec()
        &&& self.orders_spec() == other.orders_spec()
        &&& self.user_orders_spec() == other.user_orders_spec()
        &&& self.liquidity_spec() == other.liquidity_spec()
    }
}

/// The log of a market trade, before the fee entries.
pub open spec fn trade_log(
    sender: Seq<char>,
    token_in: Seq<char>,
    token_out: Seq<char>,
    amount_in: u128,
    amount_out: u128,
) -> Seq<(Seq<char>, Seq<char>)> {
    seq![
        ("method"@, "execute_market_trade"@),
        ("user"@, sender),
        ("token_in"@, token_in),
        ("token_out"@, token_out),
        ("amount_in"@, digits(amount_in as int)),
        ("amount_out"@, digits(amount_out as int)),
    ]
}

/// What a market trade does. The fee is the amount times the asset's rate, rounded down;
/// the rest is priced by `pricer`. A trade that pays a fee must be in the native asset: it
/// adds the fee to the asset's collected total, counts the trade in the statistics and sends
/// the fee to the fee collector. A trade without fee changes nothing.
pub open spec fn market_trade_post<P: PriceOracle>(
    pre: Router,
    post: Router,
    pricer: P,
    now: u64,
    sender: Seq<char>,
    token_in: Seq<char>,
    token_out: Seq<char>,
    amount_in: u128,
    min_amount_out: u128,
    deadline: u64,
    r: Result<Response, ContractError>,
) -> bool {
    let fi = pre.fee_info_of(token_in);
    let fee = mul_floor_spec(amount_in as int, fi.rate.atomics as int);
    let out = pricer.quote_spec(token_in, token_out, (amount_in - fee) as u128);
    let stats = pre.stats_spec();
    &&& r is Err ==> post == pre
    &&& if now > deadline {
        r matches Err(ContractError::TradeExpired {})
    } else if amount_in == 0 {
        r matches Err(ContractError::InvalidAmount {})
    } else if token_in == token_out {
        r matches Err(ContractError::SameToken {})
    } else if !fi.is_active {
        r matches Err(ContractError::FeeCollectionInactive {})
    } else if out < min_amount_out {
        r matches Err(ContractError::InsufficientOutputAmount {})
    } else if fee == 0 {
        &&& post == pre
        &&& r matches Ok(resp) && resp.sends().len() == 0 && resp.log() == trade_log(
            sender,
            token_in,
            token_out,
            amount_in,
            out,
        )
    } else if token_in != native_denom() {
        r matches Err(ContractError::UnsupportedToken { token }) && token@ == token_in
    } else if fi.collected + fee > u128::MAX || stats.total_volume + amount_in > u128::MAX
        || stats.total_trades + 1 > u64::MAX {
        r matches Err(ContractError::Overflow {})
    } else {
        &&& post.same_ledgers(pre)
        &&& post.fee_rates_spec() == pre.fee_rates_spec().insert(
            token_in,
            FeeInfo { rate: fi.rate, collected: (fi.collected + fee) as u128, is_active: true },
        )
        &&& post.stats_spec() == Stats {
            total_trades: (stats.total_trades + 1) as u64,
            total_volume: (stats.total_volume + amount_in) as u128,
            last_trade_time: now,
        }
        &&& r matches Ok(resp) && resp.sends() == seq![
            (pre.config_spec().fee_collector@, native_denom(), fee as u128),
        ] && resp.log() == trade_log(sender, token_in, token_out, amount_in, out).push(
            ("fee"@, digits(fee)),
        ).push(("order_id"@, market_order_id(sender, token_in, token_out, now)))
    }
}

/// A ledger whose orders and lists are as in a well-formed one, and whose fee rates are all
/// within the cap, is well formed.
proof fn lemma_wf_frame(pre: Router, post: Router)
    requires
        pre.wf(),
        post.orders_spec() == pre.orders_spec(),
        post.user_orders_spec() == pre.user_orders_spec(),
        forall|t: Seq<char>| #[trigger]
            post.fee_rates_spec().contains_key(t) ==> post.fee_rates_spec()[t].rate.atomics
                <= max_fee_rate(),
    ensures
        post.wf(),
{
    assert forall|u: Seq<char>, id: Seq<char>| #[trigger]
        post.order_ids_of(u).contains(id) implies post.orders_spec().contains_key(id)
        && post.orders_spec()[id].user@ == u by {
        assert(post.order_ids_of(u) == pre.order_ids_of(u));
    }
}

fn default_fee() -> (f: FeeInfo)
    ensures
        f == default_fee_info(),
{
    assert(ratio_atomics(25, 10000) == 2_500_000_000_000_000);
    FeeInfo { rate: Decimal::from_ratio(25, 10000), collected: 0, is_active: true }
}

fn market_id(sender: &String, token_in: &String, token_out: &String, now: u64) -> (r: String)
    ensures
        r@ == market_order_id(sender@, token_in@, token_out@, now),
{
    let s = dash_join(sender.clone(), token_in.as_str());
    let s = dash_join(s, token_out.as_str());
    let t = amount_text(now as u128);
    dash_join(s, t.as_str())
}

/// `o` is the limit order that `sender` places at time `now`.
pub open spec fn is_new_limit_order(
    o: Order,
    sender: Seq<char>,
    token_in: Seq<char>,
    token_out: Seq<char>,
    amount_in: u128,
    price: Decimal,
    deadline: u64,
    now: u64,
) -> bool {
    &&& o.user@ == sender
    &&& o.token_in@ == token_in
    &&& o.token_out@ == token_out
    &&& o.amount_in == amount_in
    &&& o.min_amount_out == 0
    &&& o.price == price
    &&& o.trade_type == TradeType::Limit
    &&& o.deadline == deadline
    &&& o.is_active
    &&& o.order_id@ == limit_order_id(sender, token_in, token_out, amount_in, now)
}

/// What placing a limit order does. An identifier that is already stored is refused, so no
/// stored order is ever replaced. An order that sells the native asset must come with one
/// coin of it, at least as much as it sells. The order is stored under its identifier, active,
/// and the identifier is appended to the sender's list.
pub open spec fn create_limit_order_post(
    pre: Router,
    post: Router,
    now: u64,
    info: MessageInfo,
    token_in: Seq<char>,
    token_out: Seq<char>,
    amount_in: u128,
    price: Decimal,
    deadline: u64,
    r: Result<Response, ContractError>,
) -> bool {
    let sender = info.sender@;
    let id = limit_order_id(sender, token_in, token_out, amount_in, now);
    &&& r is Err ==> post == pre
    &&& if now > deadline {
        r matches Err(ContractError::OrderExpired {})
    } else if amount_in == 0 || price.atomics == 0 {
        r matches Err(ContractError::InvalidAmount {})
    } else if token_in == token_out {
        r matches Err(ContractError::SameToken {})
    } else if pre.orders_spec().contains_key(id) {
        r matches Err(ContractError::DuplicateOrder {})
    } else if token_in == native_denom() && !pays_one_coin(info.funds@, native_denom()) {
        r matches Err(ContractError::Payment(_))
    } else if token_in == native_denom() && info.funds@[0].amount < amount_in {
        r matches Err(ContractError::InsufficientPayment { required, sent }) && required
            == amount_in && sent == info.funds@[0].amount
    } else {
        &&& post.orders_spec().contains_key(id)
        &&& is_new_limit_order(
            post.orders_spec()[id],
            sender,
            token_in,
            token_out,
            amount_in,
            price,
            deadline,
            now,
        )
        &&& post.orders_spec().remove(id) == pre.orders_spec().remove(id)
        &&& post.order_ids_of(sender) == pre.order_ids_of(sender).push(id)
        &&& post.user_orders_spec().remove(sender) == pre.user_orders_spec().remove(sender)
        &&& post.config_spec() == pre.config_spec()
        &&& post.stats_spec() == pre.stats_spec()
        &&& post.liquidity_spec() == pre.liquidity_spec()
        &&& post.fee_rates_spec() == pre.fee_rates_spec()
        &&& r matches Ok(resp) && resp.sends().len() == 0 && resp.log() == seq![
            ("method"@, "create_limit_order"@),
            ("user"@, sender),
            ("order_id"@, id),
            ("token_in"@, token_in),
            ("token_out"@, token_out),
            ("amount_in"@, digits(amount_in as int)),
            ("price"@, decimal_text(price.atomics)),
        ]
    }
}

/// What cancelling an order does. Only the owner may cancel, and only an active order. The
/// order stays stored, inactive; a native-asset order's amount is sent back to its owner.
pub open spec fn cancel_order_post(
    pre: Router,
    post: Router,
    sender: Seq<char>,
    order_id: Seq<char>,
    r: Result<Response, ContractError>,
) -> bool {
    let o = pre.orders_spec()[order_id];
    &&& r is Err ==> post == pre
    &&& if !pre.orders_spec().contains_key(order_id) {
        r matches Err(ContractError::OrderNotFound {})
    } else if o.user@ != sender {
        r matches Err(ContractError::Unauthorized {})
    } else if !o.is_active {
        r matches Err(ContractError::OrderNotActive {})
    } else {
        &&& post.orders_spec() == pre.orders_spec().insert(order_id, deactivated(o))
        &&& post.user_orders_spec() == pre.user_orders_spec()
        &&& post.config_spec() == pre.config_spec()
        &&& post.stats_spec() == pre.stats_spec()
        &&& post.liquidity_spec() == pre.liquidity_spec()
        &&& post.fee_rates_spec() == pre.fee_rates_spec()
        &&& r matches Ok(resp) && resp.sends() == (if o.token_in@ == native_denom() {
            seq![(sender, native_denom(), o.amount_in)]
        } else {
            Seq::empty()
        }) && resp.log() == seq![
            ("method"@, "cancel_order"@),
            ("user"@, sender),
            ("order_id"@, order_id),
        ]
    }
}

fn limit_id(
    sender: &String,
    token_in: &String,
    token_out: &String,
    amount_in: u128,
    now: u64,
) -> (r: String)
    ensures
        r@ == limit_order_id(sender@, token_in@, token_out@, amount_in, now),
{
    let s = dash_join(sender.clone(), token_in.as_str());
    let s = dash_join(s, token_out.as_str());
    let a = amount_text(amount_in);
    let s = dash_join(s, a.as_str());
    let t = amount_text(now as u128);
    dash_join(s, t.as_str())
}

fn copy_ids(v: &Vec<String>) -> (r: Vec<String>)
    ensures
        r@ == v@,
{
    let mut r: Vec<String> = Vec::new();
    let mut i: usize = 0;
    while i < v.len()
        invariant
            i <= v@.len(),
            r@ == v@.subrange(0, i as int),
        decreases v@.len() - i,
    {
        r.push(v[i].clone());
        i = i + 1;
        assert(r@ =~= v@.subrange(0, i as int));
    }
    assert(v@.subrange(0, v@.len() as int) =~= v@);
    r
}

/// What adding liquidity does. Both amounts must be positive and the assets distinct; their
/// sum is the credit, which must reach `min_liquidity`. Each amount is added to the sender's
/// balance in its own asset.
pub open spec fn add_liquidity_post(
    pre: Router,
    post: Router,
    sender: Seq<char>,
    token_a: Seq<char>,
    token_b: Seq<char>,
    amount_a: u128,
    amount_b: u128,
    min_liquidity: u128,
    r: Result<Response, ContractError>,
) -> bool {
    let ba = pre.balance_of(sender, token_a);
    let bb = pre.balance_of(sender, token_b);
    &&& r is Err ==> post == pre
    &&& if amount_a == 0 || amount_b == 0 {
        r matches Err(ContractError::InvalidAmount {})
    } else if token_a == token_b {
        r matches Err(ContractError::SameToken {})
    } else if amount_a + amount_b > u128::MAX {
        r matches Err(ContractError::Overflow {})
    } else if amount_a + amount_b < min_liquidity {
        r matches Err(ContractError::InsufficientLiquidity {})
    } else if ba + amount_a > u128::MAX || bb + amount_b > u128::MAX {
        r matches Err(ContractError::Overflow {})
    } else {
        &&& post.liquidity_spec() == pre.liquidity_spec().insert(
            (sender, token_a),
            (ba + amount_a) as u128,
        ).insert((sender, token_b), (bb + amount_b) as u128)
        &&& post.config_spec() == pre.config_spec()
        &&& post.stats_spec() == pre.stats_spec()
        &&& post.orders_spec() == pre.orders_spec()
        &&& post.user_orders_spec() == pre.user_orders_spec()
        &&& post.fee_rates_spec() == pre.fee_rates_spec()
        &&& r matches Ok(resp) && resp.sends().len() == 0 && resp.log() == seq![
            ("method"@, "add_liquidity"@),
            ("user"@, sender),
            ("token_a"@, token_a),
            ("token_b"@, token_b),
            ("amount_a"@, digits(amount_a as int)),
            ("amount_b"@, digits(amount_b as int)),
            ("liquidity"@, digits(amount_a + amount_b)),
        ]
    }
}

/// What removing liquidity does. Half of `liquidity`, rounded down, is taken from the
/// sender's balance in each asset and sent back to the sender. A removal that passes the
/// checks on its minimums and balances but names one asset twice is refused, since it would
/// send the half twice while the balance falls once.
pub open spec fn remove_liquidity_post(
    pre: Router,
    post: Router,
    sender: Seq<char>,
    token_a: Seq<char>,
    token_b: Seq<char>,
    liquidity: u128,
    min_amount_a: u128,
    min_amount_b: u128,
    r: Result<Response, ContractError>,
) -> bool {
    let half = liquidity / 2;
    let ba = pre.balance_of(sender, token_a);
    let bb = pre.balance_of(sender, token_b);
    &&& r is Err ==> post == pre
    &&& if liquidity == 0 {
        r matches Err(ContractError::InvalidAmount {})
    } else if half < min_amount_a || half < min_amount_b {
        r matches Err(ContractError::InsufficientOutputAmount {})
    } else if ba < half || bb < half {
        r matches Err(ContractError::InsufficientBalance {})
    } else if token_a == token_b {
        r matches Err(ContractError::SameToken {})
    } else {
        &&& post.liquidity_spec() == pre.liquidity_spec().insert(
            (sender, token_a),
            (ba - half) as u128,
        ).insert((sender, token_b), (bb - half) as u128)
        &&& post.config_spec() == pre.config_spec()
        &&& post.stats_spec() == pre.stats_spec()
        &&& post.orders_spec() == pre.orders_spec()
        &&& post.user_orders_spec() == pre.user_orders_spec()
        &&& post.fee_rates_spec() == pre.fee_rates_spec()
        &&& r matches Ok(resp) && resp.sends() == seq![
            (sender, token_a, half),
            (sender, token_b, half),
        ] && resp.log() == seq![
            ("method"@, "remove_liquidity"@),
            ("user"@, sender),
            ("token_a"@, token_a),
            ("token_b"@, token_b),
            ("amount_a"@, digits(half as int)),
            ("amount_b"@, digits(half as int)),
        ]
    }
}

/// The new value where one is given, else the current one.
pub open spec fn given_or(new: Option<String>, current: String) -> String {
    match new {
        Some(v) => v,
        None => current,
    }
}

/// What updating the configuration does: only the admin may, and each given field replaces
/// the stored one.
pub open spec fn update_config_post(
    pre: Router,
    post: Router,
    sender: Seq<char>,
    admin: Option<String>,
    fee_collector: Option<String>,
    order_book: Option<String>,
    amm_factory: Option<String>,
    r: Result<Response, ContractError>,
) -> bool {
    let c = pre.config_spec();
    let n = Config {
        admin: given_or(admin, c.admin),
        fee_collector: given_or(fee_collector, c.fee_collector),
        order_book: given_or(order_book, c.order_book),
        amm_factory: given_or(amm_factory, c.amm_factory),
    };
    &&& r is Err ==> post == pre
    &&& if sender != c.admin@ {
        r matches Err(ContractError::Unauthorized {})
    } else {
        &&& post.config_spec() == n
        &&& post.stats_spec() == pre.stats_spec()
        &&& post.orders_spec() == pre.orders_spec()
        &&& post.user_orders_spec() == pre.user_orders_spec()
        &&& post.liquidity_spec() == pre.liquidity_spec()
        &&& post.fee_rates_spec() == pre.fee_rates_spec()
        &&& r matches Ok(resp) && resp.sends().len() == 0 && resp.log() == seq![
            ("method"@, "update_config"@),
            ("admin"@, n.admin@),
        ]
    }
}

/// What updating a fee rate does: only the admin may, the rate may not pass the cap, and
/// the asset's record takes the new rate and keeps the rest (a new record has collected
/// nothing and is active).
pub open spec fn update_fee_rate_post(
    pre: Router,
    post: Router,
    sender: Seq<char>,
    token: Seq<char>,
    rate: Decimal,
    r: Result<Response, ContractError>,
) -> bool {
    let base = if pre.fee_rates_spec().contains_key(token) {
        pre.fee_rates_spec()[token]
    } else {
        FeeInfo { rate: Decimal { atomics: 0 }, collected: 0, is_active: true }
    };
    &&& r is Err ==> post == pre
    &&& if sender != pre.config_spec().admin@ {
        r matches Err(ContractError::Unauthorized {})
    } else if rate.atomics > max_fee_rate() {
        r matches Err(ContractError::InvalidFeeRate {})
    } else {
        &&& post.fee_rates_spec() == pre.fee_rates_spec().insert(
            token,
            FeeInfo { rate, collected: base.collected, is_active: base.is_active },
        )
        &&& post.same_ledgers(pre)
        &&& post.stats_spec() == pre.stats_spec()
        &&& r matches Ok(resp) && resp.sends().len() == 0 && resp.log() == seq![
            ("method"@, "update_fee_rate"@),
            ("token"@, token),
            ("rate"@, decimal_text(rate.atomics)),
        ]
    }
}

/// What an emergency withdrawal returns: only the admin may ask, for a positive amount,
/// which is sent to the admin. No ledger entry changes.
pub open spec fn emergency_withdraw_post(
    pre: Router,
    sender: Seq<char>,
    token: Seq<char>,
    amount: u128,
    r: Result<Response, ContractError>,
) -> bool {
    if sender != pre.config_spec().admin@ {
        r matches Err(ContractError::Unauthorized {})
    } else if amount == 0 {
        r matches Err(ContractError::InvalidAmount {})
    } else {
        r matches Ok(resp) && resp.sends() == seq![(pre.config_spec().admin@, token, amount)]
            && resp.log() == seq![
            ("method"@, "emergency_withdraw"@),
            ("token"@, token),
            ("amount"@, digits(amount as int)),
        ]
    }
}

fn given_or_keep(new: Option<String>, current: &String) -> (r: String)
    ensures
        r == given_or(new, *current),
{
    match new {
        Some(v) => v,
        None => current.clone(),
    }
}

/// A new ledger: the given configuration, zero statistics, no orders or liquidity, and
/// the default fee record for the native asset.
pub fn instantiate(msg: InstantiateMsg) -> (r: (Router, Response))
    ensures
        r.0.config_spec() == (Config {
            admin: msg.admin,
            fee_collector: msg.fee_collector,
            order_book: msg.order_book,
            amm_factory: msg.amm_factory,
        }),
        r.0.stats_spec() == (Stats { total_trades: 0, total_volume: 0, last_trade_time: 0 }),
        r.0.orders_spec() == Map::<Seq<char>, Order>::empty(),
        r.0.user_orders_spec() == Map::<Seq<char>, Vec<String>>::empty(),
        r.0.liquidity_spec() == Map::<(Seq<char>, Seq<char>), u128>::empty(),
        r.0.fee_rates_spec() == Map::<Seq<char>, FeeInfo>::empty().insert(
            native_denom(),
            default_fee_info(),
        ),
        r.0.wf(),
        r.1.sends().len() == 0,
        r.1.log() == seq![("method"@, "instantiate"@), ("admin"@, msg.admin@)],
{
    let mut resp = Response::new();
    resp.add_attribute("method", String::from_str("instantiate"));
    resp.add_attribute("admin", msg.admin.clone());
    let mut fee_rates = Table::new();
    fee_rates.set(String::from_str(NATIVE_DENOM), default_fee());
    let router = Router {
        config: Config {
            admin: msg.admin,
            fee_collector: msg.fee_collector,
            order_book: msg.order_book,
            amm_factory: msg.amm_factory,
        },
        stats: Stats { total_trades: 0, total_volume: 0, last_trade_time: 0 },
        orders: Table::new(),
        user_orders: Table::new(),
        liquidity: Table::new(),
        fee_rates,
    };
    assert(ratio_atomics(25, 10000) <= ratio_atomics(1000, 10000));
    (router, resp)
}

/// The ledger laid out as plain values, for a host to store and load.
pub struct RouterParts {
    pub config: Config,
    pub stats: Stats,
    pub orders: Vec<(String, Order)>,
    pub user_orders: Vec<(String, Vec<String>)>,
    pub liquidity: Vec<(LiquidityKey, u128)>,
    pub fee_rates: Vec<(String, FeeInfo)>,
}

/// Every fee record laid out in `fee_rates` is within the cap.
pub open spec fn rates_within_cap(fee_rates: Seq<(String, FeeInfo)>) -> bool {
    forall|j: int| 0 <= j < fee_rates.len() ==> #[trigger] fee_rates[j].1.rate.atomics <= max_fee_rate()
}

/// Every identifier in every list laid out in `lists` names an order in `orders` of that
/// list's user.
pub open spec fn lists_owned(orders: Map<Seq<char>, Order>, lists: Seq<(String, Vec<String>)>) -> bool {
    forall|j: int, k: int|
        0 <= j < lists.len() && 0 <= k < lists[j].1@.len() ==> orders.contains_key(
            #[trigger] lists[j].1@[k]@,
        ) && orders[lists[j].1@[k]@].user@ == lists[j].0@
}

impl Router {
    /// The ledger that `parts` lay out; none where a fee rate in them passes the cap, or where a
    /// user's list names an identifier that is not a stored order of that user.
    pub fn from_parts(parts: RouterParts) -> (r: Option<Router>)
        ensures
            match r {
                Some(router) => {
                    &&& router.wf()
                    &&& router.config_spec() == parts.config
                    &&& router.stats_spec() == parts.stats
                    &&& router.orders_spec() == entries_map(parts.orders@)
                    &&& router.user_orders_spec() == entries_map(parts.user_orders@)
                    &&& router.liquidity_spec() == entries_map(parts.liquidity@)
                    &&& router.fee_rates_spec() == entries_map(parts.fee_rates@)
                },
                None => !rates_within_cap(parts.fee_rates@) || !lists_owned(
                    entries_map(parts.orders@),
                    parts.user_orders@,
                ),
            },
    {
        assert(ratio_atomics(1000, 10000) == 100_000_000_000_000_000);
        let cap = Decimal::from_ratio(1000, 10000);
        let mut i: usize = 0;
        while i < parts.fee_rates.len()
            invariant
                i <= parts.fee_rates@.len(),
                cap.atomics == max_fee_rate(),
                forall|j: int| 0 <= j < i ==> #[trigger] parts.fee_rates@[j].1.rate.atomics
                    <= max_fee_rate(),
            decreases parts.fee_rates@.len() - i,
        {
            if parts.fee_rates[i].1.rate.atomics > cap.atomics {
                return None;
            }
            i = i + 1;
        }
        let ghost om = entries_map(parts.orders@);
        let orders = Table::from_entries(parts.orders);
        let lists = parts.user_orders;
        let mut j: usize = 0;
        while j < lists.len()
            invariant
                j <= lists@.len(),
                orders@ == om,
                om == entries_map(parts.orders@),
                lists@ == parts.user_orders@,
                forall|jj: int, k: int|
                    0 <= jj < j && 0 <= k < lists@[jj].1@.len() ==> om.contains_key(
                        #[trigger] lists@[jj].1@[k]@,
                    ) && om[lists@[jj].1@[k]@].user@ == lists@[jj].0@,
            decreases lists@.len() - j,
        {
            let ids = &lists[j].1;
            let mut k: usize = 0;
            while k < ids.len()
                invariant
                    j < lists@.len(),
                    om == entries_map(parts.orders@),
                    lists@ == parts.user_orders@,
                    k <= ids@.len(),
                    ids@ == lists@[j as int].1@,
                    orders@ == om,
                    forall|kk: int|
                        0 <= kk < k ==> om.contains_key(#[trigger] ids@[kk]@) && om[ids@[kk]@].user@
                            == lists@[j as int].0@,
                decreases ids@.len() - k,
            {
                match orders.get(&ids[k]) {
                    Some(o) => {
                        if o.user != lists[j].0 {
                            assert(lists@[j as int].1@[k as int]@ == ids@[k as int]@);
                            assert(!lists_owned(om, lists@));
                            return None;
                        }
                    },
                    None => {
                        assert(lists@[j as int].1@[k as int]@ == ids@[k as int]@);
                        assert(!lists_owned(om, lists@));
                        return None;
                    },
                }
                k = k + 1;
            }
            assert forall|jj: int, kk: int|
                0 <= jj < j + 1 && 0 <= kk < lists@[jj].1@.len() implies om.contains_key(
                    #[trigger] lists@[jj].1@[kk]@,
                ) && om[lists@[jj].1@[kk]@].user@ == lists@[jj].0@ by {
                if jj == j {
                    assert(ids@[kk]@ == lists@[jj].1@[kk]@);
                }
            }
            j = j + 1;
        }
        let router = Router {
            config: parts.config,
            stats: parts.stats,
            orders,
            user_orders: Table::from_entries(lists),
            liquidity: Table::from_entries(parts.liquidity),
            fee_rates: Table::from_entries(parts.fee_rates),
        };
        assert forall|t: Seq<char>| #[trigger]
            router.fee_rates_spec().contains_key(t) implies router.fee_rates_spec()[t].rate.atomics
            <= max_fee_rate() by {
            lemma_binding_has_entry(parts.fee_rates@, t);
        }
        assert forall|u: Seq<char>, x: Seq<char>| #[trigger]
            router.order_ids_of(u).contains(x) implies router.orders_spec().contains_key(x)
            && router.orders_spec()[x].user@ == u by {
            lemma_binding_has_entry(lists@, u);
            let jj = choose|jj: int|
                0 <= jj < lists@.len() && lists@[jj].0@ == u && #[trigger] lists@[jj].1
                    == entries_map(lists@)[u];
            let kk = choose|kk: int|
                0 <= kk < router.order_ids_of(u).len() && router.order_ids_of(u)[kk] == x;
            assert(lists@[jj].1@[kk]@ == x);
        }
        Some(router)
    }

    /// The ledger laid out as plain values.
    pub fn into_parts(self) -> (p: RouterParts)
        ensures
            p.config == self.config_spec(),
            p.stats == self.stats_spec(),
            entries_map(p.orders@) == self.orders_spec(),
            entries_map(p.user_orders@) == self.user_orders_spec(),
            entries_map(p.liquidity@) == self.liquidity_spec(),
            entries_map(p.fee_rates@) == self.fee_rates_spec(),
    {
        RouterParts {
            config: self.config,
            stats: self.stats,
            orders: self.orders.into_entries(),
            user_orders: self.user_orders.into_entries(),
            liquidity: self.liquidity.into_entries(),
            fee_rates: self.fee_rates.into_entries(),
        }
    }

    /// The fee record that applies to an asset.
    fn fee_info(&self, token: &String) -> (f: FeeInfo)
        ensures
            f == self.fee_info_of(token@),
    {
        match self.fee_rates.get(token) {
            Some(f) => *f,
            None => default_fee(),
        }
    }

    pub fn execute_market_trade<P: PriceOracle>(
        &mut self,
        pricer: &P,
        now: u64,
        sender: &String,
        token_in: String,
        token_out: String,
        amount_in: u128,
        min_amount_out: u128,
        deadline: u64,
    ) -> (r: Result<Response, ContractError>)
        requires
            old(self).wf(),
        ensures
            final(self).wf(),
            market_trade_post(
                *old(self),
                *final(self),
                *pricer,
                now,
                sender@,
                token_in@,
                token_out@,
                amount_in,
                min_amount_out,
                deadline,
                r,
            ),
    {
        if now > deadline {
            return Err(ContractError::TradeExpired {});
        }
        if amount_in == 0 {
            return Err(ContractError::InvalidAmount {});
        }
        if token_in == token_out {
            return Err(ContractError::SameToken {});
        }
        let fee_info = self.fee_info(&token_in);
        if !fee_info.is_active {
            return Err(ContractError::FeeCollectionInactive {});
        }
        assert(ratio_atomics(1000, 10000) <= 1_000_000_000_000_000_000);
        assert(ratio_atomics(25, 10000) <= ratio_atomics(1000, 10000));
        proof {
            lemma_mul_floor_at_most_amount(amount_in as int, fee_info.rate.atomics as int);
        }
        let fee = fee_info.rate.mul_floor(amount_in);
        let amount_after_fee = amount_in - fee;
        let amount_out = pricer.quote(&token_in, &token_out, amount_after_fee);
        if amount_out < min_amount_out {
            return Err(ContractError::InsufficientOutputAmount {});
        }
        let mut resp = Response::new();
        resp.add_attribute("method", String::from_str("execute_market_trade"));
        resp.add_attribute("user", sender.clone());
        resp.add_attribute("token_in", token_in.clone());
        resp.add_attribute("token_out", token_out.clone());
        resp.add_attribute("amount_in", amount_text(amount_in));
        resp.add_attribute("amount_out", amount_text(amount_out));
        assert(resp.log() == trade_log(sender@, token_in@, token_out@, amount_in, amount_out));
        if fee == 0 {
            return Ok(resp);
        }
        if !is_native(&token_in) {
            return Err(ContractError::UnsupportedToken { token: token_in });
        }
        let collected = match fee_info.collected.checked_add(fee) {
            Some(c) => c,
            None => return Err(ContractError::Overflow {}),
        };
        let total_volume = match self.stats.total_volume.checked_add(amount_in) {
            Some(v) => v,
            None => return Err(ContractError::Overflow {}),
        };
        let total_trades = match self.stats.total_trades.checked_add(1) {
            Some(t) => t,
            None => return Err(ContractError::Overflow {}),
        };
        let order_id = market_id(sender, &token_in, &token_out, now);
        self.fee_rates.set(
            token_in,
            FeeInfo { rate: fee_info.rate, collected, is_active: fee_info.is_active },
        );
        self.stats = Stats { total_trades, total_volume, last_trade_time: now };
        resp.add_message(self.config.fee_collector.clone(), String::from_str(NATIVE_DENOM), fee);
        resp.add_attribute("fee", amount_text(fee));
        resp.add_attribute("order_id", order_id);
        proof {
            assert forall|t: Seq<char>| #[trigger]
                self.fee_rates_spec().contains_key(t) implies self.fee_rates_spec()[t].rate.atomics
                <= max_fee_rate() by {
                if t != token_in@ {
                    assert(old(self).fee_rates_spec().contains_key(t));
                }
            }
            lemma_wf_frame(*old(self), *self);
        }
        Ok(resp)
    }
    pub fn create_limit_order(
        &mut self,
        now: u64,
        info: &MessageInfo,
        token_in: String,
        token_out: String,
        amount_in: u128,
        price: Decimal,
        deadline: u64,
    ) -> (r: Result<Response, ContractError>)
        requires
            old(self).wf(),
        ensures
            final(self).wf(),
            create_limit_order_post(
                *old(self),
                *final(self),
                now,
                *info,
                token_in@,
                token_out@,
                amount_in,
                price,
                deadline,
                r,
            ),
    {
        if now > deadline {
            return Err(ContractError::OrderExpired {});
        }
        if amount_in == 0 || price.is_zero() {
            return Err(ContractError::InvalidAmount {});
        }
        if token_in == token_out {
            return Err(ContractError::SameToken {});
        }
        let order_id = limit_id(&info.sender, &token_in, &token_out, amount_in, now);
        if self.orders.get(&order_id).is_some() {
            return Err(ContractError::DuplicateOrder {});
        }
        if is_native(&token_in) {
            match must_pay(info, NATIVE_DENOM) {
                Ok(paid) => {
                    if paid < amount_in {
                        return Err(ContractError::InsufficientPayment { required: amount_in, sent: paid });
                    }
                },
                Err(e) => {
                    return Err(ContractError::Payment(e));
                },
            }
        }
        let mut resp = Response::new();
        resp.add_attribute("method", String::from_str("create_limit_order"));
        resp.add_attribute("user", info.sender.clone());
        resp.add_attribute("order_id", order_id.clone());
        resp.add_attribute("token_in", token_in.clone());
        resp.add_attribute("token_out", token_out.clone());
        resp.add_attribute("amount_in", amount_text(amount_in));
        resp.add_attribute("price", price.to_text());
        let ghost tin = token_in@;
        let ghost tout = token_out@;
        let ghost id = limit_order_id(info.sender@, tin, tout, amount_in, now);
        assert(resp.log() == seq![
            ("method"@, "create_limit_order"@),
            ("user"@, info.sender@),
            ("order_id"@, id),
            ("token_in"@, token_in@),
            ("token_out"@, token_out@),
            ("amount_in"@, digits(amount_in as int)),
            ("price"@, decimal_text(price.atomics)),
        ]);
        let order = Order {
            user: info.sender.clone(),
            token_in,
            token_out,
            amount_in,
            min_amount_out: 0,
            price,
            trade_type: TradeType::Limit,
            deadline,
            is_active: true,
            order_id: order_id.clone(),
        };
        self.orders.set(order_id.clone(), order);
        let mut ids = match self.user_orders.get(&info.sender) {
            Some(v) => copy_ids(v),
            None => Vec::new(),
        };
        let ghost before = ids@;
        ids.push(order_id);
        assert(ids@.map_values(|s: String| s@) =~= before.map_values(|s: String| s@).push(id));
        self.user_orders.set(info.sender.clone(), ids);
        proof {
            let sender = info.sender@;
            assert(self.orders_spec().remove(id) =~= old(self).orders_spec().remove(id));
            assert(self.user_orders_spec().remove(sender) =~= old(self).user_orders_spec().remove(
                sender,
            ));
            assert(self.fee_rates_spec() == old(self).fee_rates_spec());
            assert(self.orders_spec().contains_key(id));
            assert(is_new_limit_order(
                self.orders_spec()[id],
                sender,
                tin,
                tout,
                amount_in,
                price,
                deadline,
                now,
            ));
            assert(self.order_ids_of(sender) == old(self).order_ids_of(sender).push(id));
            assert forall|u: Seq<char>, x: Seq<char>| #[trigger]
                self.order_ids_of(u).contains(x) implies self.orders_spec().contains_key(x)
                && self.orders_spec()[x].user@ == u by {
                if u == sender {
                    if x != id {
                        let k = choose|k: int|
                            0 <= k < self.order_ids_of(u).len() && self.order_ids_of(u)[k] == x;
                        assert(old(self).order_ids_of(u)[k] == x);
                        assert(old(self).order_ids_of(u).contains(x));
                    }
                } else {
                    assert(self.user_orders_spec().remove(sender).contains_key(u)
                        == self.user_orders_spec().contains_key(u));
                    assert(old(self).user_orders_spec().remove(sender).contains_key(u)
                        == old(self).user_orders_spec().contains_key(u));
                    assert(self.order_ids_of(u) == old(self).order_ids_of(u));
                    assert(old(self).order_ids_of(u).contains(x));
                }
                if x != id {
                    assert(old(self).orders_spec().contains_key(x));
                    assert(old(self).orders_spec().remove(id).contains_key(x));
                    assert(self.orders_spec().remove(id).contains_key(x));
                    assert(self.orders_spec()[x] == self.orders_spec().remove(id)[x]);
                }
            }
        }
        Ok(resp)
    }

    pub fn cancel_order(&mut self, sender: &String, order_id: String) -> (r: Result<
        Response,
        ContractError,
    >)
        requires
            old(self).wf(),
        ensures
            final(self).wf(),
            cancel_order_post(*old(self), *final(self), sender@, order_id@, r),
    {
        let order = match self.orders.get(&order_id) {
            Some(o) => o,
            None => {
                return Err(ContractError::OrderNotFound {});
            },
        };
        if order.user != *sender {
            return Err(ContractError::Unauthorized {});
        }
        if !order.is_active {
            return Err(ContractError::OrderNotActive {});
        }
        let updated = order.deactivate();
        let native = is_native(&order.token_in);
        let amount = order.amount_in;
        let mut resp = Response::new();
        if native {
            resp.add_message(sender.clone(), String::from_str(NATIVE_DENOM), amount);
        }
        resp.add_attribute("method", String::from_str("cancel_order"));
        resp.add_attribute("user", sender.clone());
        resp.add_attribute("order_id", order_id.clone());
        self.orders.set(order_id, updated);
        assert(self.fee_rates_spec() == old(self).fee_rates_spec());
        assert forall|u: Seq<char>, x: Seq<char>| #[trigger]
            self.order_ids_of(u).contains(x) implies self.orders_spec().contains_key(x)
            && self.orders_spec()[x].user@ == u by {
            assert(self.order_ids_of(u) == old(self).order_ids_of(u));
        }
        assert(self.wf());
        assert(resp.log() == seq![
            ("method"@, "cancel_order"@),
            ("user"@, sender@),
            ("order_id"@, order_id@),
        ]);
        Ok(resp)
    }
    /// A user's liquidity balance in an asset.
    fn balance(&self, user: &String, token: &String) -> (b: u128)
        ensures
            b == self.balance_of(user@, token@),
    {
        let key = LiquidityKey { user: user.clone(), token: token.clone() };
        match self.liquidity.get(&key) {
            Some(b) => *b,
            None => 0,
        }
    }

    pub fn add_liquidity(
        &mut self,
        sender: &String,
        token_a: String,
        token_b: String,
        amount_a: u128,
        amount_b: u128,
        min_liquidity: u128,
    ) -> (r: Result<Response, ContractError>)
        requires
            old(self).wf(),
        ensures
            final(self).wf(),
            add_liquidity_post(
                *old(self),
                *final(self),
                sender@,
                token_a@,
                token_b@,
                amount_a,
                amount_b,
                min_liquidity,
                r,
            ),
    {
        if amount_a == 0 || amount_b == 0 {
            return Err(ContractError::InvalidAmount {});
        }
        if token_a == token_b {
            return Err(ContractError::SameToken {});
        }
        let liquidity = match amount_a.checked_add(amount_b) {
            Some(l) => l,
            None => return Err(ContractError::Overflow {}),
        };
        if liquidity < min_liquidity {
            return Err(ContractError::InsufficientLiquidity {});
        }
        let current_a = self.balance(sender, &token_a);
        let current_b = self.balance(sender, &token_b);
        let new_a = match current_a.checked_add(amount_a) {
            Some(v) => v,
            None => return Err(ContractError::Overflow {}),
        };
        let new_b = match current_b.checked_add(amount_b) {
            Some(v) => v,
            None => return Err(ContractError::Overflow {}),
        };
        let mut resp = Response::new();
        resp.add_attribute("method", String::from_str("add_liquidity"));
        resp.add_attribute("user", sender.clone());
        resp.add_attribute("token_a", token_a.clone());
        resp.add_attribute("token_b", token_b.clone());
        resp.add_attribute("amount_a", amount_text(amount_a));
        resp.add_attribute("amount_b", amount_text(amount_b));
        resp.add_attribute("liquidity", amount_text(liquidity));
        assert(resp.log() == seq![
            ("method"@, "add_liquidity"@),
            ("user"@, sender@),
            ("token_a"@, token_a@),
            ("token_b"@, token_b@),
            ("amount_a"@, digits(amount_a as int)),
            ("amount_b"@, digits(amount_b as int)),
            ("liquidity"@, digits(amount_a + amount_b)),
        ]);
        self.liquidity.set(LiquidityKey { user: sender.clone(), token: token_a }, new_a);
        self.liquidity.set(LiquidityKey { user: sender.clone(), token: token_b }, new_b);
        assert(self.fee_rates_spec() == old(self).fee_rates_spec());
        proof {
            lemma_wf_frame(*old(self), *self);
        }
        Ok(resp)
    }

    pub fn remove_liquidity(
        &mut self,
        sender: &String,
        token_a: String,
        token_b: String,
        liquidity: u128,
        min_amount_a: u128,
        min_amount_b: u128,
    ) -> (r: Result<Response, ContractError>)
        requires
            old(self).wf(),
        ensures
            final(self).wf(),
            remove_liquidity_post(
                *old(self),
                *final(self),
                sender@,
                token_a@,
                token_b@,
                liquidity,
                min_amount_a,
                min_amount_b,
                r,
            ),
    {
        if liquidity == 0 {
            return Err(ContractError::InvalidAmount {});
        }
        let amount_a = liquidity / 2;
        let amount_b = liquidity / 2;
        if amount_a < min_amount_a || amount_b < min_amount_b {
            return Err(ContractError::InsufficientOutputAmount {});
        }
        let current_a = self.balance(sender, &token_a);
        let current_b = self.balance(sender, &token_b);
        if current_a < amount_a || current_b < amount_b {
            return Err(ContractError::InsufficientBalance {});
        }
        if token_a == token_b {
            return Err(ContractError::SameToken {});
        }
        let mut resp = Response::new();
        resp.add_message(sender.clone(), token_a.clone(), amount_a);
        resp.add_message(sender.clone(), token_b.clone(), amount_b);
        resp.add_attribute("method", String::from_str("remove_liquidity"));
        resp.add_attribute("user", sender.clone());
        resp.add_attribute("token_a", token_a.clone());
        resp.add_attribute("token_b", token_b.clone());
        resp.add_attribute("amount_a", amount_text(amount_a));
        resp.add_attribute("amount_b", amount_text(amount_b));
        assert(resp.log() == seq![
            ("method"@, "remove_liquidity"@),
            ("user"@, sender@),
            ("token_a"@, token_a@),
            ("token_b"@, token_b@),
            ("amount_a"@, digits(amount_a as int)),
            ("amount_b"@, digits(amount_b as int)),
        ]);
        self.liquidity.set(
            LiquidityKey { user: sender.clone(), token: token_a },
            current_a - amount_a,
        );
        self.liquidity.set(
            LiquidityKey { user: sender.clone(), token: token_b },
            current_b - amount_b,
        );
        assert(self.fee_rates_spec() == old(self).fee_rates_spec());
        proof {
            lemma_wf_frame(*old(self), *self);
        }
        assert(resp.sends() == seq![(sender@, token_a@, amount_a), (sender@, token_b@, amount_b)]);
        Ok(resp)
    }

    pub fn update_config(
        &mut self,
        sender: &String,
        admin: Option<String>,
        fee_collector: Option<String>,
        order_book: Option<String>,
        amm_factory: Option<String>,
    ) -> (r: Result<Response, ContractError>)
        requires
            old(self).wf(),
        ensures
            final(self).wf(),
            update_config_post(
                *old(self),
                *final(self),
                sender@,
                admin,
                fee_collector,
                order_book,
                amm_factory,
                r,
            ),
    {
        if *sender != self.config.admin {
            return Err(ContractError::Unauthorized {});
        }
        let config = Config {
            admin: given_or_keep(admin, &self.config.admin),
            fee_collector: given_or_keep(fee_collector, &self.config.fee_collector),
            order_book: given_or_keep(order_book, &self.config.order_book),
            amm_factory: given_or_keep(amm_factory, &self.config.amm_factory),
        };
        let mut resp = Response::new();
        resp.add_attribute("method", String::from_str("update_config"));
        resp.add_attribute("admin", config.admin.clone());
        assert(resp.log() == seq![("method"@, "update_config"@), ("admin"@, config.admin@)]);
        self.config = config;
        assert(self.fee_rates_spec() == old(self).fee_rates_spec());
        proof {
            lemma_wf_frame(*old(self), *self);
        }
        Ok(resp)
    }

    pub fn update_fee_rate(&mut self, sender: &String, token: String, rate: Decimal) -> (r: Result<
        Response,
        ContractError,
    >)
        requires
            old(self).wf(),
        ensures
            final(self).wf(),
            update_fee_rate_post(*old(self), *final(self), sender@, token@, rate, r),
    {
        if *sender != self.config.admin {
            return Err(ContractError::Unauthorized {});
        }
        assert(ratio_atomics(1000, 10000) == 100_000_000_000_000_000);
        let cap = Decimal::from_ratio(1000, 10000);
        if rate.atomics > cap.atomics {
            return Err(ContractError::InvalidFeeRate {});
        }
        let base = match self.fee_rates.get(&token) {
            Some(f) => *f,
            None => FeeInfo { rate: Decimal::zero(), collected: 0, is_active: true },
        };
        let mut resp = Response::new();
        resp.add_attribute("method", String::from_str("update_fee_rate"));
        resp.add_attribute("token", token.clone());
        resp.add_attribute("rate", rate.to_text());
        self.fee_rates.set(
            token,
            FeeInfo { rate, collected: base.collected, is_active: base.is_active },
        );
        assert(resp.log() == seq![
            ("method"@, "update_fee_rate"@),
            ("token"@, token@),
            ("rate"@, decimal_text(rate.atomics)),
        ]);
        assert forall|t: Seq<char>| #[trigger]
            self.fee_rates_spec().contains_key(t) implies self.fee_rates_spec()[t].rate.atomics
            <= max_fee_rate() by {
            if t != token@ {
                assert(old(self).fee_rates_spec().contains_key(t));
            }
        }
        proof {
            lemma_wf_frame(*old(self), *self);
        }
        Ok(resp)
    }

    pub fn emergency_withdraw(&self, sender: &String, token: String, amount: u128) -> (r: Result<
        Response,
        ContractError,
    >)
        ensures
            emergency_withdraw_post(*self, sender@, token@, amount, r),
    {
        if *sender != self.config.admin {
            return Err(ContractError::Unauthorized {});
        }
        if amount == 0 {
            return Err(ContractError::InvalidAmount {});
        }
        let mut resp = Response::new();
        resp.add_message(self.config.admin.clone(), token.clone(), amount);
        resp.add_attribute("method", String::from_str("emergency_withdraw"));
        resp.add_attribute("token", token);
        resp.add_attribute("amount", amount_text(amount));
        assert(resp.log() == seq![
            ("method"@, "emergency_withdraw"@),
            ("token"@, token@),
            ("amount"@, digits(amount as int)),
        ]);
        Ok(resp)
    }

    pub fn query_config(&self) -> (r: ConfigResponse)
        ensures
            r.admin == self.config_spec().admin,
            r.fee_collector == self.config_spec().fee_collector,
            r.order_book == self.config_spec().order_book,
            r.amm_factory == self.config_spec().amm_factory,
    {
        let c = self.config.copy();
        ConfigResponse {
            admin: c.admin,
            fee_collector: c.fee_collector,
            order_book: c.order_book,
            amm_factory: c.amm_factory,
        }
    }

    pub fn query_order(&self, order_id: &String) -> (r: OrderResponse)
        ensures
            r.order == (if self.orders_spec().contains_key(order_id@) {
                Some(self.orders_spec()[order_id@])
            } else {
                None
            }),
    {
        match self.orders.get(order_id) {
            Some(o) => OrderResponse { order: Some(o.copy()) },
            None => OrderResponse { order: None },
        }
    }

    pub fn query_user_orders(&self, user: &String) -> (r: OrdersResponse)
        ensures
            r.orders@.map_values(|s: String| s@) == self.order_ids_of(user@),
    {
        match self.user_orders.get(user) {
            Some(v) => OrdersResponse { orders: copy_ids(v) },
            None => {
                let orders: Vec<String> = Vec::new();
                assert(orders@.map_values(|s: String| s@) =~= Seq::<Seq<char>>::empty());
                OrdersResponse { orders }
            },
        }
    }

    pub fn query_user_liquidity(&self, user: &String, token: &String) -> (r: LiquidityResponse)
        ensures
            r.balance == self.balance_of(user@, token@),
    {
        LiquidityResponse { balance: self.balance(user, token) }
    }

    pub fn query_fee_info(&self, token: &String) -> (r: FeeInfoResponse)
        ensures
            r.rate == self.fee_info_of(token@).rate,
            r.collected == self.fee_info_of(token@).collected,
            r.is_active == self.fee_info_of(token@).is_active,
    {
        let f = self.fee_info(token);
        FeeInfoResponse { rate: f.rate, collected: f.collected, is_active: f.is_active }
    }

    pub fn query_stats(&self) -> (r: StatsResponse)
        ensures
            r.total_trades == self.stats_spec().total_trades,
            r.total_volume == self.stats_spec().total_volume,
            r.last_trade_time == self.stats_spec().last_trade_time,
    {
        StatsResponse {
            total_trades: self.stats.total_trades,
            total_volume: self.stats.total_volume,
            last_trade_time: self.stats.last_trade_time,
        }
    }
}

/// What one command does to the ledger, by kind of command.
pub open spec fn execute_post<P: PriceOracle>(
    pre: Router,
    post: Router,
    pricer: P,
    now: u64,
    info: MessageInfo,
    msg: ExecuteMsg,
    r: Result<Response, ContractError>,
) -> bool {
    match msg {
        ExecuteMsg::ExecuteMarketTrade {
            token_in,
            token_out,
            amount_in,
            min_amount_out,
            deadline,
        } => market_trade_post(
            pre,
            post,
            pricer,
            now,
            info.sender@,
            token_in@,
            token_out@,
            amount_in,
            min_amount_out,
            deadline,
            r,
        ),
        ExecuteMsg::CreateLimitOrder { token_in, token_out, amount_in, price, deadline } =>
            create_limit_order_post(
            pre,
            post,
            now,
            info,
            token_in@,
            token_out@,
            amount_in,
            price,
            deadline,
            r,
        ),
        ExecuteMsg::CancelOrder { order_id } => cancel_order_post(
            pre,
            post,
            info.sender@,
            order_id@,
            r,
        ),
        ExecuteMsg::AddLiquidity { token_a, token_b, amount_a, amount_b, min_liquidity } =>
            add_liquidity_post(
            pre,
            post,
            info.sender@,
            token_a@,
            token_b@,
            amount_a,
            amount_b,
            min_liquidity,
            r,
        ),
        ExecuteMsg::RemoveLiquidity {
            token_a,
            token_b,
            liquidity,
            min_amount_a,
            min_amount_b,
        } => remove_liquidity_post(
            pre,
            post,
            info.sender@,
            token_a@,
            token_b@,
            liquidity,
            min_amount_a,
            min_amount_b,
            r,
        ),
        ExecuteMsg::UpdateConfig { admin, fee_collector, order_book, amm_factory } =>
            update_config_post(
            pre,
            post,
            info.sender@,
            admin,
            fee_collector,
            order_book,
            amm_factory,
            r,
        ),
        ExecuteMsg::UpdateFeeRate { token, rate } => update_fee_rate_post(
            pre,
            post,
            info.sender@,
            token@,
            rate,
            r,
        ),
        ExecuteMsg::EmergencyWithdraw { token, amount } => post == pre && emergency_withdraw_post(pre, info.sender@, token@, amount, r),
    }
}

/// Carries out one command on the ledger, at block time `now`, for the caller and funds in
/// `info`. A refused command leaves the ledger as it was.
pub fn execute<P: PriceOracle>(
    router: &mut Router,
    pricer: &P,
    now: u64,
    info: &MessageInfo,
    msg: ExecuteMsg,
) -> (r: Result<Response, ContractError>)
    requires
        old(router).wf(),
    ensures
        final(router).wf(),
        execute_post(*old(router), *final(router), *pricer, now, *info, msg, r),
{
    match msg {
        ExecuteMsg::ExecuteMarketTrade {
            token_in,
            token_out,
            amount_in,
            min_amount_out,
            deadline,
        } => router.execute_market_trade(
            pricer,
            now,
            &info.sender,
            token_in,
            token_out,
            amount_in,
            min_amount_out,
            deadline,
        ),
        ExecuteMsg::CreateLimitOrder { token_in, token_out, amount_in, price, deadline } =>
            router.create_limit_order(now, info, token_in, token_out, amount_in, price, deadline),
        ExecuteMsg::CancelOrder { order_id } => router.cancel_order(&info.sender, order_id),
        ExecuteMsg::AddLiquidity { token_a, token_b, amount_a, amount_b, min_liquidity } =>
            router.add_liquidity(&info.sender, token_a, token_b, amount_a, amount_b, min_liquidity),
        ExecuteMsg::RemoveLiquidity {
            token_a,
            token_b,
            liquidity,
            min_amount_a,
            min_amount_b,
        } => router.remove_liquidity(
            &info.sender,
            token_a,
            token_b,
            liquidity,
            min_amount_a,
            min_amount_b,
        ),
        ExecuteMsg::UpdateConfig { admin, fee_collector, order_book, amm_factory } =>
            router.update_config(&info.sender, admin, fee_collector, order_book, amm_factory),
        ExecuteMsg::UpdateFeeRate { token, rate } => router.update_fee_rate(
            &info.sender,
            token,
            rate,
        ),
        ExecuteMsg::EmergencyWithdraw { token, amount } => router.emergency_withdraw(
            &info.sender,
            token,
            amount,
        ),
    }
}

/// Answers one query from the ledger.
pub fn query(router: &Router, msg: QueryMsg) -> (r: QueryResponse)
    ensures
        match msg {
            QueryMsg::Config {} => r matches QueryResponse::Config(c) && c.admin
                == router.config_spec().admin && c.fee_collector
                == router.config_spec().fee_collector && c.order_book
                == router.config_spec().order_book && c.amm_factory
                == router.config_spec().amm_factory,
            QueryMsg::Order { order_id } => r matches QueryResponse::Order(o) && o.order == (
            if router.orders_spec().contains_key(order_id@) {
                Some(router.orders_spec()[order_id@])
            } else {
                None
            }),
            QueryMsg::UserOrders { user } => r matches QueryResponse::UserOrders(o)
                && o.orders@.map_values(|s: String| s@) == router.order_ids_of(user@),
            QueryMsg::UserLiquidity { user, token } => r matches QueryResponse::UserLiquidity(l)
                && l.balance == router.balance_of(user@, token@),
            QueryMsg::FeeInfo { token } => r matches QueryResponse::FeeInfo(f) && f.rate
                == router.fee_info_of(token@).rate && f.collected == router.fee_info_of(
                token@,
            ).collected && f.is_active == router.fee_info_of(token@).is_active,
            QueryMsg::Stats {} => r matches QueryResponse::Stats(t) && t.total_trades
                == router.stats_spec().total_trades && t.total_volume
                == router.stats_spec().total_volume && t.last_trade_time
                == router.stats_spec().last_trade_time,
        },
{
    match msg {
        QueryMsg::Config {} => QueryResponse::Config(router.query_config()),
        QueryMsg::Order { order_id } => QueryResponse::Order(router.query_order(&order_id)),
        QueryMsg::UserOrders { user } => QueryResponse::UserOrders(router.query_user_orders(&user)),
        QueryMsg::UserLiquidity { user, token } => QueryResponse::UserLiquidity(
            router.query_user_liquidity(&user, &token),
        ),
        QueryMsg::FeeInfo { token } => QueryResponse::FeeInfo(router.query_fee_info(&token)),
        QueryMsg::Stats {} => QueryResponse::Stats(router.query_stats()),
    }
}

} // verus!
