use router_helper::contract::{execute, instantiate, query, Router};
use router_helper::decimal::Decimal;
use router_helper::error::ContractError;
use router_helper::msg::{
    Coin, ConfigResponse, ExecuteMsg, FeeInfoResponse, InstantiateMsg, LiquidityResponse,
    MessageInfo, OrderResponse, OrdersResponse, QueryMsg, QueryResponse, Response,
    StatsResponse,
};
use router_helper::pricing::{AtPar, FlatHaircut, PriceOracle};
use router_helper::state::TradeType;

const NATIVE_DENOM: &str = "usei";
const NOW: u64 = 1_571_797_419;

fn setup() -> Router {
    let msg = InstantiateMsg {
        admin: "admin".to_string(),
        fee_collector: "fee_collector".to_string(),
        order_book: "order_book".to_string(),
        amm_factory: "amm_factory".to_string(),
    };
    let (router, _) = instantiate(msg);
    router
}

fn info(sender: &str, funds: &[(u128, &str)]) -> MessageInfo {
    MessageInfo {
        sender: sender.to_string(),
        funds: funds
            .iter()
            .map(|(amount, denom)| Coin { denom: denom.to_string(), amount: *amount })
            .collect(),
    }
}

fn run(router: &mut Router, sender: &str, funds: &[(u128, &str)], msg: ExecuteMsg) -> Result<Response, ContractError> {
    run_priced(router, &FlatHaircut, sender, funds, msg)
}

fn run_priced<P: PriceOracle>(
    router: &mut Router,
    pricer: &P,
    sender: &str,
    funds: &[(u128, &str)],
    msg: ExecuteMsg,
) -> Result<Response, ContractError> {
    execute(router, pricer, NOW, &info(sender, funds), msg)
}

fn config_of(router: &Router) -> ConfigResponse {
    match query(router, QueryMsg::Config {}) {
        QueryResponse::Config(c) => c,
        _ => panic!("wrong answer"),
    }
}

fn orders_of(router: &Router, user: &str) -> OrdersResponse {
    match query(router, QueryMsg::UserOrders { user: user.to_string() }) {
        QueryResponse::UserOrders(o) => o,
        _ => panic!("wrong answer"),
    }
}

fn order_of(router: &Router, order_id: &str) -> OrderResponse {
    match query(router, QueryMsg::Order { order_id: order_id.to_string() }) {
        QueryResponse::Order(o) => o,
        _ => panic!("wrong answer"),
    }
}

fn liquidity_of(router: &Router, user: &str, token: &str) -> LiquidityResponse {
    match query(router, QueryMsg::UserLiquidity { user: user.to_string(), token: token.to_string() }) {
        QueryResponse::UserLiquidity(l) => l,
        _ => panic!("wrong answer"),
    }
}

fn fee_info_of(router: &Router, token: &str) -> FeeInfoResponse {
    match query(router, QueryMsg::FeeInfo { token: token.to_string() }) {
        QueryResponse::FeeInfo(f) => f,
        _ => panic!("wrong answer"),
    }
}

fn stats_of(router: &Router) -> StatsResponse {
    match query(router, QueryMsg::Stats {}) {
        QueryResponse::Stats(s) => s,
        _ => panic!("wrong answer"),
    }
}

fn attr<'a>(res: &'a Response, key: &str) -> Option<&'a str> {
    res.attributes.iter().find(|a| a.key == key).map(|a| a.value.as_str())
}

fn trade(amount_in: u128, min_amount_out: u128, deadline: u64) -> ExecuteMsg {
    ExecuteMsg::ExecuteMarketTrade {
        token_in: NATIVE_DENOM.to_string(),
        token_out: "uusdc".to_string(),
        amount_in,
        min_amount_out,
        deadline,
    }
}

fn limit_order(amount_in: u128) -> ExecuteMsg {
    ExecuteMsg::CreateLimitOrder {
        token_in: NATIVE_DENOM.to_string(),
        token_out: "uusdc".to_string(),
        amount_in,
        price: Decimal::from_ratio(1, 1),
        deadline: 9999999999,
    }
}

#[test]
fn lib_proper_initialization() {
    let msg = InstantiateMsg {
        admin: "creator".to_string(),
        fee_collector: "fee_collector".to_string(),
        order_book: "order_book".to_string(),
        amm_factory: "amm_factory".to_string(),
    };
    let (router, res) = instantiate(msg);
    assert_eq!(0, res.messages.len());
    let config = config_of(&router);
    assert_eq!("creator", config.admin.as_str());
    assert_eq!("fee_collector", config.fee_collector.as_str());
}

#[test]
fn router_helper_test_proper_initialization() {
    let router = setup();
    let res = config_of(&router);
    assert_eq!(res.admin, "admin");
    assert_eq!(res.fee_collector, "fee_collector");
    assert_eq!(res.order_book, "order_book");
    assert_eq!(res.amm_factory, "amm_factory");
}

#[test]
fn execute_market_trade() {
    let mut router = setup();
    let res = run_priced(&mut router, &AtPar, "user", &[(1000, NATIVE_DENOM)], trade(1000, 950, 9999999999))
        .unwrap();
    assert_eq!(attr(&res, "method"), Some("execute_market_trade"));
    // The fee is 0.25% of 1000, rounded down, sent to the fee collector.
    assert_eq!(res.messages.len(), 1);
    assert_eq!(res.messages[0].to_address, "fee_collector");
    assert_eq!(res.messages[0].denom, NATIVE_DENOM);
    assert_eq!(res.messages[0].amount, 2);
}

#[test]
fn create_limit_order() {
    let mut router = setup();
    let res = run(&mut router, "user", &[(1000, NATIVE_DENOM)], limit_order(1000)).unwrap();
    assert_eq!(attr(&res, "method"), Some("create_limit_order"));
    assert!(res.messages.is_empty());

    let orders_res = orders_of(&router, "user");
    assert_eq!(orders_res.orders.len(), 1);

    let order_res = order_of(&router, &orders_res.orders[0]);
    assert!(order_res.order.is_some());
    let order = order_res.order.unwrap();
    assert_eq!(order.user, "user");
    assert_eq!(order.token_in, NATIVE_DENOM);
    assert_eq!(order.token_out, "uusdc");
    assert_eq!(order.amount_in, 1000);
    assert!(order.is_active);
    assert_eq!(order.trade_type, TradeType::Limit);
}

#[test]
fn cancel_order() {
    let mut router = setup();
    run(&mut router, "user", &[(1000, NATIVE_DENOM)], limit_order(1000)).unwrap();
    let order_id = orders_of(&router, "user").orders[0].clone();

    let res = run(&mut router, "user", &[], ExecuteMsg::CancelOrder { order_id: order_id.clone() }).unwrap();
    // The locked amount goes back to the owner.
    assert_eq!(res.messages.len(), 1);
    assert_eq!(res.messages[0].to_address, "user");
    assert_eq!(res.messages[0].amount, 1000);

    let order_res = order_of(&router, &order_id);
    assert!(order_res.order.is_some());
    let order = order_res.order.unwrap();
    assert!(!order.is_active);
}

#[test]
fn add_liquidity() {
    let mut router = setup();
    let res = run(
        &mut router,
        "user",
        &[(1000, NATIVE_DENOM)],
        ExecuteMsg::AddLiquidity {
            token_a: NATIVE_DENOM.to_string(),
            token_b: "uusdc".to_string(),
            amount_a: 1000,
            amount_b: 1000,
            min_liquidity: 1800,
        },
    )
    .unwrap();
    assert_eq!(attr(&res, "method"), Some("add_liquidity"));
    assert_eq!(attr(&res, "liquidity"), Some("2000"));

    let liquidity_res = liquidity_of(&router, "user", NATIVE_DENOM);
    assert_eq!(liquidity_res.balance, 1000);
}

#[test]
fn remove_liquidity() {
    let mut router = setup();
    run(
        &mut router,
        "user",
        &[(1000, NATIVE_DENOM)],
        ExecuteMsg::AddLiquidity {
            token_a: NATIVE_DENOM.to_string(),
            token_b: "uusdc".to_string(),
            amount_a: 1000,
            amount_b: 1000,
            min_liquidity: 1800,
        },
    )
    .unwrap();

    let res = run(
        &mut router,
        "user",
        &[],
        ExecuteMsg::RemoveLiquidity {
            token_a: NATIVE_DENOM.to_string(),
            token_b: "uusdc".to_string(),
            liquidity: 2000,
            min_amount_a: 900,
            min_amount_b: 900,
        },
    )
    .unwrap();
    // Two token transfers.
    assert_eq!(res.messages.len(), 2);

    let liquidity_res = liquidity_of(&router, "user", NATIVE_DENOM);
    assert_eq!(liquidity_res.balance, 0);
}

#[test]
fn update_config() {
    let mut router = setup();
    run(
        &mut router,
        "admin",
        &[],
        ExecuteMsg::UpdateConfig {
            admin: Some("new_admin".to_string()),
            fee_collector: Some("new_fee_collector".to_string()),
            order_book: None,
            amm_factory: None,
        },
    )
    .unwrap();

    let res = config_of(&router);
    assert_eq!(res.admin, "new_admin");
    assert_eq!(res.fee_collector, "new_fee_collector");
    assert_eq!(res.order_book, "order_book");
    assert_eq!(res.amm_factory, "amm_factory");
}

#[test]
fn update_fee_rate() {
    let mut router = setup();
    run(
        &mut router,
        "admin",
        &[],
        ExecuteMsg::UpdateFeeRate {
            token: NATIVE_DENOM.to_string(),
            rate: Decimal::from_ratio(50, 10000),
        },
    )
    .unwrap();

    let res = fee_info_of(&router, NATIVE_DENOM);
    assert_eq!(res.rate, Decimal::from_ratio(50, 10000));
}

#[test]
fn emergency_withdraw() {
    let mut router = setup();
    run_priced(&mut router, &AtPar, "user", &[(1000, NATIVE_DENOM)], trade(1000, 950, 9999999999))
        .unwrap();

    let res = run(
        &mut router,
        "admin",
        &[],
        ExecuteMsg::EmergencyWithdraw { token: NATIVE_DENOM.to_string(), amount: 25 },
    )
    .unwrap();
    // The admin receives the amount.
    assert_eq!(res.messages.len(), 1);
    assert_eq!(res.messages[0].to_address, "admin");
    assert_eq!(res.messages[0].denom, NATIVE_DENOM);
    assert_eq!(res.messages[0].amount, 25);
}

#[test]
fn unauthorized_access() {
    let mut router = setup();
    let err = run(
        &mut router,
        "user",
        &[],
        ExecuteMsg::UpdateConfig {
            admin: Some("hacker".to_string()),
            fee_collector: None,
            order_book: None,
            amm_factory: None,
        },
    )
    .unwrap_err();
    assert!(err.message().contains("Unauthorized"));
}

#[test]
fn expired_trade() {
    let mut router = setup();
    let err = run(&mut router, "user", &[(1000, NATIVE_DENOM)], trade(1000, 950, 1)).unwrap_err();
    assert!(err.message().contains("Trade expired"));
}

#[test]
fn query_stats() {
    let router = setup();
    let res = stats_of(&router);
    assert_eq!(res.total_trades, 0);
    assert_eq!(res.total_volume, 0);
    assert_eq!(res.last_trade_time, 0);
}
