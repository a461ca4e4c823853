use router_helper::contract::{execute, instantiate, query, Router};
use router_helper::decimal::Decimal;
use router_helper::error::ContractError;
use router_helper::msg::{
    Coin, ExecuteMsg, InstantiateMsg, MessageInfo, QueryMsg, QueryResponse, Response,
};
use router_helper::pricing::{execute_trade, AtPar, FlatHaircut, PriceOracle};

const NATIVE: &str = "usei";
const NOW: u64 = 1_571_797_419;
const FAR: u64 = 9_999_999_999;

fn setup_with(admin: &str, fee_collector: &str) -> Router {
    instantiate(InstantiateMsg {
        admin: admin.to_string(),
        fee_collector: fee_collector.to_string(),
        order_book: "order_book".to_string(),
        amm_factory: "amm_factory".to_string(),
    })
    .0
}

fn setup() -> Router {
    setup_with("admin", "fc")
}

fn call<P: PriceOracle>(
    router: &mut Router,
    pricer: &P,
    sender: &str,
    funds: &[(u128, &str)],
    msg: ExecuteMsg,
) -> Result<Response, ContractError> {
    let info = MessageInfo {
        sender: sender.to_string(),
        funds: funds
            .iter()
            .map(|(amount, denom)| Coin { denom: denom.to_string(), amount: *amount })
            .collect(),
    };
    execute(router, pricer, NOW, &info, msg)
}

fn trade(token_in: &str, token_out: &str, amount_in: u128, min_amount_out: u128) -> ExecuteMsg {
    ExecuteMsg::ExecuteMarketTrade {
        token_in: token_in.to_string(),
        token_out: token_out.to_string(),
        amount_in,
        min_amount_out,
        deadline: FAR,
    }
}

fn order(token_in: &str, amount_in: u128) -> ExecuteMsg {
    ExecuteMsg::CreateLimitOrder {
        token_in: token_in.to_string(),
        token_out: "other".to_string(),
        amount_in,
        price: Decimal::from_ratio(1, 1),
        deadline: FAR,
    }
}

fn add(amount_a: u128, amount_b: u128, min_liquidity: u128) -> ExecuteMsg {
    ExecuteMsg::AddLiquidity {
        token_a: NATIVE.to_string(),
        token_b: "uusdc".to_string(),
        amount_a,
        amount_b,
        min_liquidity,
    }
}

fn remove(liquidity: u128, min_amount_a: u128, min_amount_b: u128) -> ExecuteMsg {
    ExecuteMsg::RemoveLiquidity {
        token_a: NATIVE.to_string(),
        token_b: "uusdc".to_string(),
        liquidity,
        min_amount_a,
        min_amount_b,
    }
}

fn set_rate(token: &str, rate: Decimal) -> ExecuteMsg {
    ExecuteMsg::UpdateFeeRate { token: token.to_string(), rate }
}

fn stats(router: &Router) -> (u64, u128, u64) {
    match query(router, QueryMsg::Stats {}) {
        QueryResponse::Stats(s) => (s.total_trades, s.total_volume, s.last_trade_time),
        _ => panic!("wrong answer"),
    }
}

fn fee(router: &Router, token: &str) -> (Decimal, u128, bool) {
    match query(router, QueryMsg::FeeInfo { token: token.to_string() }) {
        QueryResponse::FeeInfo(f) => (f.rate, f.collected, f.is_active),
        _ => panic!("wrong answer"),
    }
}

fn balance(router: &Router, user: &str, token: &str) -> u128 {
    match query(router, QueryMsg::UserLiquidity { user: user.to_string(), token: token.to_string() }) {
        QueryResponse::UserLiquidity(l) => l.balance,
        _ => panic!("wrong answer"),
    }
}

fn orders(router: &Router, user: &str) -> Vec<String> {
    match query(router, QueryMsg::UserOrders { user: user.to_string() }) {
        QueryResponse::UserOrders(o) => o.orders,
        _ => panic!("wrong answer"),
    }
}

fn is_active(router: &Router, order_id: &str) -> Option<bool> {
    match query(router, QueryMsg::Order { order_id: order_id.to_string() }) {
        QueryResponse::Order(o) => o.order.map(|o| o.is_active),
        _ => panic!("wrong answer"),
    }
}

fn attr(res: &Response, key: &str) -> String {
    res.attributes.iter().find(|a| a.key == key).map(|a| a.value.clone()).unwrap()
}

#[test]
fn market_trade_pays_fee_and_counts_trade() {
    let mut router = setup_with("admin", "fc");
    let res = call(&mut router, &AtPar, "user", &[(1000, NATIVE)], trade(NATIVE, "other", 1000, 950))
        .unwrap();
    assert_eq!(res.messages.len(), 1);
    assert_eq!(res.messages[0].to_address, "fc");
    assert_eq!(res.messages[0].denom, NATIVE);
    assert_eq!(res.messages[0].amount, 2);
    assert_eq!(attr(&res, "fee"), "2");
    assert_eq!(attr(&res, "amount_out"), "998");
    assert_eq!(attr(&res, "order_id"), "user-usei-other-1571797419");
    assert_eq!(stats(&router), (1, 1000, NOW));
    assert_eq!(fee(&router, NATIVE).1, 2);
}

#[test]
fn fee_is_rounded_down() {
    let mut router = setup();
    call(&mut router, &AtPar, "user", &[], trade(NATIVE, "other", 1000, 0)).unwrap();
    call(&mut router, &AtPar, "user", &[], trade(NATIVE, "other", 1000, 0)).unwrap();
    assert_eq!(fee(&router, NATIVE).1, 4);
    assert_eq!(stats(&router), (2, 2000, NOW));
}

#[test]
fn stand_in_pricing_keeps_ninety_five_percent() {
    assert_eq!(execute_trade(&"usei".to_string(), &"uusdc".to_string(), 998), 948);
    assert_eq!(execute_trade(&"usei".to_string(), &"usei".to_string(), 998), 998);
    let mut router = setup();
    let err = call(&mut router, &FlatHaircut, "user", &[], trade(NATIVE, "other", 1000, 950)).unwrap_err();
    assert!(matches!(err, ContractError::InsufficientOutputAmount {}));
    assert_eq!(stats(&router), (0, 0, 0));
    let res = call(&mut router, &FlatHaircut, "user", &[], trade(NATIVE, "other", 1000, 948)).unwrap();
    assert_eq!(attr(&res, "amount_out"), "948");
}

#[test]
fn trade_without_fee_changes_nothing() {
    let mut router = setup();
    call(&mut router, &AtPar, "admin", &[], set_rate(NATIVE, Decimal::zero())).unwrap();
    let res = call(&mut router, &AtPar, "user", &[], trade(NATIVE, "other", 1000, 1000)).unwrap();
    assert!(res.messages.is_empty());
    assert_eq!(stats(&router), (0, 0, 0));
    assert_eq!(fee(&router, NATIVE).1, 0);
}

#[test]
fn fee_on_other_asset_is_unsupported() {
    let mut router = setup();
    let err = call(&mut router, &AtPar, "user", &[], trade("uusdc", NATIVE, 1000, 0)).unwrap_err();
    match err {
        ContractError::UnsupportedToken { token } => assert_eq!(token, "uusdc"),
        other => panic!("unexpected {:?}", other),
    }
    assert_eq!(fee(&router, "uusdc").1, 0);
    assert_eq!(stats(&router), (0, 0, 0));
}

#[test]
fn trade_input_errors() {
    let mut router = setup();
    let err = call(&mut router, &AtPar, "user", &[], trade(NATIVE, "other", 0, 0)).unwrap_err();
    assert!(matches!(err, ContractError::InvalidAmount {}));
    let err = call(&mut router, &AtPar, "user", &[], trade(NATIVE, NATIVE, 10, 0)).unwrap_err();
    assert!(matches!(err, ContractError::SameToken {}));
    let expired = ExecuteMsg::ExecuteMarketTrade {
        token_in: NATIVE.to_string(),
        token_out: "other".to_string(),
        amount_in: 10,
        min_amount_out: 0,
        deadline: NOW - 1,
    };
    let err = call(&mut router, &AtPar, "user", &[], expired).unwrap_err();
    assert!(matches!(err, ContractError::TradeExpired {}));
    assert_eq!(err.message(), "Trade expired");
}

#[test]
fn default_fee_record() {
    let router = setup();
    assert_eq!(fee(&router, "anything"), (Decimal::from_ratio(25, 10000), 0, true));
    assert_eq!(Decimal::from_ratio(25, 10000).atomics, 2_500_000_000_000_000);
    assert_eq!(Decimal::from_ratio(25, 10000).mul_floor(1000), 2);
    assert_eq!(Decimal::from_ratio(1, 3).atomics, 333_333_333_333_333_333);
}

#[test]
fn limit_order_payment() {
    let mut router = setup();
    let res = call(&mut router, &AtPar, "user", &[(1000, NATIVE)], order(NATIVE, 1000)).unwrap();
    assert_eq!(attr(&res, "order_id"), "user-usei-other-1000-1571797419");
    assert_eq!(attr(&res, "price"), "1");

    let mut router = setup();
    let err = call(&mut router, &AtPar, "user", &[(500, NATIVE)], order(NATIVE, 1000)).unwrap_err();
    match err {
        ContractError::InsufficientPayment { required, sent } => {
            assert_eq!(required, 1000);
            assert_eq!(sent, 500);
        }
        other => panic!("unexpected {:?}", other),
    }
    assert!(orders(&router, "user").is_empty());

    let err = call(&mut router, &AtPar, "user", &[], order(NATIVE, 1000)).unwrap_err();
    assert!(matches!(err, ContractError::Payment(_)));
    let err = call(&mut router, &AtPar, "user", &[(1000, "uusdc")], order(NATIVE, 1000)).unwrap_err();
    assert!(matches!(err, ContractError::Payment(_)));
    let err = call(&mut router, &AtPar, "user", &[(1000, NATIVE), (5, "uusdc")], order(NATIVE, 1000))
        .unwrap_err();
    assert!(matches!(err, ContractError::Payment(_)));
}

#[test]
fn limit_order_input_errors() {
    let mut router = setup();
    let err = call(&mut router, &AtPar, "user", &[], order("uusdc", 0)).unwrap_err();
    assert!(matches!(err, ContractError::InvalidAmount {}));
    let zero_price = ExecuteMsg::CreateLimitOrder {
        token_in: "uusdc".to_string(),
        token_out: "other".to_string(),
        amount_in: 5,
        price: Decimal::zero(),
        deadline: FAR,
    };
    let err = call(&mut router, &AtPar, "user", &[], zero_price).unwrap_err();
    assert!(matches!(err, ContractError::InvalidAmount {}));
    let same = ExecuteMsg::CreateLimitOrder {
        token_in: "other".to_string(),
        token_out: "other".to_string(),
        amount_in: 5,
        price: Decimal::from_ratio(1, 2),
        deadline: FAR,
    };
    let err = call(&mut router, &AtPar, "user", &[], same).unwrap_err();
    assert!(matches!(err, ContractError::SameToken {}));
    let expired = ExecuteMsg::CreateLimitOrder {
        token_in: "uusdc".to_string(),
        token_out: "other".to_string(),
        amount_in: 5,
        price: Decimal::from_ratio(1, 2),
        deadline: 1,
    };
    let err = call(&mut router, &AtPar, "user", &[], expired).unwrap_err();
    assert!(matches!(err, ContractError::OrderExpired {}));
}

#[test]
fn new_order_is_active_and_listed_once() {
    let mut router = setup();
    call(&mut router, &AtPar, "user", &[], order("uusdc", 7)).unwrap();
    call(&mut router, &AtPar, "user", &[], order("uusdc", 8)).unwrap();
    let ids = orders(&router, "user");
    assert_eq!(ids, vec!["user-uusdc-other-7-1571797419".to_string(), "user-uusdc-other-8-1571797419".to_string()]);
    assert_eq!(is_active(&router, &ids[1]), Some(true));
    assert!(orders(&router, "someone").is_empty());
}

#[test]
fn cancel_twice_is_refused() {
    let mut router = setup();
    call(&mut router, &AtPar, "user", &[(1000, NATIVE)], order(NATIVE, 1000)).unwrap();
    let id = orders(&router, "user")[0].clone();
    let res = call(&mut router, &AtPar, "user", &[], ExecuteMsg::CancelOrder { order_id: id.clone() }).unwrap();
    assert_eq!(res.messages.len(), 1);
    assert_eq!(res.messages[0].to_address, "user");
    assert_eq!(res.messages[0].denom, NATIVE);
    assert_eq!(res.messages[0].amount, 1000);
    assert_eq!(is_active(&router, &id), Some(false));
    let err = call(&mut router, &AtPar, "user", &[], ExecuteMsg::CancelOrder { order_id: id.clone() }).unwrap_err();
    assert!(matches!(err, ContractError::OrderNotActive {}));
    assert_eq!(orders(&router, "user").len(), 1);
}

#[test]
fn cancel_errors_and_other_assets() {
    let mut router = setup();
    let err = call(&mut router, &AtPar, "user", &[], ExecuteMsg::CancelOrder { order_id: "nope".to_string() })
        .unwrap_err();
    assert!(matches!(err, ContractError::OrderNotFound {}));
    call(&mut router, &AtPar, "user", &[], order("uusdc", 9)).unwrap();
    let id = orders(&router, "user")[0].clone();
    let err = call(&mut router, &AtPar, "thief", &[], ExecuteMsg::CancelOrder { order_id: id.clone() }).unwrap_err();
    assert!(matches!(err, ContractError::Unauthorized {}));
    assert_eq!(is_active(&router, &id), Some(true));
    let res = call(&mut router, &AtPar, "user", &[], ExecuteMsg::CancelOrder { order_id: id.clone() }).unwrap();
    assert!(res.messages.is_empty());
    assert_eq!(is_active(&router, &id), Some(false));
}

#[test]
fn liquidity_round_trip() {
    let mut router = setup();
    call(&mut router, &AtPar, "user", &[], add(300, 300, 600)).unwrap();
    call(&mut router, &AtPar, "user", &[], add(1000, 1000, 0)).unwrap();
    assert_eq!(balance(&router, "user", NATIVE), 1300);
    let res = call(&mut router, &AtPar, "user", &[], remove(2000, 1000, 1000)).unwrap();
    assert_eq!(balance(&router, "user", NATIVE), 300);
    assert_eq!(balance(&router, "user", "uusdc"), 300);
    assert_eq!(res.messages.len(), 2);
    assert_eq!(res.messages[0].denom, NATIVE);
    assert_eq!(res.messages[0].amount, 1000);
    assert_eq!(res.messages[1].denom, "uusdc");
    assert_eq!(res.messages[1].amount, 1000);
    assert_eq!(attr(&res, "amount_a"), "1000");
}

#[test]
fn liquidity_errors() {
    let mut router = setup();
    let err = call(&mut router, &AtPar, "user", &[], add(0, 5, 0)).unwrap_err();
    assert!(matches!(err, ContractError::InvalidAmount {}));
    let same = ExecuteMsg::AddLiquidity {
        token_a: NATIVE.to_string(),
        token_b: NATIVE.to_string(),
        amount_a: 1,
        amount_b: 1,
        min_liquidity: 0,
    };
    let err = call(&mut router, &AtPar, "user", &[], same).unwrap_err();
    assert!(matches!(err, ContractError::SameToken {}));
    let err = call(&mut router, &AtPar, "user", &[], add(5, 5, 11)).unwrap_err();
    assert!(matches!(err, ContractError::InsufficientLiquidity {}));
    let err = call(&mut router, &AtPar, "user", &[], add(u128::MAX, 1, 0)).unwrap_err();
    assert!(matches!(err, ContractError::Overflow {}));
    call(&mut router, &AtPar, "user", &[], add(5, 5, 10)).unwrap();
    let err = call(&mut router, &AtPar, "user", &[], remove(0, 0, 0)).unwrap_err();
    assert!(matches!(err, ContractError::InvalidAmount {}));
    let err = call(&mut router, &AtPar, "user", &[], remove(10, 6, 0)).unwrap_err();
    assert!(matches!(err, ContractError::InsufficientOutputAmount {}));
    let err = call(&mut router, &AtPar, "user", &[], remove(12, 0, 0)).unwrap_err();
    assert!(matches!(err, ContractError::InsufficientBalance {}));
    assert_eq!(balance(&router, "user", NATIVE), 5);
    let res = call(&mut router, &AtPar, "user", &[], remove(11, 5, 5)).unwrap();
    assert_eq!(res.messages[0].amount, 5);
    assert_eq!(balance(&router, "user", "uusdc"), 0);
}

#[test]
fn fee_rate_cap() {
    let mut router = setup();
    let err = call(&mut router, &AtPar, "admin", &[], set_rate(NATIVE, Decimal::from_ratio(11, 100))).unwrap_err();
    assert!(matches!(err, ContractError::InvalidFeeRate {}));
    assert_eq!(fee(&router, NATIVE).0, Decimal::from_ratio(25, 10000));
    let res = call(&mut router, &AtPar, "admin", &[], set_rate("uatom", Decimal::from_ratio(1, 10))).unwrap();
    assert_eq!(attr(&res, "rate"), "0.1");
    assert_eq!(fee(&router, "uatom"), (Decimal::from_ratio(1, 10), 0, true));
    let res = call(&mut router, &AtPar, "admin", &[], set_rate(NATIVE, Decimal::from_ratio(50, 10000))).unwrap();
    assert_eq!(attr(&res, "rate"), "0.005");
}

#[test]
fn admin_operations_refuse_others() {
    let mut router = setup();
    let update = ExecuteMsg::UpdateConfig {
        admin: Some("user".to_string()),
        fee_collector: Some("user".to_string()),
        order_book: None,
        amm_factory: None,
    };
    let err = call(&mut router, &AtPar, "user", &[], update).unwrap_err();
    assert!(matches!(err, ContractError::Unauthorized {}));
    let err = call(&mut router, &AtPar, "user", &[], set_rate(NATIVE, Decimal::zero())).unwrap_err();
    assert!(matches!(err, ContractError::Unauthorized {}));
    let withdraw = ExecuteMsg::EmergencyWithdraw { token: NATIVE.to_string(), amount: 1 };
    let err = call(&mut router, &AtPar, "user", &[], withdraw).unwrap_err();
    assert!(matches!(err, ContractError::Unauthorized {}));
    assert_eq!(err.message(), "Unauthorized");
    assert_eq!(fee(&router, NATIVE).0, Decimal::from_ratio(25, 10000));
    match query(&router, QueryMsg::Config {}) {
        QueryResponse::Config(c) => assert_eq!(c.admin, "admin"),
        _ => panic!("wrong answer"),
    }
}

#[test]
fn emergency_withdraw_needs_amount() {
    let mut router = setup();
    let err = call(&mut router, &AtPar, "admin", &[], ExecuteMsg::EmergencyWithdraw { token: "x".to_string(), amount: 0 })
        .unwrap_err();
    assert!(matches!(err, ContractError::InvalidAmount {}));
    let res = call(&mut router, &AtPar, "admin", &[], ExecuteMsg::EmergencyWithdraw { token: "x".to_string(), amount: 7 })
        .unwrap();
    assert_eq!(res.messages[0].to_address, "admin");
    assert_eq!(res.messages[0].denom, "x");
    assert_eq!(attr(&res, "amount"), "7");
}

#[test]
fn error_messages() {
    assert_eq!(ContractError::UnsupportedToken { token: "abc".to_string() }.message(), "Unsupported token: abc");
    assert_eq!(ContractError::OrderNotActive {}.message(), "Order not active");
    assert_eq!(ContractError::InvalidFeeRate {}.message(), "Invalid fee rate");
}

#[test]
fn ledger_parts_round_trip() {
    let mut router = setup();
    call(&mut router, &AtPar, "user", &[], add(5, 5, 0)).unwrap();
    call(&mut router, &AtPar, "user", &[], order("uusdc", 3)).unwrap();
    let parts = router.into_parts();
    assert_eq!(parts.fee_rates.len(), 1);
    assert_eq!(parts.orders.len(), 1);
    let router = Router::from_parts(parts).unwrap();
    assert_eq!(balance(&router, "user", NATIVE), 5);
    assert_eq!(orders(&router, "user").len(), 1);
    let mut parts = router.into_parts();
    parts.fee_rates[0].1.rate = Decimal::from_ratio(2, 10);
    assert!(Router::from_parts(parts).is_none());
}

#[test]
fn repeated_order_in_same_block_is_refused() {
    let mut router = setup();
    call(&mut router, &AtPar, "user", &[], order("uusdc", 9)).unwrap();
    let id = orders(&router, "user")[0].clone();
    let err = call(&mut router, &AtPar, "user", &[], order("uusdc", 9)).unwrap_err();
    assert!(matches!(err, ContractError::DuplicateOrder {}));
    assert_eq!(err.message(), "Duplicate order");
    call(&mut router, &AtPar, "user", &[], ExecuteMsg::CancelOrder { order_id: id.clone() }).unwrap();
    let err = call(&mut router, &AtPar, "user", &[], order("uusdc", 9)).unwrap_err();
    assert!(matches!(err, ContractError::DuplicateOrder {}));
    assert_eq!(is_active(&router, &id), Some(false));
    assert_eq!(orders(&router, "user"), vec![id]);
}

#[test]
fn colliding_order_of_another_user_is_refused() {
    let mut router = setup();
    call(&mut router, &AtPar, "a", &[], order("b-c", 5)).unwrap();
    let id = orders(&router, "a")[0].clone();
    assert_eq!(id, "a-b-c-other-5-1571797419");
    let err = call(&mut router, &AtPar, "a-b", &[], order("c", 5)).unwrap_err();
    assert!(matches!(err, ContractError::DuplicateOrder {}));
    assert!(orders(&router, "a-b").is_empty());
    match query(&router, QueryMsg::Order { order_id: id }) {
        QueryResponse::Order(o) => assert_eq!(o.order.unwrap().user, "a"),
        _ => panic!("wrong answer"),
    }
}

#[test]
fn removing_the_same_asset_twice_is_refused() {
    let mut router = setup();
    call(&mut router, &AtPar, "user", &[], add(10, 10, 0)).unwrap();
    let same = ExecuteMsg::RemoveLiquidity {
        token_a: NATIVE.to_string(),
        token_b: NATIVE.to_string(),
        liquidity: 20,
        min_amount_a: 0,
        min_amount_b: 0,
    };
    let err = call(&mut router, &AtPar, "user", &[], same).unwrap_err();
    assert!(matches!(err, ContractError::SameToken {}));
    assert_eq!(balance(&router, "user", NATIVE), 10);
    let below_minimum = ExecuteMsg::RemoveLiquidity {
        token_a: NATIVE.to_string(),
        token_b: NATIVE.to_string(),
        liquidity: 20,
        min_amount_a: 11,
        min_amount_b: 0,
    };
    let err = call(&mut router, &AtPar, "user", &[], below_minimum).unwrap_err();
    assert!(matches!(err, ContractError::InsufficientOutputAmount {}));
    let above_balance = ExecuteMsg::RemoveLiquidity {
        token_a: NATIVE.to_string(),
        token_b: NATIVE.to_string(),
        liquidity: 22,
        min_amount_a: 0,
        min_amount_b: 0,
    };
    let err = call(&mut router, &AtPar, "user", &[], above_balance).unwrap_err();
    assert!(matches!(err, ContractError::InsufficientBalance {}));
    assert_eq!(balance(&router, "user", NATIVE), 10);
}

#[test]
fn stored_lists_must_name_owned_orders() {
    let mut router = setup();
    call(&mut router, &AtPar, "user", &[], order("uusdc", 4)).unwrap();
    let mut parts = router.into_parts();
    parts.user_orders.push(("thief".to_string(), vec![parts.orders[0].0.clone()]));
    assert!(Router::from_parts(parts).is_none());
}
