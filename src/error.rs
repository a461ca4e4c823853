use vstd::prelude::*;

use cw_utils::PaymentError;

verus! {

#[verifier::external_type_specification]
#[verifier::external_body]
pub struct ExPaymentError(PaymentError);

/// Why a call was refused. A refused call changes nothing.
#[derive(Debug)]
pub enum ContractError {
    Unauthorized {},
    InvalidAmount {},
    SameToken {},
    TradeExpired {},
    OrderExpired {},
    OrderNotFound {},
    OrderNotActive {},
    /// An order with the same identifier is already stored.
    DuplicateOrder {},
    InsufficientOutputAmount {},
    InsufficientLiquidity {},
    InsufficientBalance {},
    FeeCollectionInactive {},
    InvalidFeeRate {},
    UnsupportedToken { token: String },
    /// The attached funds are not one non-zero coin of the asked denomination.
    Payment(PaymentError),
    /// The attached native funds fall short of the order's amount.
    InsufficientPayment { required: u128, sent: u128 },
    /// A balance or counter would leave its integer range.
    Overflow {},
}

impl ContractError {
    /// The message of an error of this library's own; a payment error speaks for itself.
    pub open spec fn message_spec(&self) -> Seq<char> {
        match self {
            ContractError::Unauthorized {} => "Unauthorized"@,
            ContractError::InvalidAmount {} => "Invalid amount"@,
            ContractError::SameToken {} => "Same token"@,
            ContractError::TradeExpired {} => "Trade expired"@,
            ContractError::OrderExpired {} => "Order expired"@,
            ContractError::OrderNotFound {} => "Order not found"@,
            ContractError::OrderNotActive {} => "Order not active"@,
            ContractError::DuplicateOrder {} => "Duplicate order"@,
            ContractError::InsufficientOutputAmount {} => "Insufficient output amount"@,
            ContractError::InsufficientLiquidity {} => "Insufficient liquidity"@,
            ContractError::InsufficientBalance {} => "Insufficient balance"@,
            ContractError::FeeCollectionInactive {} => "Fee collection inactive"@,
            ContractError::InvalidFeeRate {} => "Invalid fee rate"@,
            ContractError::UnsupportedToken { token } => "Unsupported token: "@ + token@,
            ContractError::Payment(_) => Seq::empty(),
            ContractError::InsufficientPayment { .. } => "Insufficient payment"@,
            ContractError::Overflow {} => "Overflow"@,
        }
    }

    /// The human-readable message of the error.
    pub fn message(&self) -> (r: String)
        ensures
            !(self is Payment) ==> r@ == self.message_spec(),
    {
        match self {
            ContractError::Unauthorized {} => String::from_str("Unauthorized"),
            ContractError::InvalidAmount {} => String::from_str("Invalid amount"),
            ContractError::SameToken {} => String::from_str("Same token"),
            ContractError::TradeExpired {} => String::from_str("Trade expired"),
            ContractError::OrderExpired {} => String::from_str("Order expired"),
            ContractError::OrderNotFound {} => String::from_str("Order not found"),
            ContractError::OrderNotActive {} => String::from_str("Order not active"),
            ContractError::DuplicateOrder {} => String::from_str("Duplicate order"),
            ContractError::InsufficientOutputAmount {} => String::from_str(
                "Insufficient output amount",
            ),
            ContractError::InsufficientLiquidity {} => String::from_str("Insufficient liquidity"),
            ContractError::InsufficientBalance {} => String::from_str("Insufficient balance"),
            ContractError::FeeCollectionInactive {} => String::from_str("Fee collection inactive"),
            ContractError::InvalidFeeRate {} => String::from_str("Invalid fee rate"),
            ContractError::UnsupportedToken { token } => String::from_str(
                "Unsupported token: ",
            ).concat(token.as_str()),
            ContractError::Payment(e) => e.to_string(),
            ContractError::InsufficientPayment { .. } => String::from_str("Insufficient payment"),
            ContractError::Overflow {} => String::from_str("Overflow"),
        }
    }
}

} // verus!
