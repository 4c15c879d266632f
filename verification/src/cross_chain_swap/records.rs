//! The records that the swap engine keeps: swaps, merchant preferences and
//! payments, and the errors it reports.

use vstd::prelude::*;
use vstd::string::StringExecFns;
use crate::account::Address;
use crate::cross_chain_swap::route::{
    is_supported_chain,
    is_supported_token,
    supported_chain,
    supported_token,
};

verus! {

/// The lifecycle state of a swap.
#[derive(Clone, Copy, Debug, PartialEq, Eq, Structural)]
pub enum Status {
    Initiated,
    InProgress,
    Completed,
    Failed,
    Refunded,
}

impl Status {
    /// The numeric code under which a status is reported.
    pub open spec fn spec_code(self) -> u8 {
        match self {
            Status::Initiated => 0,
            Status::InProgress => 1,
            Status::Completed => 2,
            Status::Failed => 3,
            Status::Refunded => 4,
        }
    }

    /// A swap may advance only while it is active.
    pub open spec fn spec_is_active(self) -> bool {
        self == Status::Initiated || self == Status::InProgress
    }

    /// Completed, Failed and Refunded are terminal.
    pub open spec fn spec_is_terminal(self) -> bool {
        !self.spec_is_active()
    }

    /// The numeric code under which a status is reported.
    #[verifier::when_used_as_spec(spec_code)]
    pub fn code(self) -> (c: u8)
        ensures
            c == self.spec_code(),
    {
        match self {
            Status::Initiated => 0,
            Status::InProgress => 1,
            Status::Completed => 2,
            Status::Failed => 3,
            Status::Refunded => 4,
        }
    }

    /// The status reported under `code`, if there is one.
    pub fn from_code(code: u8) -> (r: Option<Status>)
        ensures
            code > 4 <==> r is None,
            r matches Some(s) ==> s.spec_code() == code,
    {
        if code == 0 {
            Some(Status::Initiated)
        } else if code == 1 {
            Some(Status::InProgress)
        } else if code == 2 {
            Some(Status::Completed)
        } else if code == 3 {
            Some(Status::Failed)
        } else if code == 4 {
            Some(Status::Refunded)
        } else {
            None
        }
    }

    /// Whether a swap in this status may still advance.
    #[verifier::when_used_as_spec(spec_is_active)]
    pub fn is_active(self) -> (r: bool)
        ensures
            r == self.spec_is_active(),
    {
        match self {
            Status::Initiated => true,
            Status::InProgress => true,
            _ => false,
        }
    }

    /// Whether this status is terminal.
    #[verifier::when_used_as_spec(spec_is_terminal)]
    pub fn is_terminal(self) -> (r: bool)
        ensures
            r == self.spec_is_terminal(),
    {
        !self.is_active()
    }
}

/// One tracked swap.
#[derive(Clone, Debug, PartialEq, Eq)]
pub struct Swap {
    /// The identifier, assigned at creation and never changed.
    pub id: u32,
    /// The party that created the swap and may cancel it.
    pub initiator: Address,
    pub source_token: String,
    pub target_token: String,
    pub source_chain: String,
    pub target_chain: String,
    pub input_amount: u128,
    pub expected_output: u128,
    /// The number of hops of the route.
    pub route_steps: u32,
    /// The number of hops that have been confirmed.
    pub current_step: u32,
    pub status: Status,
    /// The time after which the swap may no longer advance.
    pub timeout: u64,
    /// The nonce of the request in flight for this swap, if any.
    pub pending_request: Option<u64>,
}

impl Swap {
    /// What holds of every swap at all times: its assets and chains have
    /// names and are accepted ones, its amounts are positive, its route has
    /// one to ten steps of which no more are confirmed than there are, it
    /// is Completed exactly when all are confirmed, and a request is in
    /// flight for it only while it is active.
    pub open spec fn valid(self) -> bool {
        &&& self.source_token@.len() > 0
        &&& self.target_token@.len() > 0
        &&& self.source_chain@.len() > 0
        &&& self.target_chain@.len() > 0
        &&& supported_token(self.source_token@)
        &&& supported_token(self.target_token@)
        &&& supported_chain(self.source_chain@)
        &&& supported_chain(self.target_chain@)
        &&& self.input_amount > 0
        &&& self.expected_output > 0
        &&& 1 <= self.route_steps <= 10
        &&& self.current_step <= self.route_steps
        &&& (self.status == Status::Completed <==> self.current_step == self.route_steps)
        &&& (self.pending_request is Some ==> self.status.spec_is_active())
    }
}

impl Swap {
    /// Whether the record satisfies what holds of every swap.
    pub fn is_valid(&self) -> (r: bool)
        ensures
            r == self.valid(),
    {
        !self.source_token.as_str().is_empty() && !self.target_token.as_str().is_empty()
            && !self.source_chain.as_str().is_empty() && !self.target_chain.as_str().is_empty()
            && is_supported_token(self.source_token.as_str()) && is_supported_token(
            self.target_token.as_str(),
        ) && is_supported_chain(self.source_chain.as_str()) && is_supported_chain(
            self.target_chain.as_str(),
        ) && self.input_amount > 0 && self.expected_output > 0 && 1 <= self.route_steps
            && self.route_steps <= 10 && self.current_step <= self.route_steps && ((self.status
            == Status::Completed) == (self.current_step == self.route_steps)) && (
        self.pending_request.is_none() || self.status.is_active())
    }
}

/// What a merchant asked to be paid in, and where.
#[derive(Clone, Debug, PartialEq, Eq)]
pub struct MerchantPrefs {
    pub preferred_stablecoin: String,
    pub settlement_chain: String,
}

/// One customer payment, linked to a swap when a conversion was needed.
#[derive(Clone, Copy, Debug, PartialEq, Eq)]
pub struct Payment {
    pub customer: Address,
    pub merchant: Address,
    pub swap_id: Option<u32>,
}

/// Why an operation of the engine was refused.
#[derive(Clone, Copy, Debug, PartialEq, Eq, Structural)]
pub enum SwapError {
    /// The preferred asset of a merchant is not an accepted asset.
    UnsupportedStablecoin,
    /// The settlement chain of a merchant is not an accepted chain.
    UnsupportedSettlementChain,
    /// The merchant of a payment never registered.
    MerchantNotFound,
    /// The asset that a customer pays with is not an accepted asset.
    UnsupportedCustomerToken,
    /// The chain that a customer pays from is not an accepted chain.
    UnsupportedCustomerChain,
    /// The payment needs a conversion that the registry would not record.
    UnsupportedRoute,
    /// One of the assets of a route is not an accepted asset.
    UnsupportedTokenInRoute,
    /// One of the chains of a route is not an accepted chain.
    UnsupportedChainInRoute,
    /// An amount of a route is zero.
    RejectedRoute,
    /// The transport refused the first step of a route.
    FirstStepFailed,
    /// An inbound request names no known action.
    UnknownRequestAction,
    /// The parameters of an inbound swap request do not parse.
    InvalidSwapParams,
    /// The body of an inbound status query is too short.
    InvalidStatusQuery,
}

impl SwapError {
    /// The message that goes with an error.
    pub fn message(&self) -> (m: String)
        ensures
            m@ == self.spec_message(),
    {
        match self {
            SwapError::UnsupportedStablecoin => String::from_str("Unsupported stablecoin"),
            SwapError::UnsupportedSettlementChain => String::from_str(
                "Unsupported settlement chain",
            ),
            SwapError::MerchantNotFound => String::from_str("Merchant not registered"),
            SwapError::UnsupportedCustomerToken => String::from_str("Unsupported customer token"),
            SwapError::UnsupportedCustomerChain => String::from_str("Unsupported customer chain"),
            SwapError::UnsupportedRoute => String::from_str("Unsupported payment route"),
            SwapError::UnsupportedTokenInRoute => String::from_str("Unsupported token in route"),
            SwapError::UnsupportedChainInRoute => String::from_str("Unsupported chain in route"),
            SwapError::RejectedRoute => String::from_str("Invalid route amounts"),
            SwapError::FirstStepFailed => String::from_str("Failed to initiate first swap step"),
            SwapError::UnknownRequestAction => String::from_str("Unknown request action"),
            SwapError::InvalidSwapParams => String::from_str("Invalid swap params data"),
            SwapError::InvalidStatusQuery => String::from_str("Invalid swap status query body"),
        }
    }

    /// The message that goes with an error.
    pub open spec fn spec_message(&self) -> Seq<char> {
        match self {
            SwapError::UnsupportedStablecoin => "Unsupported stablecoin"@,
            SwapError::UnsupportedSettlementChain => "Unsupported settlement chain"@,
            SwapError::MerchantNotFound => "Merchant not registered"@,
            SwapError::UnsupportedCustomerToken => "Unsupported customer token"@,
            SwapError::UnsupportedCustomerChain => "Unsupported customer chain"@,
            SwapError::UnsupportedRoute => "Unsupported payment route"@,
            SwapError::UnsupportedTokenInRoute => "Unsupported token in route"@,
            SwapError::UnsupportedChainInRoute => "Unsupported chain in route"@,
            SwapError::RejectedRoute => "Invalid route amounts"@,
            SwapError::FirstStepFailed => "Failed to initiate first swap step"@,
            SwapError::UnknownRequestAction => "Unknown request action"@,
            SwapError::InvalidSwapParams => "Invalid swap params data"@,
            SwapError::InvalidStatusQuery => "Invalid swap status query body"@,
        }
    }
}

} // verus!
