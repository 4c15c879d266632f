//! The notifications that the swap engine produces. Each carries what an
//! indexer needs to follow a swap without reading the registry.

use vstd::prelude::*;
use crate::account::Address;

verus! {

/// A merchant stored its preferences.
#[derive(Clone, Debug, PartialEq, Eq)]
pub struct MerchantRegistered {
    pub merchant_id: Address,
    pub preferred_stablecoin: String,
    pub settlement_chain: String,
}

/// A customer started a payment to a merchant.
#[derive(Clone, Debug, PartialEq, Eq)]
pub struct PaymentInitiated {
    pub payment_id: u32,
    pub customer: Address,
    pub merchant: Address,
    pub customer_token: String,
    pub customer_chain: String,
    pub merchant_stablecoin: String,
    pub input_amount: u128,
    pub expected_output: u128,
    pub timeout: u64,
}

/// A swap was recorded.
#[derive(Clone, Debug, PartialEq, Eq)]
pub struct SwapInitiated {
    pub swap_id: u32,
    pub initiator: Address,
    pub source_token: String,
    pub target_token: String,
    pub source_chain: String,
    pub target_chain: String,
    pub input_amount: u128,
    pub expected_output: u128,
    pub route_steps: u32,
    pub timeout: u64,
}

/// A step of a swap was handed to the transport or confirmed by it.
#[derive(Clone, Copy, Debug, PartialEq, Eq, Structural)]
pub struct SwapStepExecuted {
    pub swap_id: u32,
    pub step: u32,
    pub total_steps: u32,
    pub success: bool,
}

/// A swap reached Completed or Failed; `final_status` is the status code.
#[derive(Clone, Copy, Debug, PartialEq, Eq)]
pub struct SwapCompleted {
    pub swap_id: u32,
    pub initiator: Address,
    pub final_status: u8,
}

/// The initiator of a swap cancelled it.
#[derive(Clone, Copy, Debug, PartialEq, Eq)]
pub struct SwapCancelled {
    pub swap_id: u32,
    pub initiator: Address,
}

/// Any notification of the engine.
#[derive(Clone, Debug, PartialEq, Eq)]
pub enum Event {
    MerchantRegistered(MerchantRegistered),
    PaymentInitiated(PaymentInitiated),
    SwapInitiated(SwapInitiated),
    SwapStepExecuted(SwapStepExecuted),
    SwapCompleted(SwapCompleted),
    SwapCancelled(SwapCancelled),
}

} // verus!
