//! A bridge that sends a paid-in amount to another chain through a token
//! gateway.
//!
//! The bridge decides whether the amount is covered and what the gateway is
//! asked; the gateway itself is injected.

use vstd::prelude::*;
use crate::account::AccountId;

verus! {

/// What the token gateway is asked to teleport.
#[derive(Clone, Debug, PartialEq, Eq)]
pub struct TeleportParams {
    pub asset_id: u32,
    /// The state machine that the amount goes to.
    pub destination: u8,
    pub recipient: [u8; 32],
    pub amount: u128,
    pub timeout: u64,
    /// The address of the gateway on the destination.
    pub token_gateway: Vec<u8>,
    pub relayer_fee: u128,
    pub call_data: Option<Vec<u8>>,
    pub redeem: bool,
}

/// The decode error of the codec, `parity_scale_codec::Error`, declared so
/// that it can be named. It is opaque: nothing is claimed of what it holds.
#[verifier::external_type_specification]
#[verifier::external_body]
pub struct ExCodecError(parity_scale_codec::Error);

/// The error that the gateway reports: a status code other than zero.
#[derive(Clone, Copy, Debug, PartialEq, Eq, Structural)]
pub struct ChainExtensionError {
    pub code: u32,
}

/// The status code that stands for a reply that does not decode.
pub const DECODE_FAILED: u32 = 1;

impl ChainExtensionError {
    /// Reads a status code: zero is success, any other code is the error
    /// with that code.
    pub fn from_status_code(status_code: u32) -> (r: Result<(), ChainExtensionError>)
        ensures
            r == (if status_code == 0 {
                Ok::<(), ChainExtensionError>(())
            } else {
                Err::<(), ChainExtensionError>(ChainExtensionError { code: status_code })
            }),
    {
        if status_code == 0 {
            Ok(())
        } else {
            Err(ChainExtensionError { code: status_code })
        }
    }
}

impl From<parity_scale_codec::Error> for ChainExtensionError {
    /// A reply that does not decode is the error with code 1, whatever
    /// the codec said of it.
    fn from(_error: parity_scale_codec::Error) -> (r: Self) {
        ChainExtensionError { code: DECODE_FAILED }
    }
}

impl vstd::std_specs::convert::FromSpecImpl<parity_scale_codec::Error> for ChainExtensionError {
    open spec fn obeys_from_spec() -> bool {
        true
    }

    open spec fn from_spec(_error: parity_scale_codec::Error) -> Self {
        ChainExtensionError { code: DECODE_FAILED }
    }
}

/// The token gateway, as far as the bridge uses it.
pub trait TokenGatewayExt {
    fn teleport(&self, params: TeleportParams) -> Result<(), ChainExtensionError>;
}

/// What the bridge reports for the gateway's answer: success, or the
/// failure with the gateway's status code.
pub open spec fn outcome_of(answer: Result<(), ChainExtensionError>) -> Result<(), ContractError> {
    match answer {
        Ok(_) => Ok(()),
        Err(e) => Err(ContractError::ExtensionFailed(e.code)),
    }
}

/// Whether `outcome` is what the bridge may report after asking the
/// gateway `extension` for `params`: the gateway's answer is bound by what
/// the gateway promises of itself, and by nothing else.
pub open spec fn gateway_said<E: TokenGatewayExt>(
    extension: &E,
    params: TeleportParams,
    outcome: Result<(), ContractError>,
) -> bool {
    exists|answer: Result<(), ChainExtensionError>|
        #[trigger] call_ensures(E::teleport, (extension, params), answer) && outcome
            == outcome_of(answer)
}

/// Why the bridge refused or failed.
#[derive(Clone, Copy, Debug, PartialEq, Eq, Structural)]
pub enum ContractError {
    /// Less was paid in than is to be sent.
    InsufficientFunds,
    /// The gateway failed with the given status code.
    ExtensionFailed(u32),
}

/// The bridge.
pub struct Bridge {
    pub owner: AccountId,
}

impl Bridge {
    /// A bridge owned by `caller`.
    pub fn new(caller: AccountId) -> (r: Self)
        ensures
            r.owner == caller,
    {
        Bridge { owner: caller }
    }

    /// What the gateway is asked for a payment of `transferred_value`, or
    /// the refusal where that does not cover `amount`.
    pub fn teleport_request(
        transferred_value: u128,
        destination: u8,
        recipient: [u8; 32],
        asset_id: u32,
        amount: u128,
        timeout: u64,
        token_gateway: Vec<u8>,
        relayer_fee: u128,
        redeem: bool,
    ) -> (r: Result<TeleportParams, ContractError>)
        ensures
            transferred_value < amount ==> r == Err::<TeleportParams, ContractError>(
                ContractError::InsufficientFunds,
            ),
            transferred_value >= amount ==> r == Ok::<TeleportParams, ContractError>(
                TeleportParams {
                    asset_id,
                    destination,
                    recipient,
                    amount,
                    timeout,
                    token_gateway,
                    relayer_fee,
                    call_data: None,
                    redeem,
                },
            ),
    {
        if transferred_value < amount {
            return Err(ContractError::InsufficientFunds);
        }
        Ok(
            TeleportParams {
                asset_id,
                destination,
                recipient,
                amount,
                timeout,
                token_gateway,
                relayer_fee,
                call_data: None,
                redeem,
            },
        )
    }

    /// What the bridge reports for the gateway's answer.
    pub fn teleport_outcome(
        answer: Result<(), ChainExtensionError>,
    ) -> (r: Result<(), ContractError>)
        ensures
            r == outcome_of(answer),
    {
        match answer {
            Ok(()) => Ok(()),
            Err(e) => Err(ContractError::ExtensionFailed(e.code)),
        }
    }

    /// Sends `amount` through the gateway, out of a payment of
    /// `transferred_value`.
    ///
    /// A payment that does not cover the amount is refused and the gateway
    /// is not asked. Otherwise the gateway's answer decides: success, or
    /// the failure with the gateway's status code.
    pub fn bridge_and_send<E: TokenGatewayExt>(
        &mut self,
        extension: &E,
        transferred_value: u128,
        destination: u8,
        recipient: [u8; 32],
        asset_id: u32,
        amount: u128,
        timeout: u64,
        token_gateway: Vec<u8>,
        relayer_fee: u128,
        redeem: bool,
    ) -> (r: Result<(), ContractError>)
        ensures
            *final(self) == *old(self),
            transferred_value < amount ==> r == Err::<(), ContractError>(
                ContractError::InsufficientFunds,
            ),
            transferred_value >= amount ==> gateway_said(
                extension,
                TeleportParams {
                    asset_id,
                    destination,
                    recipient,
                    amount,
                    timeout,
                    token_gateway,
                    relayer_fee,
                    call_data: None,
                    redeem,
                },
                r,
            ),
    {
        let params = match Self::teleport_request(
            transferred_value,
            destination,
            recipient,
            asset_id,
            amount,
            timeout,
            token_gateway,
            relayer_fee,
            redeem,
        ) {
            Ok(params) => params,
            Err(e) => {
                return Err(e);
            },
        };
        let answer = extension.teleport(params);
        assert(call_ensures(E::teleport, (extension, params), answer));
        Self::teleport_outcome(answer)
    }
}

} // verus!
