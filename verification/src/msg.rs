//! The requests that the controller takes, and its answers to queries.

use vstd::prelude::*;
use crate::state::{Config, ConfigView};
use crate::timestamp::Timestamp;

verus! {

/// The terms with which a controller is created. It will have no
/// administrator afterwards, so they have to be right.
#[derive(Debug, PartialEq)]
pub struct InstantiateMsg {
    /// The beneficiary, as the text that the host is to check.
    pub withdraw_address: String,
    /// The delay between request and claim, in days.
    pub withdraw_delay_in_days: u64,
    /// The denomination in which the privileged channel sends.
    pub native_denom: String,
}

impl Clone for InstantiateMsg {
    fn clone(&self) -> (msg: InstantiateMsg)
        ensures
            msg == *self,
    {
        InstantiateMsg {
            withdraw_address: self.withdraw_address.clone(),
            withdraw_delay_in_days: self.withdraw_delay_in_days,
            native_denom: self.native_denom.clone(),
        }
    }
}

/// A request by an ordinary caller.
#[derive(Clone, Copy, Debug, PartialEq)]
pub enum ExecuteMsg {
    /// Starts the delay after which the balance can be claimed.
    StartWithdraw {},
    /// Claims the balance, once the delay has passed.
    ExecuteWithdraw {},
}

/// A request that reaches the controller through the privileged channel,
/// which only the host's governance can use.
#[derive(Debug, PartialEq)]
pub enum SudoMsg {
    /// Destroys everything the controller holds.
    ExecuteBurn {},
    /// Sends `amount` of the configured denomination to `recipient`.
    ExecuteSend { recipient: String, amount: u128 },
}

impl Clone for SudoMsg {
    fn clone(&self) -> (msg: SudoMsg)
        ensures
            msg == *self,
    {
        match self {
            SudoMsg::ExecuteBurn {  } => SudoMsg::ExecuteBurn {  },
            SudoMsg::ExecuteSend { recipient, amount } => SudoMsg::ExecuteSend {
                recipient: recipient.clone(),
                amount: *amount,
            },
        }
    }
}

/// A question about the controller's state.
#[derive(Clone, Copy, Debug, PartialEq)]
pub enum QueryMsg {
    /// What are the terms of the custody?
    GetConfig {},
    /// From when on can the requested withdrawal be claimed?
    GetWithdrawalReadyTime {},
    /// Can the requested withdrawal be claimed now?
    IsWithdrawalReady {},
}

/// The answer to [`QueryMsg::GetWithdrawalReadyTime`].
#[derive(Clone, Copy, Debug, PartialEq, Eq, Structural)]
pub struct WithdrawalTimestampResponse {
    pub withdrawal_ready_timestamp: Timestamp,
}

/// The answer to [`QueryMsg::IsWithdrawalReady`].
#[derive(Clone, Copy, Debug, PartialEq, Eq, Structural)]
pub struct WithdrawalReadyResponse {
    pub is_withdrawal_ready: bool,
}

/// The answer to a [`QueryMsg`], of the kind that the question asks for.
#[derive(Debug, PartialEq)]
pub enum QueryResponse {
    Config(Config),
    WithdrawalReadyTime(WithdrawalTimestampResponse),
    IsWithdrawalReady(WithdrawalReadyResponse),
}

/// What a [`QueryResponse`] stands for.
pub enum QueryResponseView {
    Config(ConfigView),
    WithdrawalReadyTime(WithdrawalTimestampResponse),
    IsWithdrawalReady(WithdrawalReadyResponse),
}

impl View for QueryResponse {
    type V = QueryResponseView;

    open spec fn view(&self) -> QueryResponseView {
        match self {
            QueryResponse::Config(config) => QueryResponseView::Config(config@),
            QueryResponse::WithdrawalReadyTime(answer) => QueryResponseView::WithdrawalReadyTime(
                *answer,
            ),
            QueryResponse::IsWithdrawalReady(answer) => QueryResponseView::IsWithdrawalReady(
                *answer,
            ),
        }
    }
}

} // verus!
