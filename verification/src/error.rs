//! The ways in which an operation of the controller can fail.

use vstd::prelude::*;

verus! {

/// A failure that does not come from the controller's own rules: a stored
/// value that is not there, or a refusal by the host.
#[derive(Debug, PartialEq, Eq)]
pub enum StdError {
    /// The stored value called `kind` was looked for and is absent.
    NotFound { kind: String },
    /// The host refused, with `msg` as its reason.
    GenericErr { msg: String },
}

/// What a [`StdError`] stands for.
pub enum StdErrorView {
    NotFound { kind: Seq<char> },
    GenericErr { msg: Seq<char> },
}

impl View for StdError {
    type V = StdErrorView;

    open spec fn view(&self) -> StdErrorView {
        match self {
            StdError::NotFound { kind } => StdErrorView::NotFound { kind: kind@ },
            StdError::GenericErr { msg } => StdErrorView::GenericErr { msg: msg@ },
        }
    }
}

/// A failed operation. The controller's state is as it was before.
#[derive(Debug, PartialEq, Eq)]
pub enum ContractError {
    /// A stored value was missing, or the host refused.
    Std(StdError),
    /// The caller is not the beneficiary.
    Unauthorized {},
    /// The delay since the withdrawal was requested has not passed.
    WithdrawalNotReady {},
    /// The controller holds less of its denomination than was to be sent.
    InsufficientContractBalance {},
    /// The controller holds nothing of its denomination.
    NoNativeBalance {},
    /// A failure described by `val` alone.
    CustomError { val: String },
}

/// What a [`ContractError`] stands for.
pub enum ContractErrorView {
    Std(StdErrorView),
    Unauthorized,
    WithdrawalNotReady,
    InsufficientContractBalance,
    NoNativeBalance,
    CustomError { val: Seq<char> },
}

impl View for ContractError {
    type V = ContractErrorView;

    open spec fn view(&self) -> ContractErrorView {
        match self {
            ContractError::Std(error) => ContractErrorView::Std(error@),
            ContractError::Unauthorized {  } => ContractErrorView::Unauthorized,
            ContractError::WithdrawalNotReady {  } => ContractErrorView::WithdrawalNotReady,
            ContractError::InsufficientContractBalance {  } =>
                ContractErrorView::InsufficientContractBalance,
            ContractError::NoNativeBalance {  } => ContractErrorView::NoNativeBalance,
            ContractError::CustomError { val } => ContractErrorView::CustomError { val: val@ },
        }
    }
}

/// The failure of having looked for the stored value called `kind` in vain.
pub open spec fn not_found(kind: Seq<char>) -> ContractErrorView {
    ContractErrorView::Std(StdErrorView::NotFound { kind })
}

} // verus!
