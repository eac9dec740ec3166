//! What the controller keeps between invocations.

use vstd::prelude::*;
use crate::addr::Addr;
use crate::timestamp::Timestamp;

verus! {

/// The terms of the custody, fixed when the controller is created.
#[derive(Debug, PartialEq)]
pub struct Config {
    /// The beneficiary: the only caller who may request and claim a
    /// withdrawal.
    pub withdraw_address: Addr,
    /// The number of days between a request and the earliest claim.
    pub withdraw_delay_in_days: u64,
    /// The denomination in which the privileged channel sends.
    pub native_denom: String,
}

/// What a [`Config`] stands for.
pub struct ConfigView {
    pub withdraw_address: Seq<char>,
    pub withdraw_delay_in_days: u64,
    pub native_denom: Seq<char>,
}

impl View for Config {
    type V = ConfigView;

    open spec fn view(&self) -> ConfigView {
        ConfigView {
            withdraw_address: self.withdraw_address@,
            withdraw_delay_in_days: self.withdraw_delay_in_days,
            native_denom: self.native_denom@,
        }
    }
}

impl Clone for Config {
    fn clone(&self) -> (config: Config)
        ensures
            config == *self,
    {
        Config {
            withdraw_address: self.withdraw_address.clone(),
            withdraw_delay_in_days: self.withdraw_delay_in_days,
            native_denom: self.native_denom.clone(),
        }
    }
}

/// Everything the controller stores: its configuration, absent until it has
/// been created, and the time from which the requested withdrawal can be
/// claimed, absent until the first request.
#[derive(Debug, PartialEq)]
pub struct State {
    pub config: Option<Config>,
    pub withdrawal_ready: Option<Timestamp>,
}

/// What a [`State`] stands for.
pub struct StateView {
    pub config: Option<ConfigView>,
    pub withdrawal_ready: Option<Timestamp>,
}

impl View for State {
    type V = StateView;

    open spec fn view(&self) -> StateView {
        StateView {
            config: match self.config {
                Some(config) => Some(config@),
                None => None,
            },
            withdrawal_ready: self.withdrawal_ready,
        }
    }
}

impl State {
    /// The state of a controller that has not been created yet.
    pub fn new() -> (state: State)
        ensures
            state@ == (StateView { config: None, withdrawal_ready: None }),
    {
        State { config: None, withdrawal_ready: None }
    }
}

} // verus!
