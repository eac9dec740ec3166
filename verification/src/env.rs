//! What the host tells the controller about the invocation it is handling.

use vstd::prelude::*;
use crate::addr::Addr;
use crate::coin::Coin;
use crate::timestamp::Timestamp;

verus! {

/// The block in which the invocation runs.
#[derive(Clone, Copy, Debug, PartialEq, Eq)]
pub struct BlockInfo {
    /// The host's present time.
    pub time: Timestamp,
}

/// The surroundings of an invocation.
#[derive(Clone, Copy, Debug, PartialEq, Eq)]
pub struct Env {
    pub block: BlockInfo,
}

/// Who invoked the controller, and with what.
#[derive(Debug, PartialEq)]
pub struct MessageInfo {
    /// The caller, as the host has authenticated it.
    pub sender: Addr,
    /// The funds that came with the call.
    pub funds: Vec<Coin>,
}

impl Clone for MessageInfo {
    fn clone(&self) -> (info: MessageInfo)
        ensures
            info.sender == self.sender,
            info.funds@ == self.funds@,
    {
        MessageInfo { sender: self.sender.clone(), funds: self.funds.clone() }
    }
}

} // verus!
