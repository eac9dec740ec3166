//! What holds of the controller across its operations.
//!
//! The laws are stated over the spec functions of [`crate::contract`], which
//! are the contracts of the executable operations.

use vstd::prelude::*;
use crate::coin::{CoinView, balance_of, total_of};
use crate::contract::{
    beneficiary, burn_response, claimable, execute_outcome, execute_send_outcome,
    execute_withdraw_outcome, instantiate_outcome, is_beneficiary, is_stranger,
    query_withdraw_ready_outcome, ready_time, send_response, start_withdraw_fits,
    start_withdraw_outcome, sudo_outcome, withdraw_response,
};
use crate::error::{ContractErrorView, StdErrorView};
use crate::ledger::{held_after, lemma_total_covers_balance, lemma_total_of_one};
use crate::msg::{ExecuteMsg, InstantiateMsg, SudoMsg, WithdrawalReadyResponse};
use crate::response::ResponseView;
use crate::state::StateView;
use crate::timestamp::Timestamp;

verus! {

/// Only the beneficiary can request or claim: whoever else calls is refused
/// as unauthorized, whatever the time and whatever the ledger holds, and the
/// state stays as it is.
pub proof fn lemma_stranger_is_refused(
    state: StateView,
    now: Timestamp,
    sender: Seq<char>,
    msg: ExecuteMsg,
    balances: Result<Seq<CoinView>, StdErrorView>,
)
    requires
        is_stranger(state, sender),
    ensures
        start_withdraw_outcome(state, now, sender) == (
            state,
            Err::<ResponseView, _>(ContractErrorView::Unauthorized),
        ),
        execute_withdraw_outcome(state, now, sender, balances) == Err::<ResponseView, _>(
            ContractErrorView::Unauthorized,
        ),
        execute_outcome(state, now, sender, msg, balances) == (
            state,
            Err::<ResponseView, _>(ContractErrorView::Unauthorized),
        ),
{
}

/// A request re-arms the delay: of two requests by the beneficiary, at `t1`
/// and then at the later `t2`, the second sets the time of readiness to `t2`
/// plus the delay, which is later than what the first had set, and leaves
/// the state as if the first had never been made.
pub proof fn lemma_request_rearms(
    state: StateView,
    sender: Seq<char>,
    t1: Timestamp,
    t2: Timestamp,
)
    requires
        is_beneficiary(state, sender),
        t1.nanos < t2.nanos,
        start_withdraw_fits(state, t1, sender),
        start_withdraw_fits(state, t2, sender),
    ensures
        ({
            let first = start_withdraw_outcome(state, t1, sender).0;
            let second = start_withdraw_outcome(first, t2, sender).0;
            let delay = state.config.unwrap().withdraw_delay_in_days;
            &&& first.withdrawal_ready is Some
            &&& second.withdrawal_ready is Some
            &&& second.withdrawal_ready.unwrap().nanos == ready_time(t2, delay)
            &&& second.withdrawal_ready.unwrap().nanos > first.withdrawal_ready.unwrap().nanos
            &&& second == start_withdraw_outcome(state, t2, sender).0
        }),
{
}

/// Readiness begins strictly after its time: a withdrawal that is ready at
/// `ready_at` is not ready at `ready_at` itself, and is ready at any later
/// time.
pub proof fn lemma_readiness_is_strict(state: StateView, ready_at: Timestamp, now: Timestamp)
    requires
        state.withdrawal_ready == Some(ready_at),
    ensures
        query_withdraw_ready_outcome(state, ready_at) == Ok::<_, StdErrorView>(
            WithdrawalReadyResponse { is_withdrawal_ready: false },
        ),
        now.nanos > ready_at.nanos ==> query_withdraw_ready_outcome(state, now) == Ok::<
            _,
            StdErrorView,
        >(WithdrawalReadyResponse { is_withdrawal_ready: true }),
        query_withdraw_ready_outcome(state, now) == Ok::<_, StdErrorView>(
            WithdrawalReadyResponse { is_withdrawal_ready: claimable(now, ready_at) },
        ),
{
}

/// Nothing is paid out early: the beneficiary's claim at or before the time
/// of readiness is refused as not ready, whatever the ledger holds, and so
/// gives no instruction.
pub proof fn lemma_no_early_claim(
    state: StateView,
    ready_at: Timestamp,
    now: Timestamp,
    sender: Seq<char>,
    balances: Result<Seq<CoinView>, StdErrorView>,
)
    requires
        is_beneficiary(state, sender),
        state.withdrawal_ready == Some(ready_at),
        now.nanos <= ready_at.nanos,
    ensures
        execute_withdraw_outcome(state, now, sender, balances) == Err::<ResponseView, _>(
            ContractErrorView::WithdrawalNotReady,
        ),
{
}

/// A claim sweeps the balance: the beneficiary's claim after the time of
/// readiness gives exactly one instruction, which transfers all that the
/// controller holds to the beneficiary and so leaves it with nothing of any
/// denomination.
pub proof fn lemma_withdraw_sweeps(
    state: StateView,
    ready_at: Timestamp,
    now: Timestamp,
    sender: Seq<char>,
    held: Seq<CoinView>,
    denom: Seq<char>,
)
    requires
        is_beneficiary(state, sender),
        state.withdrawal_ready == Some(ready_at),
        now.nanos > ready_at.nanos,
    ensures
        ({
            let response = withdraw_response(beneficiary(state), held);
            &&& execute_withdraw_outcome(state, now, sender, Ok(held)) == Ok::<
                _,
                ContractErrorView,
            >(response)
            &&& response.messages.len() == 1
            &&& held_after(held, response.messages[0], denom) == 0
        }),
{
}

/// The privileged channel is independent of withdrawals: what a privileged
/// request comes to is the same whether a withdrawal was never requested,
/// is pending, or can be claimed.
pub proof fn lemma_override_ignores_withdrawal(
    state: StateView,
    other: StateView,
    msg: SudoMsg,
    balances: Result<Seq<CoinView>, StdErrorView>,
    recipient: Result<Seq<char>, StdErrorView>,
)
    requires
        state.config == other.config,
    ensures
        sudo_outcome(state, msg, balances, recipient) == sudo_outcome(
            other,
            msg,
            balances,
            recipient,
        ),
{
}

/// A burn succeeds whenever the ledger answers, and destroys all that the
/// controller holds, so that nothing of any denomination is left.
pub proof fn lemma_burn_succeeds(
    state: StateView,
    msg: SudoMsg,
    held: Seq<CoinView>,
    recipient: Result<Seq<char>, StdErrorView>,
    denom: Seq<char>,
)
    requires
        msg is ExecuteBurn,
    ensures
        sudo_outcome(state, msg, Ok(held), recipient) == Ok::<_, ContractErrorView>(
            burn_response(held),
        ),
        burn_response(held).messages.len() == 1,
        held_after(held, burn_response(held).messages[0], denom) == 0,
{
}

/// A privileged send accounts for exactly its amount. Where the controller
/// holds `native` of the configured denomination and `amount` is more, the
/// send fails for want of balance and gives no instruction. Where `amount`
/// is no more and the recipient is well formed, the send succeeds, and its
/// one instruction takes `amount` of that denomination and nothing of any
/// other, so that at least `native - amount` of it stays.
pub proof fn lemma_send_accounting(
    state: StateView,
    held: Seq<CoinView>,
    recipient: Result<Seq<char>, StdErrorView>,
    amount: u128,
    native: u128,
    denom: Seq<char>,
)
    requires
        state.config is Some,
        balance_of(held, state.config.unwrap().native_denom) == Some(native),
    ensures
        ({
            let native_denom = state.config.unwrap().native_denom;
            let outcome = execute_send_outcome(state, Ok(held), recipient, amount);
            &&& amount > native ==> outcome == Err::<ResponseView, _>(
                ContractErrorView::InsufficientContractBalance,
            )
            &&& amount <= native ==> (recipient matches Ok(to) ==> {
                let response = send_response(to, amount, native_denom);
                let sent = response.messages[0];
                &&& outcome == Ok::<_, ContractErrorView>(response)
                &&& response.messages.len() == 1
                &&& held_after(held, sent, native_denom) == total_of(held, native_denom) - amount
                &&& held_after(held, sent, native_denom) >= native - amount
                &&& denom != native_denom ==> held_after(held, sent, denom) == total_of(
                    held,
                    denom,
                )
            })
        }),
{
    let native_denom = state.config.unwrap().native_denom;
    lemma_total_of_one(CoinView { denom: native_denom, amount }, native_denom);
    lemma_total_of_one(CoinView { denom: native_denom, amount }, denom);
    lemma_total_covers_balance(held, native_denom);
}

/// A failed operation changes nothing: where creation, a request or a claim
/// fails, the state afterwards is the state before.
pub proof fn lemma_failure_changes_nothing(
    state: StateView,
    now: Timestamp,
    sender: Seq<char>,
    msg: ExecuteMsg,
    balances: Result<Seq<CoinView>, StdErrorView>,
    terms: InstantiateMsg,
    verdict: Result<Seq<char>, StdErrorView>,
)
    ensures
        execute_outcome(state, now, sender, msg, balances).1 is Err ==> execute_outcome(
            state,
            now,
            sender,
            msg,
            balances,
        ).0 == state,
        instantiate_outcome(state, terms, verdict).1 is Err ==> instantiate_outcome(
            state,
            terms,
            verdict,
        ).0 == state,
{
}

} // verus!
