//! The operations of the controller.
//!
//! Each operation is given twice: as a spec function that says, over the
//! views of its inputs, what comes out, and as the executable function whose
//! contract is that spec function. The host's part of an invocation (what it
//! stores for the controller, what the ledger holds, whether an identity is
//! well formed) comes in as arguments.

use vstd::prelude::*;
use crate::addr::Addr;
use crate::coin::{Coin, CoinView, balance_of, coins, coins_view, find_balance};
use crate::error::{ContractError, ContractErrorView, StdError, StdErrorView, not_found};
use crate::decimal::{decimal, decimal_text};
use crate::env::{Env, MessageInfo};
use crate::msg::{
    ExecuteMsg, InstantiateMsg, QueryMsg, QueryResponse, QueryResponseView, SudoMsg,
    WithdrawalReadyResponse, WithdrawalTimestampResponse,
};
use crate::response::{AttributeView, BankMsg, BankMsgView, Response, ResponseView};
use crate::state::{Config, ConfigView, State, StateView};
use crate::timestamp::{Timestamp, nanos_per_second, timestamp_text};

verus! {

/// What the outcome of an operation stands for.
pub open spec fn result_view(result: Result<Response, ContractError>) -> Result<
    ResponseView,
    ContractErrorView,
> {
    match result {
        Ok(response) => Ok(response@),
        Err(error) => Err(error@),
    }
}

/// What the host's answer to "what does the controller hold?" stands for.
pub open spec fn balances_view(balances: Result<Vec<Coin>, StdError>) -> Result<
    Seq<CoinView>,
    StdErrorView,
> {
    match balances {
        Ok(held) => Ok(coins_view(held@)),
        Err(error) => Err(error@),
    }
}

/// What the host's answer to "is this identity well formed?" stands for.
pub open spec fn verdict_view(verdict: Result<Addr, StdError>) -> Result<
    Seq<char>,
    StdErrorView,
> {
    match verdict {
        Ok(addr) => Ok(addr@),
        Err(error) => Err(error@),
    }
}

/// The attribute with the given key and value.
pub open spec fn attribute(key: Seq<char>, value: Seq<char>) -> AttributeView {
    AttributeView { key, value }
}

/// The failure of having looked for the stored value called `kind` in vain,
/// as the answer to a query.
fn absent(kind: &str) -> (error: StdError)
    ensures
        error@ == (StdErrorView::NotFound { kind: kind@ }),
{
    StdError::NotFound { kind: kind.to_owned() }
}

/// The failure of having looked for the stored value called `kind` in vain,
/// as the outcome of an operation.
fn missing(kind: &str) -> (error: ContractError)
    ensures
        error@ == not_found(kind@),
{
    ContractError::Std(absent(kind))
}

/// The beneficiary of the controller in `state`.
pub open spec fn beneficiary(state: StateView) -> Seq<char>
    recommends
        state.config is Some,
{
    state.config.unwrap().withdraw_address
}

/// Whether the controller in `state` has been created with `sender` as its
/// beneficiary.
pub open spec fn is_beneficiary(state: StateView, sender: Seq<char>) -> bool {
    state.config is Some && sender == beneficiary(state)
}

/// Whether the controller in `state` has been created with someone other
/// than `sender` as its beneficiary.
pub open spec fn is_stranger(state: StateView, sender: Seq<char>) -> bool {
    state.config is Some && sender != beneficiary(state)
}

/// The acknowledgment of the creation of a controller for `withdraw_address`
/// with a delay of `delay_in_days`. It holds no instruction.
pub open spec fn instantiate_response(withdraw_address: Seq<char>, delay_in_days: u64)
    -> ResponseView {
    ResponseView {
        messages: seq![],
        attributes: seq![
            attribute("method"@, "instantiate"@),
            attribute("withdraw_address"@, withdraw_address),
            attribute("withdraw_delay"@, decimal(delay_in_days as nat)),
        ],
    }
}

/// What the creation of a controller with the terms of `msg` comes to: the
/// state afterwards, and the outcome.
///
/// `verdict` is the host's verdict on the beneficiary's identity. No caller
/// is turned away, and no bound is put on the delay.
pub open spec fn instantiate_outcome(
    state: StateView,
    msg: InstantiateMsg,
    verdict: Result<Seq<char>, StdErrorView>,
) -> (StateView, Result<ResponseView, ContractErrorView>) {
    match verdict {
        Err(error) => (state, Err(ContractErrorView::Std(error))),
        Ok(withdraw_address) => (
            StateView {
                config: Some(
                    ConfigView {
                        withdraw_address,
                        withdraw_delay_in_days: msg.withdraw_delay_in_days,
                        native_denom: msg.native_denom@,
                    },
                ),
                withdrawal_ready: state.withdrawal_ready,
            },
            Ok(instantiate_response(withdraw_address, msg.withdraw_delay_in_days)),
        ),
    }
}

/// Creates the controller: stores the terms of `msg`, with the beneficiary
/// as the host has accepted it.
///
/// `withdraw_address` is the host's verdict on `msg.withdraw_address`.
pub fn instantiate(
    state: &mut State,
    _env: Env,
    _info: MessageInfo,
    msg: InstantiateMsg,
    withdraw_address: Result<Addr, StdError>,
) -> (result: Result<Response, ContractError>)
    ensures
        (final(state)@, result_view(result)) == instantiate_outcome(
            old(state)@,
            msg,
            verdict_view(withdraw_address),
        ),
        result is Err ==> *final(state) == *old(state),
{
    let withdraw_address = match withdraw_address {
        Ok(withdraw_address) => withdraw_address,
        Err(error) => {
            return Err(ContractError::Std(error));
        },
    };
    let delay_text = decimal_text(msg.withdraw_delay_in_days);
    let response = Response::new().add_attribute("method", "instantiate").add_attribute(
        "withdraw_address",
        withdraw_address.as_str(),
    ).add_attribute("withdraw_delay", delay_text.as_str());
    let ghost expected = instantiate_response(withdraw_address@, msg.withdraw_delay_in_days);
    assert(response@.messages =~= expected.messages);
    assert(response@.attributes =~= expected.attributes);
    let config = Config {
        withdraw_address,
        withdraw_delay_in_days: msg.withdraw_delay_in_days,
        native_denom: msg.native_denom,
    };
    state.config = Some(config);
    Ok(response)
}

/// What a request of an ordinary caller comes to: the state afterwards, and
/// the outcome.
pub open spec fn execute_outcome(
    state: StateView,
    now: Timestamp,
    sender: Seq<char>,
    msg: ExecuteMsg,
    balances: Result<Seq<CoinView>, StdErrorView>,
) -> (StateView, Result<ResponseView, ContractErrorView>) {
    match msg {
        ExecuteMsg::StartWithdraw {  } => start_withdraw_outcome(state, now, sender),
        ExecuteMsg::ExecuteWithdraw {  } => (
            state,
            execute_withdraw_outcome(state, now, sender, balances),
        ),
    }
}

/// Handles a request of an ordinary caller.
///
/// `balances` is the ledger's answer to what the controller holds. A request
/// for withdrawal does not look at it.
pub fn execute(
    state: &mut State,
    env: Env,
    info: MessageInfo,
    msg: ExecuteMsg,
    balances: Result<Vec<Coin>, StdError>,
) -> (result: Result<Response, ContractError>)
    requires
        msg is StartWithdraw ==> start_withdraw_fits(old(state)@, env.block.time, info.sender@),
    ensures
        (final(state)@, result_view(result)) == execute_outcome(
            old(state)@,
            env.block.time,
            info.sender@,
            msg,
            balances_view(balances),
        ),
        result is Err || msg is ExecuteWithdraw ==> *final(state) == *old(state),
        is_stranger(old(state)@, info.sender@) ==> *final(state) == *old(state) && result_view(
            result,
        ) == Err::<ResponseView, _>(ContractErrorView::Unauthorized),
{
    match msg {
        ExecuteMsg::StartWithdraw {  } => start_withdraw(state, env, info),
        ExecuteMsg::ExecuteWithdraw {  } => execute_withdraw(state, env, info, balances),
    }
}

/// The number of seconds in a day.
pub open spec fn seconds_per_day() -> int {
    86_400
}

/// The time from which a withdrawal requested at `now` can be claimed, in
/// nanoseconds since the epoch: `delay_in_days` whole days later.
pub open spec fn ready_time(now: Timestamp, delay_in_days: u64) -> int {
    now.nanos + delay_in_days * seconds_per_day() * nanos_per_second()
}

/// Whether a withdrawal that is ready at `ready_at` can be claimed at `now`:
/// only once `ready_at` lies in the past.
pub open spec fn claimable(now: Timestamp, ready_at: Timestamp) -> bool {
    now.nanos > ready_at.nanos
}

/// The acknowledgment of a request for withdrawal that will be ready at
/// `ready_at`. It holds no instruction.
pub open spec fn start_response(ready_at: Timestamp) -> ResponseView {
    ResponseView {
        messages: seq![],
        attributes: seq![
            attribute("action"@, "start_withdraw"@),
            attribute("withdrawal_ready_timestamp"@, timestamp_text(ready_at.nanos)),
        ],
    }
}

/// What a request for withdrawal by `sender` at `now` comes to: the state
/// afterwards, and the outcome.
///
/// Only the beneficiary can make it. It sets the time of readiness anew,
/// counted from `now`, whatever that time was before.
pub open spec fn start_withdraw_outcome(state: StateView, now: Timestamp, sender: Seq<char>) -> (
    StateView,
    Result<ResponseView, ContractErrorView>,
) {
    match state.config {
        None => (state, Err(not_found("config"@))),
        Some(config) => if sender != config.withdraw_address {
            (state, Err(ContractErrorView::Unauthorized))
        } else {
            let ready_at = Timestamp {
                nanos: ready_time(now, config.withdraw_delay_in_days) as u64,
            };
            (
                StateView { config: state.config, withdrawal_ready: Some(ready_at) },
                Ok(start_response(ready_at)),
            )
        },
    }
}

/// Whether a request for withdrawal by `sender` at `now` stays within the
/// range of a [`Timestamp`]. A request that the controller refuses always
/// does.
pub open spec fn start_withdraw_fits(state: StateView, now: Timestamp, sender: Seq<char>) -> bool {
    state.config matches Some(config) ==> (sender == config.withdraw_address ==> ready_time(
        now,
        config.withdraw_delay_in_days,
    ) <= u64::MAX)
}

/// Tells whether [`start_withdraw`] can be called: whether the time of
/// readiness that it would set stays within the range of a [`Timestamp`].
pub fn start_withdraw_in_range(state: &State, env: Env, info: &MessageInfo) -> (fits: bool)
    ensures
        fits == start_withdraw_fits(state@, env.block.time, info.sender@),
{
    match &state.config {
        None => true,
        Some(config) => {
            if !(info.sender == config.withdraw_address) {
                true
            } else {
                let nanos_in_day: u64 = 86_400_000_000_000;
                let room: u64 = u64::MAX - env.block.time.nanos;
                config.withdraw_delay_in_days <= room / nanos_in_day
            }
        },
    }
}

/// Requests the withdrawal: from the configured delay after the present
/// time on, the beneficiary can claim the balance.
///
/// The time of readiness has to be one that a [`Timestamp`] can hold, which
/// [`start_withdraw_in_range`] tells.
pub fn start_withdraw(state: &mut State, env: Env, info: MessageInfo) -> (result: Result<
    Response,
    ContractError,
>)
    requires
        start_withdraw_fits(old(state)@, env.block.time, info.sender@),
    ensures
        (final(state)@, result_view(result)) == start_withdraw_outcome(
            old(state)@,
            env.block.time,
            info.sender@,
        ),
        result is Err ==> *final(state) == *old(state),
        is_stranger(old(state)@, info.sender@) ==> *final(state) == *old(state) && result_view(
            result,
        ) == Err::<ResponseView, _>(ContractErrorView::Unauthorized),
{
    let delay_in_days: u64 = match &state.config {
        Some(config) => {
            if !(info.sender == config.withdraw_address) {
                return Err(ContractError::Unauthorized {  });
            }
            config.withdraw_delay_in_days
        },
        None => {
            return Err(missing("config"));
        },
    };
    let seconds_in_day: u64 = 86400;
    let delay_in_seconds: u64 = delay_in_days * seconds_in_day;
    let now = env.block.time;
    let ready_at = now.plus_seconds(delay_in_seconds);
    state.withdrawal_ready = Some(ready_at);
    let ready_text = ready_at.text();
    let response = Response::new().add_attribute("action", "start_withdraw").add_attribute(
        "withdrawal_ready_timestamp",
        ready_text.as_str(),
    );
    assert(response@.messages =~= start_response(ready_at).messages);
    assert(response@.attributes =~= start_response(ready_at).attributes);
    Ok(response)
}

/// The acknowledgment of a claim by `beneficiary` while the controller holds
/// `held`: one transfer, of all of `held`, to `beneficiary`.
pub open spec fn withdraw_response(beneficiary: Seq<char>, held: Seq<CoinView>) -> ResponseView {
    ResponseView {
        messages: seq![BankMsgView::Send { to_address: beneficiary, amount: held }],
        attributes: seq![
            attribute("action"@, "execute_withdraw"@),
            attribute("withdraw_address"@, beneficiary),
        ],
    }
}

/// What a claim by `sender` at `now` comes to.
///
/// Only the beneficiary can claim, only after a request, and only once the
/// time of readiness lies in the past. The ledger is consulted last: its
/// answer matters to a claim that passed all of this, and to no other.
pub open spec fn execute_withdraw_outcome(
    state: StateView,
    now: Timestamp,
    sender: Seq<char>,
    balances: Result<Seq<CoinView>, StdErrorView>,
) -> Result<ResponseView, ContractErrorView> {
    match state.config {
        None => Err(not_found("config"@)),
        Some(config) => if sender != config.withdraw_address {
            Err(ContractErrorView::Unauthorized)
        } else {
            match state.withdrawal_ready {
                None => Err(not_found("withdrawal_ready"@)),
                Some(ready_at) => if !claimable(now, ready_at) {
                    Err(ContractErrorView::WithdrawalNotReady)
                } else {
                    match balances {
                        Err(error) => Err(ContractErrorView::Std(error)),
                        Ok(held) => Ok(withdraw_response(config.withdraw_address, held)),
                    }
                },
            }
        },
    }
}

/// Claims the withdrawal: everything the controller holds goes to the
/// beneficiary. The time of readiness stays as it is, so a later claim needs
/// no new request.
///
/// `balances` is the ledger's answer to what the controller holds.
pub fn execute_withdraw(
    state: &State,
    env: Env,
    info: MessageInfo,
    balances: Result<Vec<Coin>, StdError>,
) -> (result: Result<Response, ContractError>)
    ensures
        result_view(result) == execute_withdraw_outcome(
            state@,
            env.block.time,
            info.sender@,
            balances_view(balances),
        ),
        is_stranger(state@, info.sender@) ==> result_view(result) == Err::<ResponseView, _>(
            ContractErrorView::Unauthorized,
        ),
        is_beneficiary(state@, info.sender@) ==> (state.withdrawal_ready matches Some(ready_at)
            ==> (env.block.time.nanos <= ready_at.nanos ==> result_view(result) == Err::<
            ResponseView,
            _,
        >(ContractErrorView::WithdrawalNotReady))),
        is_beneficiary(state@, info.sender@) ==> (state.withdrawal_ready matches Some(ready_at)
            ==> (env.block.time.nanos > ready_at.nanos ==> (balances matches Ok(held)
            ==> result_view(result) == Ok::<_, ContractErrorView>(
            withdraw_response(beneficiary(state@), coins_view(held@)),
        )))),
{
    let config = match &state.config {
        Some(config) => config,
        None => {
            return Err(missing("config"));
        },
    };
    if !(info.sender == config.withdraw_address) {
        return Err(ContractError::Unauthorized {  });
    }
    let ready_at = match state.withdrawal_ready {
        Some(ready_at) => ready_at,
        None => {
            return Err(missing("withdrawal_ready"));
        },
    };
    let withdrawal_claimable = env.block.time.nanos > ready_at.nanos;
    if !withdrawal_claimable {
        return Err(ContractError::WithdrawalNotReady {  });
    }
    let amount = match balances {
        Ok(held) => held,
        Err(error) => {
            return Err(ContractError::Std(error));
        },
    };
    let withdraw_address = config.withdraw_address.as_str();
    let mut msgs: Vec<BankMsg> = Vec::new();
    msgs.push(BankMsg::Send { to_address: withdraw_address.to_owned(), amount });
    let response = Response::new().add_attribute("action", "execute_withdraw").add_attribute(
        "withdraw_address",
        withdraw_address,
    ).add_messages(msgs);
    let ghost expected = withdraw_response(config@.withdraw_address, coins_view(amount@));
    assert(response@.messages =~= expected.messages);
    assert(response@.attributes =~= expected.attributes);
    Ok(response)
}

/// What a request on the privileged channel comes to. The state stays as it
/// is, and neither the time nor the state of a withdrawal has a say.
pub open spec fn sudo_outcome(
    state: StateView,
    msg: SudoMsg,
    balances: Result<Seq<CoinView>, StdErrorView>,
    recipient: Result<Seq<char>, StdErrorView>,
) -> Result<ResponseView, ContractErrorView> {
    match msg {
        SudoMsg::ExecuteBurn {  } => execute_burn_outcome(balances),
        SudoMsg::ExecuteSend { recipient: _, amount } => execute_send_outcome(
            state,
            balances,
            recipient,
            amount,
        ),
    }
}

/// Handles a request on the privileged channel. Who may use that channel is
/// the host's affair: no caller is named, and none is checked.
///
/// `balances` is the ledger's answer to what the controller holds, and
/// `recipient` the host's verdict on the recipient that `msg` names. A burn
/// does not look at the verdict.
pub fn sudo(
    state: &State,
    msg: SudoMsg,
    balances: Result<Vec<Coin>, StdError>,
    recipient: Result<Addr, StdError>,
) -> (result: Result<Response, ContractError>)
    ensures
        result_view(result) == sudo_outcome(
            state@,
            msg,
            balances_view(balances),
            verdict_view(recipient),
        ),
{
    match msg {
        SudoMsg::ExecuteBurn {  } => execute_burn(balances),
        SudoMsg::ExecuteSend { recipient: _, amount } => execute_send(
            state,
            balances,
            recipient,
            amount,
        ),
    }
}

/// The acknowledgment of a burn while the controller holds `held`: one
/// instruction, to destroy all of `held`.
pub open spec fn burn_response(held: Seq<CoinView>) -> ResponseView {
    ResponseView {
        messages: seq![BankMsgView::Burn { amount: held }],
        attributes: seq![attribute("message_type"@, "sudo"@), attribute("action"@, "burn"@)],
    }
}

/// What a burn comes to. It fails only where the ledger gives no answer.
pub open spec fn execute_burn_outcome(balances: Result<Seq<CoinView>, StdErrorView>) -> Result<
    ResponseView,
    ContractErrorView,
> {
    match balances {
        Err(error) => Err(ContractErrorView::Std(error)),
        Ok(held) => Ok(burn_response(held)),
    }
}

/// Destroys everything the controller holds, which may be nothing.
///
/// `balances` is the ledger's answer to what the controller holds.
pub fn execute_burn(balances: Result<Vec<Coin>, StdError>) -> (result: Result<
    Response,
    ContractError,
>)
    ensures
        result_view(result) == execute_burn_outcome(balances_view(balances)),
{
    let amount = match balances {
        Ok(held) => held,
        Err(error) => {
            return Err(ContractError::Std(error));
        },
    };
    let ghost expected = burn_response(coins_view(amount@));
    let burn_msg = BankMsg::Burn { amount };
    let mut msgs: Vec<BankMsg> = Vec::new();
    msgs.push(burn_msg);
    let response = Response::new().add_attribute("message_type", "sudo").add_attribute(
        "action",
        "burn",
    ).add_messages(msgs);
    assert(response@.messages =~= expected.messages);
    assert(response@.attributes =~= expected.attributes);
    Ok(response)
}

/// The acknowledgment of a privileged send of `amount` of `denom` to
/// `recipient`: one transfer, of that amount in that denomination alone.
pub open spec fn send_response(recipient: Seq<char>, amount: u128, denom: Seq<char>)
    -> ResponseView {
    ResponseView {
        messages: seq![
            BankMsgView::Send { to_address: recipient, amount: seq![CoinView { denom, amount }] },
        ],
        attributes: seq![attribute("message_type"@, "sudo"@), attribute("action"@, "send"@)],
    }
}

/// What a privileged send comes to.
///
/// It needs a configuration, an answer from the ledger, a balance in the
/// configured denomination that covers `amount`, and a well-formed
/// recipient, and fails on the first of these that is missing. Neither the
/// beneficiary nor a pending withdrawal has a say.
pub open spec fn execute_send_outcome(
    state: StateView,
    balances: Result<Seq<CoinView>, StdErrorView>,
    recipient: Result<Seq<char>, StdErrorView>,
    amount: u128,
) -> Result<ResponseView, ContractErrorView> {
    match state.config {
        None => Err(not_found("config"@)),
        Some(config) => match balances {
            Err(error) => Err(ContractErrorView::Std(error)),
            Ok(held) => match balance_of(held, config.native_denom) {
                None => Err(ContractErrorView::NoNativeBalance),
                Some(native) => if native < amount {
                    Err(ContractErrorView::InsufficientContractBalance)
                } else {
                    match recipient {
                        Err(error) => Err(ContractErrorView::Std(error)),
                        Ok(to) => Ok(send_response(to, amount, config.native_denom)),
                    }
                },
            },
        },
    }
}

/// Sends `amount` of the configured denomination to `recipient`, whatever
/// the state of a withdrawal.
///
/// `balances` is the ledger's answer to what the controller holds, and
/// `recipient` the host's verdict on the identity that is to receive.
pub fn execute_send(
    state: &State,
    balances: Result<Vec<Coin>, StdError>,
    recipient: Result<Addr, StdError>,
    amount: u128,
) -> (result: Result<Response, ContractError>)
    ensures
        result_view(result) == execute_send_outcome(
            state@,
            balances_view(balances),
            verdict_view(recipient),
            amount,
        ),
{
    let config = match &state.config {
        Some(config) => config,
        None => {
            return Err(missing("config"));
        },
    };
    let held = match balances {
        Ok(held) => held,
        Err(error) => {
            return Err(ContractError::Std(error));
        },
    };
    match find_balance(&held, &config.native_denom) {
        Some(native) => {
            if native < amount {
                return Err(ContractError::InsufficientContractBalance {  });
            }
        },
        None => {
            return Err(ContractError::NoNativeBalance {  });
        },
    }
    let to = match recipient {
        Ok(to) => to,
        Err(error) => {
            return Err(ContractError::Std(error));
        },
    };
    let send_msg = BankMsg::Send {
        to_address: to.into_string(),
        amount: coins(amount, config.native_denom.as_str()),
    };
    let mut msgs: Vec<BankMsg> = Vec::new();
    msgs.push(send_msg);
    let response = Response::new().add_attribute("message_type", "sudo").add_attribute(
        "action",
        "send",
    ).add_messages(msgs);
    assert(response@.messages =~= send_response(to@, amount, config@.native_denom).messages);
    assert(response@.attributes =~= send_response(to@, amount, config@.native_denom).attributes);
    Ok(response)
}

/// What the answer to a query stands for.
pub open spec fn answer_view(answer: Result<QueryResponse, StdError>) -> Result<
    QueryResponseView,
    StdErrorView,
> {
    match answer {
        Ok(response) => Ok(response@),
        Err(error) => Err(error@),
    }
}

/// What the answer to the question for the terms stands for.
pub open spec fn config_answer_view(answer: Result<Config, StdError>) -> Result<
    ConfigView,
    StdErrorView,
> {
    match answer {
        Ok(config) => Ok(config@),
        Err(error) => Err(error@),
    }
}

/// What an answer stands for that, where it is one, is a plain value.
pub open spec fn plain_answer_view<T>(answer: Result<T, StdError>) -> Result<T, StdErrorView> {
    match answer {
        Ok(response) => Ok(response),
        Err(error) => Err(error@),
    }
}

/// The answer to the question `msg` at `now`.
pub open spec fn query_outcome(state: StateView, now: Timestamp, msg: QueryMsg) -> Result<
    QueryResponseView,
    StdErrorView,
> {
    match msg {
        QueryMsg::GetConfig {  } => match query_config_outcome(state) {
            Ok(config) => Ok(QueryResponseView::Config(config)),
            Err(error) => Err(error),
        },
        QueryMsg::GetWithdrawalReadyTime {  } => match get_withdraw_ready_outcome(state) {
            Ok(answer) => Ok(QueryResponseView::WithdrawalReadyTime(answer)),
            Err(error) => Err(error),
        },
        QueryMsg::IsWithdrawalReady {  } => match query_withdraw_ready_outcome(state, now) {
            Ok(answer) => Ok(QueryResponseView::IsWithdrawalReady(answer)),
            Err(error) => Err(error),
        },
    }
}

/// Answers a question about the controller's state. Anyone may ask.
pub fn query(state: &State, env: Env, msg: QueryMsg) -> (answer: Result<QueryResponse, StdError>)
    ensures
        answer_view(answer) == query_outcome(state@, env.block.time, msg),
{
    match msg {
        QueryMsg::GetConfig {  } => match query_config(state) {
            Ok(config) => Ok(QueryResponse::Config(config)),
            Err(error) => Err(error),
        },
        QueryMsg::GetWithdrawalReadyTime {  } => match get_withdraw_ready(state) {
            Ok(answer) => Ok(QueryResponse::WithdrawalReadyTime(answer)),
            Err(error) => Err(error),
        },
        QueryMsg::IsWithdrawalReady {  } => match query_withdraw_ready(state, env) {
            Ok(answer) => Ok(QueryResponse::IsWithdrawalReady(answer)),
            Err(error) => Err(error),
        },
    }
}

/// The answer to the question for the terms of the custody.
pub open spec fn query_config_outcome(state: StateView) -> Result<ConfigView, StdErrorView> {
    match state.config {
        Some(config) => Ok(config),
        None => Err(StdErrorView::NotFound { kind: "config"@ }),
    }
}

/// The terms of the custody, as they are stored.
pub fn query_config(state: &State) -> (answer: Result<Config, StdError>)
    ensures
        config_answer_view(answer) == query_config_outcome(state@),
{
    match &state.config {
        Some(config) => Ok(config.clone()),
        None => Err(absent("config")),
    }
}

/// The answer to the question from when on the withdrawal can be claimed.
/// Before the first request there is none.
pub open spec fn get_withdraw_ready_outcome(state: StateView) -> Result<
    WithdrawalTimestampResponse,
    StdErrorView,
> {
    match state.withdrawal_ready {
        Some(ready_at) => Ok(WithdrawalTimestampResponse { withdrawal_ready_timestamp: ready_at }),
        None => Err(StdErrorView::NotFound { kind: "withdrawal_ready"@ }),
    }
}

/// The time from which the requested withdrawal can be claimed.
pub fn get_withdraw_ready(state: &State) -> (answer: Result<
    WithdrawalTimestampResponse,
    StdError,
>)
    ensures
        plain_answer_view(answer) == get_withdraw_ready_outcome(state@),
{
    match state.withdrawal_ready {
        Some(ready_at) => Ok(WithdrawalTimestampResponse { withdrawal_ready_timestamp: ready_at }),
        None => Err(absent("withdrawal_ready")),
    }
}

/// The answer to the question whether the withdrawal can be claimed at
/// `now`. Before the first request there is none.
pub open spec fn query_withdraw_ready_outcome(state: StateView, now: Timestamp) -> Result<
    WithdrawalReadyResponse,
    StdErrorView,
> {
    match state.withdrawal_ready {
        Some(ready_at) => Ok(WithdrawalReadyResponse { is_withdrawal_ready: claimable(now, ready_at) }),
        None => Err(StdErrorView::NotFound { kind: "withdrawal_ready"@ }),
    }
}

/// Whether the requested withdrawal can be claimed at the present time: not
/// yet at the very time of readiness, and at any time after it.
pub fn query_withdraw_ready(state: &State, env: Env) -> (answer: Result<
    WithdrawalReadyResponse,
    StdError,
>)
    ensures
        plain_answer_view(answer) == query_withdraw_ready_outcome(state@, env.block.time),
        state.withdrawal_ready matches Some(ready_at) ==> answer matches Ok(response)
            && response.is_withdrawal_ready == (env.block.time.nanos > ready_at.nanos),
{
    let ready_at = match state.withdrawal_ready {
        Some(ready_at) => ready_at,
        None => {
            return Err(absent("withdrawal_ready"));
        },
    };
    let is_withdrawal_ready = env.block.time.nanos > ready_at.nanos;
    Ok(WithdrawalReadyResponse { is_withdrawal_ready })
}

} // verus!
