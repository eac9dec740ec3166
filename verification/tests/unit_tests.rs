use cosmwasm_std::testing::MockApi;
use cosmwasm_std::Api;
use cw_unity_prop::addr::Addr;
use cw_unity_prop::coin::{coins, Coin};
use cw_unity_prop::contract::{execute, instantiate, query, sudo};
use cw_unity_prop::env::{BlockInfo, Env, MessageInfo};
use cw_unity_prop::error::StdError;
use cw_unity_prop::msg::{
    ExecuteMsg, InstantiateMsg, QueryMsg, QueryResponse, SudoMsg, WithdrawalReadyResponse,
    WithdrawalTimestampResponse,
};
use cw_unity_prop::response::{BankMsg, Response};
use cw_unity_prop::state::{Config, State};
use cw_unity_prop::timestamp::Timestamp;
use cw_unity_prop::ContractError;

const NATIVE_DENOM: &str = "ujuno";

/// The library's view of a host timestamp.
fn at(time: cosmwasm_std::Timestamp) -> Timestamp {
    Timestamp::from_nanos(time.nanos())
}

/// The surroundings that the host's test helpers give to an invocation.
fn mock_env() -> Env {
    let env = cosmwasm_std::testing::mock_env();
    Env { block: BlockInfo { time: at(env.block.time) } }
}

/// A call by `sender` that brings `funds`.
fn mock_info(sender: &str, funds: &[Coin]) -> MessageInfo {
    MessageInfo { sender: Addr::unchecked(sender.to_string()), funds: funds.to_vec() }
}

/// The verdict of the host's test API on `input`.
fn validate(input: &str) -> Result<Addr, StdError> {
    match MockApi::default().addr_validate(input) {
        Ok(addr) => Ok(Addr::unchecked(addr.into_string())),
        Err(cosmwasm_std::StdError::NotFound { kind, .. }) => Err(StdError::NotFound { kind }),
        Err(cosmwasm_std::StdError::GenericErr { msg, .. }) => Err(StdError::GenericErr { msg }),
        Err(other) => Err(StdError::GenericErr { msg: other.to_string() }),
    }
}

/// A controller created for `withdraw_address` with a delay of 28 days.
fn created(withdraw_address: &str, funds: &[Coin], env: Env) -> State {
    let mut state = State::new();
    let msg = InstantiateMsg {
        withdraw_address: withdraw_address.to_string(),
        withdraw_delay_in_days: 28,
        native_denom: NATIVE_DENOM.to_string(),
    };

    // the person instantiating
    let instantiate_info = mock_info("bud-fox-address", funds);

    // call .unwrap() to assert this was a success
    let res =
        instantiate(&mut state, env, instantiate_info, msg, validate(withdraw_address)).unwrap();
    assert_eq!(0, res.messages.len());
    state
}

/// The ledger's answer while the controller holds `funds`.
fn holding(funds: &[Coin]) -> Result<Vec<Coin>, StdError> {
    Ok(funds.to_vec())
}

fn is_ready(state: &State, env: Env) -> WithdrawalReadyResponse {
    match query(state, env, QueryMsg::IsWithdrawalReady {}).unwrap() {
        QueryResponse::IsWithdrawalReady(answer) => answer,
        other => panic!("not an answer to the question asked: {:?}", other),
    }
}

#[test]
fn initialization() {
    let mut state = State::new();

    let withdraw_address = String::from("gordon-gekko-address");
    let validated_addr = Addr::unchecked(withdraw_address.clone());
    let withdraw_delay_in_days = 28; // this is what we are expecting to set it to

    let msg = InstantiateMsg {
        withdraw_address: withdraw_address.clone(),
        withdraw_delay_in_days,
        native_denom: NATIVE_DENOM.to_string(),
    };

    // the person instantiating
    let instantiate_info = mock_info("bud-fox-address", &[]);

    // call .unwrap() to assert this was a success
    let res = instantiate(
        &mut state,
        mock_env(),
        instantiate_info,
        msg,
        validate(&withdraw_address),
    )
    .unwrap();
    assert_eq!(0, res.messages.len());

    // query state
    let res = query(&state, mock_env(), QueryMsg::GetConfig {}).unwrap();
    let contract_config = match res {
        QueryResponse::Config(config) => config,
        other => panic!("not an answer to the question asked: {:?}", other),
    };
    assert_eq!(
        Config {
            withdraw_address: validated_addr,
            withdraw_delay_in_days,
            native_denom: NATIVE_DENOM.to_string(),
        },
        contract_config
    );
}

#[test]
fn unit_tests_sudo_burn() {
    let mut env = mock_env();

    env.block.time = at(cosmwasm_std::Timestamp::from_seconds(0));

    let funds_sent_to_contract = coins(1_000_000, NATIVE_DENOM);

    let state = created("gordon-gekko-address", &funds_sent_to_contract, env);

    // mock funds being added to contract
    let balances = holding(&funds_sent_to_contract);

    // mock sudo_msg
    let msg = SudoMsg::ExecuteBurn {};
    let res = sudo(&state, msg, balances, validate("gordon-gekko-address")).unwrap();

    // cosmos msgs we expect
    let msgs: Vec<BankMsg> = vec![BankMsg::Burn { amount: funds_sent_to_contract }];

    assert_eq!(
        res,
        Response::new()
            .add_attribute("message_type", "sudo")
            .add_attribute("action", "burn")
            .add_messages(msgs)
    );
}

#[test]
fn unit_tests_sudo_send() {
    let mut env = mock_env();

    env.block.time = at(cosmwasm_std::Timestamp::from_seconds(0));

    let funds_sent_to_contract = coins(3_000_000, NATIVE_DENOM);

    // look I get that this is an increasingly niche joke
    let community_nominated_address = String::from("carl-fox-address");

    let state = created("gordon-gekko-address", &funds_sent_to_contract, env);

    // mock funds being added to contract
    let balances = holding(&funds_sent_to_contract);

    // mock sudo_msg
    // as if we are just gonna send the funds to the maintenance union
    // note that amount (as documented) is NATIVE DENOM, not coins
    let msg = SudoMsg::ExecuteSend {
        recipient: community_nominated_address.clone(),
        amount: 3_000_000, // spell it out explicitly
    };
    let res = sudo(&state, msg, balances, validate(&community_nominated_address)).unwrap();

    // cosmos msgs we expect
    let msgs: Vec<BankMsg> = vec![BankMsg::Send {
        to_address: community_nominated_address,
        amount: funds_sent_to_contract,
    }];

    assert_eq!(
        res,
        Response::new()
            .add_attribute("message_type", "sudo")
            .add_attribute("action", "send")
            .add_messages(msgs)
    );
}

#[test]
fn unit_tests_start_withdraw() {
    let mut env = mock_env();

    env.block.time = at(cosmwasm_std::Timestamp::from_seconds(0));

    let funds_sent_to_contract = coins(1_000_000, NATIVE_DENOM);

    let withdraw_address = String::from("gordon-gekko-address");

    let mut state = created(&withdraw_address, &funds_sent_to_contract, env);

    // mock funds being added to contract
    let balances = holding(&funds_sent_to_contract);

    // only withdraw_address can call
    let info = mock_info(&withdraw_address, &[]);
    let msg = ExecuteMsg::StartWithdraw {};
    let _res = execute(&mut state, env, info, msg, balances).unwrap();

    // is the withdrawal ready?
    assert_eq!(WithdrawalReadyResponse { is_withdrawal_ready: false }, is_ready(&state, env));

    // query timestamp
    let res = query(&state, env, QueryMsg::GetWithdrawalReadyTime {}).unwrap();
    let value = match res {
        QueryResponse::WithdrawalReadyTime(answer) => answer,
        other => panic!("not an answer to the question asked: {:?}", other),
    };

    // 28 days time from 'now', where 'now' is zero
    let delay_in_seconds = 28u64 * 86400u64;
    let twenty_eight_days_from_now_timestamp =
        cosmwasm_std::Timestamp::from_seconds(0).plus_seconds(delay_in_seconds);

    assert_eq!(
        WithdrawalTimestampResponse {
            withdrawal_ready_timestamp: at(twenty_eight_days_from_now_timestamp),
        },
        value
    );
}

#[test]
fn withdraw_is_claimable() {
    let mut env = mock_env();

    env.block.time = at(cosmwasm_std::Timestamp::from_seconds(0));

    let funds_sent_to_contract = coins(1_000_000, NATIVE_DENOM);

    let withdraw_address = String::from("gordon-gekko-address");

    let mut state = created(&withdraw_address, &funds_sent_to_contract, env);

    // random address can't call
    let random = mock_info("some-random-guy", &[]);
    let msg = ExecuteMsg::StartWithdraw {};
    let err =
        execute(&mut state, env, random, msg, holding(&funds_sent_to_contract)).unwrap_err();
    assert_eq!(err, ContractError::Unauthorized {});

    // only withdraw_address can call
    let info = mock_info(&withdraw_address, &[]);
    let msg = ExecuteMsg::StartWithdraw {};
    let _res = execute(&mut state, env, info, msg, holding(&funds_sent_to_contract)).unwrap();

    // 28 days time from 'now', where 'now' is zero
    let delay_in_seconds = 28u64 * 86400u64;
    let twenty_eight_days_from_now_timestamp =
        cosmwasm_std::Timestamp::from_seconds(0).plus_seconds(delay_in_seconds);

    // roll time forward in env to 1 hr after timestamp
    env.block.time = at(twenty_eight_days_from_now_timestamp.plus_seconds(3600));

    // is the withdrawal ready?
    assert_eq!(WithdrawalReadyResponse { is_withdrawal_ready: true }, is_ready(&state, env));
}

#[test]
fn claim_withdrawal() {
    let mut env = mock_env();

    env.block.time = at(cosmwasm_std::Timestamp::from_seconds(0));

    let funds_sent_to_contract = coins(1_000_000, NATIVE_DENOM);

    let withdraw_address = String::from("gordon-gekko-address");

    let mut state = created(&withdraw_address, &funds_sent_to_contract, env);

    // only withdraw_address can call
    let info = mock_info(&withdraw_address, &[]);
    let msg = ExecuteMsg::StartWithdraw {};
    let _res =
        execute(&mut state, env, info.clone(), msg, holding(&funds_sent_to_contract)).unwrap();

    // 28 days time from 'now', where 'now' is zero
    let delay_in_seconds = 28u64 * 86400u64;
    let twenty_eight_days_from_now_timestamp =
        cosmwasm_std::Timestamp::from_seconds(0).plus_seconds(delay_in_seconds);

    // roll time forward in env to 1 hr after timestamp
    env.block.time = at(twenty_eight_days_from_now_timestamp.plus_seconds(3600));

    // is the withdrawal ready?
    assert_eq!(WithdrawalReadyResponse { is_withdrawal_ready: true }, is_ready(&state, env));

    // random address can't call claim
    let random = mock_info("some-random-guy", &[]);
    let msg = ExecuteMsg::ExecuteWithdraw {};
    let err =
        execute(&mut state, env, random, msg, holding(&funds_sent_to_contract)).unwrap_err();
    assert_eq!(err, ContractError::Unauthorized {});

    // LFG
    let msg = ExecuteMsg::ExecuteWithdraw {};
    let res = execute(&mut state, env, info, msg, holding(&funds_sent_to_contract)).unwrap();

    // cosmos msgs we expect
    let msgs: Vec<BankMsg> = vec![BankMsg::Send {
        to_address: withdraw_address.clone(),
        amount: funds_sent_to_contract,
    }];

    assert_eq!(
        res,
        Response::new()
            .add_attribute("action", "execute_withdraw")
            .add_attribute("withdraw_address", &withdraw_address)
            .add_messages(msgs)
    );
}

#[test]
fn claim_withdrawal_fails() {
    let mut env = mock_env();

    env.block.time = at(cosmwasm_std::Timestamp::from_seconds(0));

    let funds_sent_to_contract = coins(1_000_000, NATIVE_DENOM);

    let withdraw_address = String::from("gordon-gekko-address");

    let mut state = created(&withdraw_address, &funds_sent_to_contract, env);

    // mock funds being added to contract
    let balances = holding(&funds_sent_to_contract);

    // only withdraw_address can call
    let info = mock_info(&withdraw_address, &[]);
    let msg = ExecuteMsg::StartWithdraw {};
    let _res = execute(&mut state, env, info, msg, balances).unwrap();

    // 28 days time from 'now', where 'now' is zero
    let delay_in_seconds = 28u64 * 86400u64;
    let twenty_eight_days_from_now_timestamp =
        cosmwasm_std::Timestamp::from_seconds(0).plus_seconds(delay_in_seconds);

    // roll time forward in env to 1 hr BEFORE timestamp
    env.block.time = at(twenty_eight_days_from_now_timestamp.minus_seconds(3600));

    // is the withdrawal ready?
    assert_eq!(WithdrawalReadyResponse { is_withdrawal_ready: false }, is_ready(&state, env));
}
