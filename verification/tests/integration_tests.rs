use cosmwasm_std::testing::MockApi;
use cosmwasm_std::Api;
use cw_unity_prop::addr::Addr;
use cw_unity_prop::coin::{coins, Coin};
use cw_unity_prop::contract::{execute, instantiate, query, sudo};
use cw_unity_prop::env::{BlockInfo, Env, MessageInfo};
use cw_unity_prop::error::StdError;
use cw_unity_prop::msg::{
    ExecuteMsg, InstantiateMsg, QueryMsg, QueryResponse, SudoMsg, WithdrawalReadyResponse,
};
use cw_unity_prop::response::{BankMsg, Response};
use cw_unity_prop::state::State;
use cw_unity_prop::timestamp::Timestamp;
use cw_unity_prop::ContractError;

const USER: &str = "USER";
const CONTRACT: &str = "contract0";
const NATIVE_DENOM: &str = "ujuno";

/// A chain with one controller on it: the controller's state, the ledger,
/// and the clock.
struct App {
    state: State,
    ledger: Vec<(String, Vec<Coin>)>,
    env: Env,
}

impl App {
    /// What `address` holds, without empty amounts.
    fn balance(&self, address: &str) -> Vec<Coin> {
        self.ledger
            .iter()
            .find(|(owner, _)| owner == address)
            .map(|(_, held)| held.clone())
            .unwrap_or_default()
    }

    fn account(&mut self, address: &str) -> &mut Vec<Coin> {
        if !self.ledger.iter().any(|(owner, _)| owner == address) {
            self.ledger.push((address.to_string(), Vec::new()));
        }
        let position = self.ledger.iter().position(|(owner, _)| owner == address).unwrap();
        &mut self.ledger[position].1
    }

    fn credit(&mut self, address: &str, amount: &[Coin]) {
        let held = self.account(address);
        for coin in amount {
            match held.iter_mut().find(|mine| mine.denom == coin.denom) {
                Some(mine) => mine.amount += coin.amount,
                None => held.push(coin.clone()),
            }
        }
        held.retain(|coin| coin.amount > 0);
    }

    fn debit(&mut self, address: &str, amount: &[Coin]) {
        let held = self.account(address);
        for coin in amount {
            let mine = held
                .iter_mut()
                .find(|mine| mine.denom == coin.denom)
                .expect("the ledger refuses to take what is not there");
            mine.amount = mine
                .amount
                .checked_sub(coin.amount)
                .expect("the ledger refuses to take more than there is");
        }
        held.retain(|coin| coin.amount > 0);
    }

    /// Carries out the instructions of a response, as the ledger does once
    /// the invocation has been committed.
    fn commit(&mut self, response: Response) {
        for message in response.messages {
            match message {
                BankMsg::Send { to_address, amount } => {
                    self.debit(CONTRACT, &amount);
                    self.credit(&to_address, &amount);
                }
                BankMsg::Burn { amount } => self.debit(CONTRACT, &amount),
            }
        }
    }

    fn balances(&self) -> Result<Vec<Coin>, StdError> {
        Ok(self.balance(CONTRACT))
    }

    fn execute(&mut self, sender: Addr, msg: ExecuteMsg) -> Result<(), ContractError> {
        let info = MessageInfo { sender, funds: Vec::new() };
        let balances = self.balances();
        let response = execute(&mut self.state, self.env, info, msg, balances)?;
        self.commit(response);
        Ok(())
    }

    fn wasm_sudo(&mut self, msg: SudoMsg) -> Result<(), ContractError> {
        let recipient = match &msg {
            SudoMsg::ExecuteSend { recipient, .. } => validate(recipient),
            SudoMsg::ExecuteBurn {} => validate(""),
        };
        let response = sudo(&self.state, msg, self.balances(), recipient)?;
        self.commit(response);
        Ok(())
    }
}

/// The verdict of the host's test API on `input`.
fn validate(input: &str) -> Result<Addr, StdError> {
    match MockApi::default().addr_validate(input) {
        Ok(addr) => Ok(Addr::unchecked(addr.into_string())),
        Err(cosmwasm_std::StdError::NotFound { kind, .. }) => Err(StdError::NotFound { kind }),
        Err(cosmwasm_std::StdError::GenericErr { msg, .. }) => Err(StdError::GenericErr { msg }),
        Err(other) => Err(StdError::GenericErr { msg: other.to_string() }),
    }
}

fn mock_app() -> App {
    let env = cosmwasm_std::testing::mock_env();
    let mut app = App {
        state: State::new(),
        ledger: Vec::new(),
        env: Env { block: BlockInfo { time: Timestamp::from_nanos(env.block.time.nanos()) } },
    };
    app.credit(
        USER,
        &[Coin { denom: NATIVE_DENOM.to_string(), amount: 3_000_000 }],
    );
    app
}

fn instantiate_with(funds: &[Coin]) -> App {
    let mut app = mock_app();

    let withdraw_address = String::from("gordon-gekko-address");
    let withdraw_delay_in_days = 28; // this is what we are expecting to set it to

    let msg = InstantiateMsg {
        withdraw_address: withdraw_address.clone(),
        withdraw_delay_in_days,
        native_denom: NATIVE_DENOM.to_string(),
    };

    // the funds move before the controller is invoked
    app.debit(USER, funds);
    app.credit(CONTRACT, funds);
    let info = MessageInfo { sender: Addr::unchecked(USER.to_string()), funds: funds.to_vec() };
    let response =
        instantiate(&mut app.state, app.env, info, msg, validate(&withdraw_address)).unwrap();
    app.commit(response);
    app
}

fn mock_instantiate() -> App {
    // set a contract balance
    instantiate_with(&[Coin { denom: NATIVE_DENOM.to_string(), amount: 3_000_000 }])
}

fn mock_instantiate_no_balance() -> App {
    instantiate_with(&[])
}

fn is_withdrawal_ready(app: &App) -> WithdrawalReadyResponse {
    match query(&app.state, app.env, QueryMsg::IsWithdrawalReady {}).unwrap() {
        QueryResponse::IsWithdrawalReady(answer) => answer,
        other => panic!("not an answer to the question asked: {:?}", other),
    }
}

#[test]
fn integration_tests_start_withdraw() {
    let mut app = mock_instantiate();

    let withdraw_address = String::from("gordon-gekko-address");
    let validated_addr = Addr::unchecked(withdraw_address);

    let msg = ExecuteMsg::StartWithdraw {};
    app.execute(validated_addr, msg).unwrap();

    let withdrawal_ready = is_withdrawal_ready(&app);

    assert_eq!(withdrawal_ready, WithdrawalReadyResponse { is_withdrawal_ready: false });
}

#[test]
fn start_withdraw_fails_with_wrong_address() {
    let mut app = mock_instantiate();

    let msg = ExecuteMsg::StartWithdraw {};

    // we expect this to fail
    // hence unwrap_err
    app.execute(Addr::unchecked("some-random-address".to_string()), msg).unwrap_err();
}

#[test]
fn integration_tests_sudo_burn() {
    let mut app = mock_instantiate();

    // this tests for success
    app.wasm_sudo(SudoMsg::ExecuteBurn {}).unwrap();

    let contract_balance = app.balance(CONTRACT);

    assert_eq!(contract_balance, &[]);
}

#[test]
fn integration_tests_sudo_send() {
    let mut app = mock_instantiate();

    let nominated_address = String::from("carl-fox-address");
    let validated_addr = Addr::unchecked(nominated_address);

    // this tests for success
    app.wasm_sudo(SudoMsg::ExecuteSend {
        recipient: validated_addr.as_str().to_string(),
        amount: 2_000_000,
    })
    .unwrap();

    let community_nominated_address_balance = app.balance(validated_addr.as_str());

    assert_eq!(community_nominated_address_balance, coins(2_000_000, NATIVE_DENOM),);

    let contract_balance = app.balance(CONTRACT);

    assert_eq!(contract_balance, coins(1_000_000, NATIVE_DENOM),);
}

#[test]
fn sudo_send_fails() {
    let mut app = mock_instantiate_no_balance();

    let nominated_address = String::from("carl-fox-address");
    let validated_addr = Addr::unchecked(nominated_address);

    // this tests for error
    let _err = app
        .wasm_sudo(SudoMsg::ExecuteSend {
            recipient: validated_addr.as_str().to_string(),
            amount: 2_000_000,
        })
        .unwrap_err();
}

#[test]
fn sudo_send_fails_balance_too_small() {
    let mut app = mock_instantiate();

    let nominated_address = String::from("carl-fox-address");
    let validated_addr = Addr::unchecked(nominated_address);

    // this tests for error
    let _err = app
        .wasm_sudo(SudoMsg::ExecuteSend {
            recipient: validated_addr.as_str().to_string(),
            amount: 4_000_000,
        })
        .unwrap_err();
}
