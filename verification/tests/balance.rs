use cosmwasm_std::StdError;
use cw20_to_tokenfactory::cw20_burn_balance::{
    execute, execute_redeem_balance, instantiate, query, redeem_balance_response, ExecuteMsg,
    GetConfig, InstantiateMsg, QueryMsg, State,
};
use cw20_to_tokenfactory::error::ContractError;
use cw20_to_tokenfactory::types::{Attribute, Coin, CosmosMsg, Cw20ReceiveMsg, Response};

const CW20: &str = "juno1oldtoken";
const DENOM: &str = "factory/juno1admin/new";

fn state() -> State {
    State { cw20_address: CW20.to_string(), tf_denom: DENOM.to_string() }
}

fn receive(sender: &str, amount: u128) -> Cw20ReceiveMsg {
    Cw20ReceiveMsg { sender: sender.to_string(), amount, msg: b"{}".to_vec() }
}

fn coin(denom: &str, amount: u128) -> Coin {
    Coin { denom: denom.to_string(), amount }
}

fn burn_json(amount: u128) -> Vec<u8> {
    format!("{{\"burn\":{{\"amount\":\"{}\"}}}}", amount).into_bytes()
}

#[test]
fn balance_instantiate_same_rules() {
    let ok = InstantiateMsg { cw20_address: CW20.to_string(), tf_denom: DENOM.to_string(), contact: None };
    let (st, _) = instantiate(ok, Ok(CW20.to_string())).unwrap();
    assert_eq!(st, state());
    let bad = InstantiateMsg { cw20_address: CW20.to_string(), tf_denom: "uatom".to_string(), contact: None };
    assert!(matches!(instantiate(bad, Ok(CW20.to_string())), Err(ContractError::InvalidDenom { .. })));
}

#[test]
fn balance_redeem_burns_then_pays() {
    let resp = execute_redeem_balance(&state(), &CW20.to_string(), Ok(vec![coin(DENOM, 500)]), receive("juno1me", 500)).unwrap();
    assert_eq!(
        resp,
        Response {
            attributes: vec![Attribute { key: "method".to_string(), value: "redeem_balannce".to_string() }],
            messages: vec![
                CosmosMsg::WasmExecute { contract_addr: CW20.to_string(), msg: burn_json(500), funds: vec![] },
                CosmosMsg::BankSend { to_address: "juno1me".to_string(), amount: vec![coin(DENOM, 500)] },
            ],
        }
    );
}

#[test]
fn balance_redeem_out_of_funds() {
    let err = execute_redeem_balance(&state(), &CW20.to_string(), Ok(vec![coin("ujuno", 9), coin(DENOM, 499)]), receive("juno1me", 500)).unwrap_err();
    assert_eq!(err, ContractError::OutOfFunds { request: 500, amount: 499 });
}

#[test]
fn balance_redeem_checks_sender_before_query() {
    // a foreign caller is refused whatever the balance query returned
    let err = execute_redeem_balance(&state(), &"juno1evil".to_string(), Err(StdError::generic_err("no")), receive("x", 1)).unwrap_err();
    assert_eq!(err, ContractError::InvalidCW20Address {});
    let err = execute_redeem_balance(&state(), &"juno1evil".to_string(), Ok(vec![]), receive("x", 1)).unwrap_err();
    assert_eq!(err, ContractError::InvalidCW20Address {});
    let err = execute_redeem_balance(&state(), &CW20.to_string(), Err(StdError::generic_err("no")), receive("x", 1)).unwrap_err();
    assert_eq!(err, ContractError::Std(StdError::generic_err("no")));
}

#[test]
fn balance_execute_dispatches_receive() {
    let resp = execute(&state(), &CW20.to_string(), Ok(vec![coin(DENOM, 3)]), ExecuteMsg::Receive(receive("a", 0))).unwrap();
    assert_eq!(resp.messages[1], CosmosMsg::BankSend { to_address: "a".to_string(), amount: vec![coin(DENOM, 0)] });
}

#[test]
fn balance_response_builder() {
    let resp = redeem_balance_response(DENOM.to_string(), CW20.to_string(), &receive("a", 2), vec![9]);
    assert_eq!(resp.messages[0], CosmosMsg::WasmExecute { contract_addr: CW20.to_string(), msg: vec![9], funds: vec![] });
}

#[test]
fn balance_query_mode() {
    assert_eq!(
        query(&state(), QueryMsg::GetConfig {}),
        GetConfig { cw20_address: CW20.to_string(), tf_denom: DENOM.to_string(), mode: "balance".to_string() }
    );
}
