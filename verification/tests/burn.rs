use cosmwasm_std::StdError;
use cw20_to_tokenfactory::cw20_burn::{
    execute, execute_redeem, instantiate, query, redeem_response, ExecuteMsg, GetConfig,
    InstantiateMsg, QueryMsg, State,
};
use cw20_to_tokenfactory::error::ContractError;
use cw20_to_tokenfactory::types::{Attribute, Coin, CosmosMsg, Cw20ReceiveMsg, Response};

const CW20: &str = "juno1cw20contract";
const DENOM: &str = "factory/juno1creator/newtoken";

fn state() -> State {
    State { cw20_address: CW20.to_string(), tf_denom: DENOM.to_string() }
}

fn receive(sender: &str, amount: u128) -> Cw20ReceiveMsg {
    Cw20ReceiveMsg { sender: sender.to_string(), amount, msg: vec![] }
}

fn attr(k: &str, v: &str) -> Attribute {
    Attribute { key: k.to_string(), value: v.to_string() }
}

fn coin(denom: &str, amount: u128) -> Coin {
    Coin { denom: denom.to_string(), amount }
}

fn burn_json(amount: u128) -> Vec<u8> {
    format!("{{\"burn\":{{\"amount\":\"{}\"}}}}", amount).into_bytes()
}

#[test]
fn instantiate_stores_config() {
    let msg = InstantiateMsg {
        cw20_address: CW20.to_string(),
        tf_denom: DENOM.to_string(),
        contact: None,
    };
    let (st, resp) = instantiate(msg, Ok(CW20.to_string())).unwrap();
    assert_eq!(st, state());
    assert_eq!(resp, Response { attributes: vec![attr("method", "instantiate")], messages: vec![] });
}

#[test]
fn instantiate_refuses_non_factory_denom() {
    let msg = InstantiateMsg {
        cw20_address: CW20.to_string(),
        tf_denom: "ujuno".to_string(),
        contact: Some("me".to_string()),
    };
    let err = instantiate(msg, Ok(CW20.to_string())).unwrap_err();
    assert_eq!(
        err,
        ContractError::InvalidDenom {
            denom: "ujuno".to_string(),
            message: "Denom must start with 'factory/'".to_string(),
        }
    );
}

#[test]
fn instantiate_prefix_is_case_and_slash_sensitive() {
    for d in ["factory", "Factory/x", "factory\\x", "", "xfactory/abc"] {
        let msg = InstantiateMsg { cw20_address: CW20.to_string(), tf_denom: d.to_string(), contact: None };
        assert!(matches!(
            instantiate(msg, Ok(CW20.to_string())),
            Err(ContractError::InvalidDenom { .. })
        ));
    }
    let msg = InstantiateMsg { cw20_address: CW20.to_string(), tf_denom: "factory/".to_string(), contact: None };
    assert!(instantiate(msg, Ok(CW20.to_string())).is_ok());
}

#[test]
fn instantiate_reports_address_error_first() {
    let msg = InstantiateMsg { cw20_address: "".to_string(), tf_denom: "bad".to_string(), contact: None };
    let err = instantiate(msg, Err(StdError::generic_err("human address too short"))).unwrap_err();
    assert_eq!(err, ContractError::Std(StdError::generic_err("human address too short")));
}

#[test]
fn redeem_pays_and_burns_same_amount() {
    let resp = execute_redeem(&state(), &CW20.to_string(), receive("juno1user", 100)).unwrap();
    assert_eq!(
        resp,
        Response {
            attributes: vec![attr("method", "redeem")],
            messages: vec![
                CosmosMsg::BankSend { to_address: "juno1user".to_string(), amount: vec![coin(DENOM, 100)] },
                CosmosMsg::WasmExecute { contract_addr: CW20.to_string(), msg: burn_json(100), funds: vec![] },
            ],
        }
    );
}

#[test]
fn redeem_refuses_other_cw20() {
    let err = execute_redeem(&state(), &"juno1other".to_string(), receive("juno1user", 5)).unwrap_err();
    assert_eq!(err, ContractError::InvalidCW20Address {});
}

#[test]
fn redeem_response_builds_given_burn_body() {
    let resp = redeem_response(DENOM.to_string(), CW20.to_string(), &receive("u", 7), vec![1, 2, 3]);
    assert_eq!(resp.messages[1], CosmosMsg::WasmExecute { contract_addr: CW20.to_string(), msg: vec![1, 2, 3], funds: vec![] });
    assert_eq!(resp.messages[0], CosmosMsg::BankSend { to_address: "u".to_string(), amount: vec![coin(DENOM, 7)] });
}

#[test]
fn execute_checks_funds_then_sender() {
    let balances = vec![coin("ujuno", 1000), coin(DENOM, 50)];
    // not enough funds is reported even for a foreign caller
    let err = execute(&state(), &"juno1other".to_string(), Ok(balances.clone()), ExecuteMsg::Receive(receive("u", 51))).unwrap_err();
    assert_eq!(
        err,
        ContractError::InvalidDenom {
            denom: DENOM.to_string(),
            message: "The contract has run out of funds to redeem these CW20 tokens, talk to an admin.".to_string(),
        }
    );
    let err = execute(&state(), &"juno1other".to_string(), Ok(balances.clone()), ExecuteMsg::Receive(receive("u", 50))).unwrap_err();
    assert_eq!(err, ContractError::InvalidCW20Address {});
    let resp = execute(&state(), &CW20.to_string(), Ok(balances), ExecuteMsg::Receive(receive("u", 50))).unwrap();
    assert_eq!(resp.messages.len(), 2);
    assert_eq!(resp.messages[1], CosmosMsg::WasmExecute { contract_addr: CW20.to_string(), msg: burn_json(50), funds: vec![] });
}

#[test]
fn execute_passes_query_error() {
    let err = execute(&state(), &CW20.to_string(), Err(StdError::generic_err("query failed")), ExecuteMsg::Receive(receive("u", 1))).unwrap_err();
    assert_eq!(err, ContractError::Std(StdError::generic_err("query failed")));
}

#[test]
fn execute_uses_first_coin_of_denom() {
    let balances = vec![coin(DENOM, 10), coin(DENOM, 1000)];
    assert!(execute(&state(), &CW20.to_string(), Ok(balances), ExecuteMsg::Receive(receive("u", 11))).is_err());
}

#[test]
fn query_reads_back_instantiate() {
    let msg = InstantiateMsg { cw20_address: CW20.to_string(), tf_denom: DENOM.to_string(), contact: None };
    let (st, _) = instantiate(msg, Ok(CW20.to_string())).unwrap();
    assert_eq!(
        query(&st, QueryMsg::GetConfig {}),
        GetConfig { cw20_address: CW20.to_string(), tf_denom: DENOM.to_string() }
    );
}
