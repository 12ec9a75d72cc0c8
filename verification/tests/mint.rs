use cosmwasm_std::StdError;
use cw20_to_tokenfactory::cw20_burn_mint::{
    admin_candidate, execute, execute_redeem_mint, execute_transfer_back_admin, instantiate, query,
    redeem_mint_response, ExecuteMsg, GetConfig, InstantiateMsg, QueryMsg, State,
};
use cw20_to_tokenfactory::error::ContractError;
use cw20_to_tokenfactory::types::{Attribute, CosmosMsg, Cw20ReceiveMsg, Response};

const CW20: &str = "juno1oldcw20";
const DENOM: &str = "factory/juno1minter/coin";
const ADMIN: &str = "juno1oldadmin";

fn state() -> State {
    State { cw20_address: CW20.to_string(), tf_denom: DENOM.to_string(), prev_admin: ADMIN.to_string() }
}

fn receive(sender: &str, amount: u128) -> Cw20ReceiveMsg {
    Cw20ReceiveMsg { sender: sender.to_string(), amount, msg: vec![] }
}

fn attr(k: &str, v: &str) -> Attribute {
    Attribute { key: k.to_string(), value: v.to_string() }
}

fn burn_json(amount: u128) -> Vec<u8> {
    format!("{{\"burn\":{{\"amount\":\"{}\"}}}}", amount).into_bytes()
}

#[test]
fn mint_admin_defaults_to_sender() {
    let named = InstantiateMsg { cw20_address: CW20.to_string(), tf_denom: DENOM.to_string(), admin: Some(ADMIN.to_string()) };
    assert_eq!(admin_candidate(&named, &"juno1creator".to_string()), ADMIN.to_string());
    let unnamed = InstantiateMsg { admin: None, ..named };
    assert_eq!(admin_candidate(&unnamed, &"juno1creator".to_string()), "juno1creator".to_string());
}

#[test]
fn mint_instantiate_checks_in_order() {
    let msg = InstantiateMsg { cw20_address: CW20.to_string(), tf_denom: "bad".to_string(), admin: None };
    let e1 = instantiate(msg.clone(), Err(StdError::generic_err("cw20")), Err(StdError::generic_err("admin"))).unwrap_err();
    assert_eq!(e1, ContractError::Std(StdError::generic_err("cw20")));
    let e2 = instantiate(msg, Ok(CW20.to_string()), Err(StdError::generic_err("admin"))).unwrap_err();
    assert_eq!(e2, ContractError::InvalidDenom { denom: "bad".to_string(), message: "Denom must start with 'factory/'".to_string() });
    let good = InstantiateMsg { cw20_address: CW20.to_string(), tf_denom: DENOM.to_string(), admin: None };
    let e3 = instantiate(good.clone(), Ok(CW20.to_string()), Err(StdError::generic_err("admin"))).unwrap_err();
    assert_eq!(e3, ContractError::Std(StdError::generic_err("admin")));
    let (st, resp) = instantiate(good, Ok(CW20.to_string()), Ok(ADMIN.to_string())).unwrap();
    assert_eq!(st, state());
    assert_eq!(resp, Response { attributes: vec![attr("method", "instantiate")], messages: vec![] });
}

#[test]
fn mint_transfer_back_admin() {
    let resp = execute_transfer_back_admin(&state(), &ADMIN.to_string()).unwrap();
    assert_eq!(
        resp,
        Response {
            attributes: vec![attr("method", "transfer_back_admin"), attr("new_admin", ADMIN)],
            messages: vec![CosmosMsg::TokenChangeAdmin { denom: DENOM.to_string(), new_admin_address: ADMIN.to_string() }],
        }
    );
    let err = execute_transfer_back_admin(&state(), &"juno1thief".to_string()).unwrap_err();
    assert_eq!(err, ContractError::Unauthorized {});
}

#[test]
fn mint_redeem_burns_then_mints() {
    let resp = execute_redeem_mint(&state(), &CW20.to_string(), receive("juno1holder", 42)).unwrap();
    assert_eq!(
        resp,
        Response {
            attributes: vec![attr("method", "redeem_mint")],
            messages: vec![
                CosmosMsg::WasmExecute { contract_addr: CW20.to_string(), msg: burn_json(42), funds: vec![] },
                CosmosMsg::TokenMint { denom: DENOM.to_string(), amount: 42, mint_to_address: "juno1holder".to_string() },
            ],
        }
    );
    let err = execute_redeem_mint(&state(), &ADMIN.to_string(), receive("juno1holder", 42)).unwrap_err();
    assert_eq!(err, ContractError::InvalidCW20Address {});
}

#[test]
fn mint_redeem_large_amount() {
    let resp = execute_redeem_mint(&state(), &CW20.to_string(), receive("h", u128::MAX)).unwrap();
    assert_eq!(resp.messages[0], CosmosMsg::WasmExecute { contract_addr: CW20.to_string(), msg: burn_json(u128::MAX), funds: vec![] });
}

#[test]
fn mint_execute_dispatch() {
    assert!(matches!(execute(&state(), &ADMIN.to_string(), ExecuteMsg::TransferBackAdmin {}), Ok(_)));
    assert_eq!(execute(&state(), &CW20.to_string(), ExecuteMsg::TransferBackAdmin {}).unwrap_err(), ContractError::Unauthorized {});
    assert!(execute(&state(), &CW20.to_string(), ExecuteMsg::Receive(receive("h", 1))).is_ok());
}

#[test]
fn mint_response_builder() {
    let resp = redeem_mint_response(DENOM.to_string(), CW20.to_string(), &receive("h", 5), vec![0]);
    assert_eq!(resp.messages[1], CosmosMsg::TokenMint { denom: DENOM.to_string(), amount: 5, mint_to_address: "h".to_string() });
}

#[test]
fn mint_query_mode() {
    assert_eq!(
        query(&state(), QueryMsg::GetConfig {}),
        GetConfig { cw20_address: CW20.to_string(), tf_denom: DENOM.to_string(), mode: "mint".to_string() }
    );
}

#[test]
fn mint_burn_body_is_decimal_json() {
    for amount in [0u128, 9, 10, 99, 100, 1_000_000, u128::MAX] {
        let resp = execute_redeem_mint(&state(), &CW20.to_string(), receive("h", amount)).unwrap();
        match &resp.messages[0] {
            CosmosMsg::WasmExecute { msg, .. } => assert_eq!(msg, &burn_json(amount)),
            other => panic!("unexpected message {:?}", other),
        }
    }
}
