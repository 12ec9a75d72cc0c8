//! The burn contract: it pays redeemers out of its own holdings of the
//! token-factory denomination and burns the CW20 tokens it received.
use vstd::prelude::*;
use crate::common::{
    executions_of, instantiate_response, msg_executes, redeem_accepted, lemma_single_messages, lemma_two_messages, instantiate_response_view, is_invalid_denom,
    is_std_error, not_factory_denom_error, not_factory_message, total_paid,
};
use crate::cw20_msg::{cw20_burn_json, encode_cw20_burn};
use crate::denom::{check_factory_denom, is_factory_denom};
use crate::effects::{
    admin_changes, bank_out, bank_paid, lemma_admin_changes_two, lemma_one_coin_total,
    lemma_sum_two, minted, total_bank_out, total_bank_paid, total_minted,
};
use crate::error::ContractError;
use crate::types::{
    attr_view, attribute, balance_of, bank_send, bank_send_view, coins_view, find_balance,
    holds_denom, wasm_execute, wasm_execute_view, Attribute, Coin, CosmosMsg, Cw20ReceiveMsg, MsgView,
    Response, ResponseView,
};

verus! {

/// What the contract stores at instantiation.
#[derive(Debug, Clone, PartialEq)]
pub struct State {
    /// The only CW20 contract whose tokens are accepted.
    pub cw20_address: String,
    /// The token-factory denomination paid out.
    pub tf_denom: String,
}

pub struct StateView {
    pub cw20_address: Seq<char>,
    pub tf_denom: Seq<char>,
}

impl View for State {
    type V = StateView;

    open spec fn view(&self) -> StateView {
        StateView { cw20_address: self.cw20_address@, tf_denom: self.tf_denom@ }
    }
}

#[derive(Debug, Clone, PartialEq)]
pub struct InstantiateMsg {
    pub cw20_address: String,
    pub tf_denom: String,
    pub contact: Option<String>,
}

#[derive(Debug, Clone, PartialEq)]
pub enum ExecuteMsg {
    Receive(Cw20ReceiveMsg),
}

#[derive(Debug, Clone, PartialEq)]
pub enum QueryMsg {
    GetConfig {},
}

/// The answer to `QueryMsg::GetConfig`.
#[derive(Debug, Clone, PartialEq)]
pub struct GetConfig {
    pub cw20_address: String,
    pub tf_denom: String,
}

pub struct GetConfigView {
    pub cw20_address: Seq<char>,
    pub tf_denom: Seq<char>,
}

impl View for GetConfig {
    type V = GetConfigView;

    open spec fn view(&self) -> GetConfigView {
        GetConfigView { cw20_address: self.cw20_address@, tf_denom: self.tf_denom@ }
    }
}

/// The reason given when the contract holds less than a redeem asks for.
pub open spec fn out_of_funds_message() -> Seq<char> {
    "The contract has run out of funds to redeem these CW20 tokens, talk to an admin."@
}

/// The state stored by a successful instantiation.
pub open spec fn instantiated_state(cw20_address: Seq<char>, tf_denom: Seq<char>) -> StateView {
    StateView { cw20_address, tf_denom }
}

/// Sets the contract up. `cw20_address` is the outcome of validating
/// `msg.cw20_address` with the chain's address API; a failure there is
/// returned first, then a denomination without the `factory/` prefix is
/// refused. On success the state to store and the response are returned.
pub fn instantiate(msg: InstantiateMsg, cw20_address: Result<String, cosmwasm_std::StdError>) -> (r:
    Result<(State, Response), ContractError>)
    ensures
        match cw20_address {
            Err(e) => is_std_error(r, e),
            Ok(addr) => if is_factory_denom(msg.tf_denom@) {
                r matches Ok((st, resp)) && st@ == instantiated_state(addr@, msg.tf_denom@) && resp@
                    == instantiate_response_view()
            } else {
                r matches Err(e) && is_invalid_denom(e, msg.tf_denom@, not_factory_message())
            },
        },
{
    let cw20_addr = match cw20_address {
        Ok(a) => a,
        Err(e) => return Err(ContractError::Std(e)),
    };
    let tf_denom = msg.tf_denom;
    if !check_factory_denom(&tf_denom) {
        return Err(not_factory_denom_error(tf_denom));
    }
    let state = State { cw20_address: cw20_addr, tf_denom };
    Ok((state, instantiate_response()))
}

pub open spec fn redeem_response_view(
    tf_denom: Seq<char>,
    cw20_contract: Seq<char>,
    recipient: Seq<char>,
    amount: u128,
    burn_msg: Seq<u8>,
) -> ResponseView {
    ResponseView {
        attributes: seq![attr_view("method"@, "redeem"@)],
        messages: seq![
            bank_send_view(recipient, tf_denom, amount),
            wasm_execute_view(cw20_contract, burn_msg),
        ],
    }
}

/// The response of a redeem: first the payout of `amount` of `tf_denom` to
/// the CW20 sender, then the burn of the received tokens on the CW20 contract.
pub fn redeem_response(
    tf_denom: String,
    cw20_contract: String,
    cw20_msg: &Cw20ReceiveMsg,
    burn_msg: Vec<u8>,
) -> (resp: Response)
    ensures
        resp@ == redeem_response_view(
            tf_denom@,
            cw20_contract@,
            cw20_msg.sender@,
            cw20_msg.amount,
            burn_msg@,
        ),
{
    let ghost expected = redeem_response_view(
        tf_denom@,
        cw20_contract@,
        cw20_msg.sender@,
        cw20_msg.amount,
        burn_msg@,
    );
    let mut attributes: Vec<Attribute> = Vec::new();
    attributes.push(attribute("method", "redeem"));
    let mut messages: Vec<CosmosMsg> = Vec::new();
    messages.push(bank_send(cw20_msg.sender.clone(), tf_denom, cw20_msg.amount));
    messages.push(wasm_execute(cw20_contract, burn_msg));
    let resp = Response { attributes, messages };
    assert(resp@.attributes =~= expected.attributes);
    assert(resp@.messages =~= expected.messages);
    resp
}

/// Redeems CW20 tokens received from `sender` (the contract that called us).
/// Only the configured CW20 contract is accepted, and for it the redeem
/// always succeeds.
pub fn execute_redeem(state: &State, sender: &String, cw20_msg: Cw20ReceiveMsg) -> (r: Result<
    Response,
    ContractError,
>)
    ensures
        r is Ok <==> sender@ == state.cw20_address@,
        sender@ != state.cw20_address@ ==> r matches Err(ContractError::InvalidCW20Address {  }),
        sender@ == state.cw20_address@ ==> (r matches Ok(resp) && resp@ == redeem_response_view(
            state.tf_denom@,
            sender@,
            cw20_msg.sender@,
            cw20_msg.amount,
            cw20_burn_json(cw20_msg.amount),
        )),
{
    if *sender != state.cw20_address {
        return Err(ContractError::InvalidCW20Address {  });
    }
    let burn_msg = match encode_cw20_burn(cw20_msg.amount) {
        Ok(b) => b,
        Err(e) => return Err(ContractError::Std(e)),
    };
    Ok(redeem_response(state.tf_denom.clone(), sender.clone(), &cw20_msg, burn_msg))
}

/// Handles an execute message. `balances` is the outcome of querying all
/// balances of this contract. The coin of `tf_denom` must be among them (the
/// contract cannot redeem without it). A balance below the requested amount
/// is refused before the sender is checked.
pub fn execute(
    state: &State,
    sender: &String,
    balances: Result<Vec<Coin>, cosmwasm_std::StdError>,
    msg: ExecuteMsg,
) -> (r: Result<Response, ContractError>)
    requires
        balances matches Ok(b) ==> holds_denom(coins_view(b@), state.tf_denom@),
    ensures
        match msg {
            ExecuteMsg::Receive(m) => r is Ok <==> (balances matches Ok(b) && redeem_accepted(
                sender@,
                state.cw20_address@,
                balance_of(coins_view(b@), state.tf_denom@),
                m.amount,
            )),
        },
        match msg {
            ExecuteMsg::Receive(m) => match balances {
                Err(e) => is_std_error(r, e),
                Ok(b) => if balance_of(coins_view(b@), state.tf_denom@) < m.amount {
                    r matches Err(e) && is_invalid_denom(
                        e,
                        state.tf_denom@,
                        out_of_funds_message(),
                    )
                } else if sender@ != state.cw20_address@ {
                    r matches Err(ContractError::InvalidCW20Address {  })
                } else {
                    r matches Ok(resp) && resp@ == redeem_response_view(
                        state.tf_denom@,
                        sender@,
                        m.sender@,
                        m.amount,
                        cw20_burn_json(m.amount),
                    )
                },
            },
        },
{
    match msg {
        ExecuteMsg::Receive(cw20_msg) => {
            let coins = match balances {
                Ok(c) => c,
                Err(e) => return Err(ContractError::Std(e)),
            };
            let held = match find_balance(&coins, &state.tf_denom) {
                Some(a) => a,
                None => {
                    assert(false);
                    0
                },
            };
            if held < cw20_msg.amount {
                return Err(
                    ContractError::InvalidDenom {
                        denom: state.tf_denom.clone(),
                        message:
                            "The contract has run out of funds to redeem these CW20 tokens, talk to an admin.".to_owned(),
                    },
                );
            }
            execute_redeem(state, sender, cw20_msg)
        },
    }
}

/// The configuration that a query reports for a stored state.
pub open spec fn config_view(st: StateView) -> GetConfigView {
    GetConfigView { cw20_address: st.cw20_address, tf_denom: st.tf_denom }
}

/// Answers a query from the stored state.
pub fn query(state: &State, msg: QueryMsg) -> (c: GetConfig)
    ensures
        c@ == config_view(state@),
{
    match msg {
        QueryMsg::GetConfig {  } => GetConfig {
            cw20_address: state.cw20_address.clone(),
            tf_denom: state.tf_denom.clone(),
        },
    }
}

/// Every successful redeem pays the CW20 sender exactly the amount it
/// received, in the configured denomination, and asks the CW20 contract to
/// burn exactly that amount, once.
pub proof fn lemma_redeem_exchanges_one_for_one(
    tf_denom: Seq<char>,
    cw20_contract: Seq<char>,
    recipient: Seq<char>,
    amount: u128,
)
    ensures
        ({
            let resp = redeem_response_view(
                tf_denom,
                cw20_contract,
                recipient,
                amount,
                cw20_burn_json(amount),
            );
            &&& total_paid(resp.messages, recipient, tf_denom) == amount
            &&& executions_of(resp.messages, cw20_contract) == seq![cw20_burn_json(amount)]
        }),
{
    let resp = redeem_response_view(tf_denom, cw20_contract, recipient, amount, cw20_burn_json(amount));
    let pay = bank_send_view(recipient, tf_denom, amount);
    let burn = wasm_execute_view(cw20_contract, cw20_burn_json(amount));
    lemma_single_messages(tf_denom, cw20_contract, recipient, amount, cw20_burn_json(amount));
    lemma_two_messages(pay, burn, recipient, tf_denom, cw20_contract);
    assert(resp.messages == seq![pay, burn]);
    assert(Seq::<Seq<u8>>::empty() + seq![cw20_burn_json(amount)] =~= seq![cw20_burn_json(amount)]);
}

/// Querying a contract set up by `instantiate` reports the validated CW20
/// address and the denomination it was set up with.
pub proof fn lemma_query_reads_back_instantiate(cw20_address: Seq<char>, tf_denom: Seq<char>)
    ensures
        config_view(instantiated_state(cw20_address, tf_denom)) == (GetConfigView {
            cw20_address,
            tf_denom,
        }),
{
}

/// A successful redeem has exactly two messages. Out of the contract's
/// holdings it sends `amount` of the configured denomination to the CW20
/// sender and nothing else to anyone; it mints nothing and changes no admin;
/// it executes only the CW20 contract, once, with the burn of `amount`.
pub proof fn lemma_redeem_effects(
    tf_denom: Seq<char>,
    cw20_contract: Seq<char>,
    recipient: Seq<char>,
    amount: u128,
)
    ensures
        ({
            let msgs = redeem_response_view(
                tf_denom,
                cw20_contract,
                recipient,
                amount,
                cw20_burn_json(amount),
            ).messages;
            &&& msgs.len() == 2
            &&& forall|to: Seq<char>, d: Seq<char>|
                #[trigger] total_bank_paid(msgs, to, d) == (if to == recipient && d == tf_denom {
                    amount as int
                } else {
                    0
                })
            &&& forall|d: Seq<char>|
                #[trigger] total_bank_out(msgs, d) == (if d == tf_denom {
                    amount as int
                } else {
                    0
                })
            &&& forall|to: Seq<char>, d: Seq<char>| #[trigger] total_minted(msgs, to, d) == 0
            &&& admin_changes(msgs) == Seq::<(Seq<char>, Seq<char>)>::empty()
            &&& forall|c: Seq<char>|
                #[trigger] executions_of(msgs, c) == (if c == cw20_contract {
                    seq![cw20_burn_json(amount)]
                } else {
                    Seq::<Seq<u8>>::empty()
                })
        }),
{
    let body = cw20_burn_json(amount);
    let msgs = redeem_response_view(tf_denom, cw20_contract, recipient, amount, body).messages;
    let pay = bank_send_view(recipient, tf_denom, amount);
    let burn = wasm_execute_view(cw20_contract, body);
    assert(msgs == seq![pay, burn]);
    assert forall|to: Seq<char>, d: Seq<char>|
        #[trigger] total_bank_paid(msgs, to, d) == (if to == recipient && d == tf_denom {
            amount as int
        } else {
            0
        }) by {
        lemma_sum_two(pay, burn, |m: MsgView| bank_paid(m, to, d));
        lemma_one_coin_total(tf_denom, amount, d);
    }
    assert forall|d: Seq<char>|
        #[trigger] total_bank_out(msgs, d) == (if d == tf_denom {
            amount as int
        } else {
            0
        }) by {
        lemma_sum_two(pay, burn, |m: MsgView| bank_out(m, d));
        lemma_one_coin_total(tf_denom, amount, d);
    }
    assert forall|to: Seq<char>, d: Seq<char>| #[trigger] total_minted(msgs, to, d) == 0 by {
        lemma_sum_two(pay, burn, |m: MsgView| minted(m, to, d));
    }
    lemma_admin_changes_two(pay, burn);
    assert(admin_changes(msgs) =~= Seq::<(Seq<char>, Seq<char>)>::empty());
    assert forall|c: Seq<char>|
        #[trigger] executions_of(msgs, c) == (if c == cw20_contract {
            seq![body]
        } else {
            Seq::<Seq<u8>>::empty()
        }) by {
        lemma_two_messages(pay, burn, recipient, tf_denom, c);
        assert(msg_executes(pay, c) =~= Seq::<Seq<u8>>::empty());
        if c == cw20_contract {
            assert(executions_of(msgs, c) =~= seq![body]);
        } else {
            assert(executions_of(msgs, c) =~= Seq::<Seq<u8>>::empty());
        }
    }
}

} // verus!
