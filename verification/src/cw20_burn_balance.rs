//! The balance contract: like the burn contract it pays redeemers out of the
//! token-factory coins it holds, but it checks the caller before the funds
//! and refuses a shortfall with `OutOfFunds`.
use vstd::prelude::*;
use crate::common::{
    executions_of, is_std_error, msg_executes, redeem_accepted, lemma_single_messages, lemma_two_messages, total_paid,
};
use crate::cw20_msg::{cw20_burn_json, encode_cw20_burn};
use crate::effects::{
    admin_changes, bank_out, bank_paid, lemma_admin_changes_two, lemma_one_coin_total,
    lemma_sum_two, minted, total_bank_out, total_bank_paid, total_minted,
};
use crate::error::ContractError;
use crate::types::{
    attr_view, attribute, balance_of, bank_send, bank_send_view, coins_view, find_balance,
    holds_denom, wasm_execute, wasm_execute_view, Attribute, Coin, CosmosMsg, Cw20ReceiveMsg, MsgView,
    Response, ResponseView,
};

pub use crate::cw20_burn::{
    instantiate, instantiated_state, ExecuteMsg, InstantiateMsg, QueryMsg, State, StateView,
};

verus! {

/// The answer to `QueryMsg::GetConfig`, naming how the contract pays out.
#[derive(Debug, Clone, PartialEq)]
pub struct GetConfig {
    pub cw20_address: String,
    pub tf_denom: String,
    pub mode: String,
}

pub struct GetConfigView {
    pub cw20_address: Seq<char>,
    pub tf_denom: Seq<char>,
    pub mode: Seq<char>,
}

impl View for GetConfig {
    type V = GetConfigView;

    open spec fn view(&self) -> GetConfigView {
        GetConfigView {
            cw20_address: self.cw20_address@,
            tf_denom: self.tf_denom@,
            mode: self.mode@,
        }
    }
}

pub open spec fn redeem_balance_response_view(
    tf_denom: Seq<char>,
    cw20_contract: Seq<char>,
    recipient: Seq<char>,
    amount: u128,
    burn_msg: Seq<u8>,
) -> ResponseView {
    ResponseView {
        attributes: seq![attr_view("method"@, "redeem_balannce"@)],
        messages: seq![
            wasm_execute_view(cw20_contract, burn_msg),
            bank_send_view(recipient, tf_denom, amount),
        ],
    }
}

/// The response of a redeem: first the burn on the CW20 contract, then the
/// payout of `amount` of `tf_denom` to the CW20 sender.
pub fn redeem_balance_response(
    tf_denom: String,
    cw20_contract: String,
    cw20_msg: &Cw20ReceiveMsg,
    burn_msg: Vec<u8>,
) -> (resp: Response)
    ensures
        resp@ == redeem_balance_response_view(
            tf_denom@,
            cw20_contract@,
            cw20_msg.sender@,
            cw20_msg.amount,
            burn_msg@,
        ),
{
    let ghost expected = redeem_balance_response_view(
        tf_denom@,
        cw20_contract@,
        cw20_msg.sender@,
        cw20_msg.amount,
        burn_msg@,
    );
    let mut attributes: Vec<Attribute> = Vec::new();
    attributes.push(attribute("method", "redeem_balannce"));
    let mut messages: Vec<CosmosMsg> = Vec::new();
    messages.push(wasm_execute(cw20_contract, burn_msg));
    messages.push(bank_send(cw20_msg.sender.clone(), tf_denom, cw20_msg.amount));
    let resp = Response { attributes, messages };
    assert(resp@.attributes =~= expected.attributes);
    assert(resp@.messages =~= expected.messages);
    resp
}

/// Redeems CW20 tokens received from `sender` out of the contract's own
/// holdings. `balances` is the outcome of querying all balances of this
/// contract; for an accepted caller the coin of `tf_denom` must be among them
/// (the contract cannot redeem without it).
pub fn execute_redeem_balance(
    state: &State,
    sender: &String,
    balances: Result<Vec<Coin>, cosmwasm_std::StdError>,
    cw20_msg: Cw20ReceiveMsg,
) -> (r: Result<Response, ContractError>)
    requires
        sender@ == state.cw20_address@ ==> (balances matches Ok(b) ==> holds_denom(
            coins_view(b@),
            state.tf_denom@,
        )),
    ensures
        sender@ != state.cw20_address@ ==> r matches Err(ContractError::InvalidCW20Address {  }),
        r is Ok <==> (balances matches Ok(b) && redeem_accepted(
            sender@,
            state.cw20_address@,
            balance_of(coins_view(b@), state.tf_denom@),
            cw20_msg.amount,
        )),
        sender@ == state.cw20_address@ ==> match balances {
            Err(e) => is_std_error(r, e),
            Ok(b) => {
                let held = balance_of(coins_view(b@), state.tf_denom@);
                if held < cw20_msg.amount {
                    r matches Err(ContractError::OutOfFunds { request, amount }) && request
                        == cw20_msg.amount && amount == held
                } else {
                    r matches Ok(resp) && resp@ == redeem_balance_response_view(
                        state.tf_denom@,
                        sender@,
                        cw20_msg.sender@,
                        cw20_msg.amount,
                        cw20_burn_json(cw20_msg.amount),
                    )
                }
            },
        },
{
    if *sender != state.cw20_address {
        return Err(ContractError::InvalidCW20Address {  });
    }
    let coins = match balances {
        Ok(c) => c,
        Err(e) => return Err(ContractError::Std(e)),
    };
    let held = match find_balance(&coins, &state.tf_denom) {
        Some(a) => a,
        None => {
            assert(false);
            0
        },
    };
    if held < cw20_msg.amount {
        return Err(ContractError::OutOfFunds { request: cw20_msg.amount, amount: held });
    }
    let burn_msg = match encode_cw20_burn(cw20_msg.amount) {
        Ok(b) => b,
        Err(e) => return Err(ContractError::Std(e)),
    };
    Ok(redeem_balance_response(state.tf_denom.clone(), sender.clone(), &cw20_msg, burn_msg))
}

/// Handles an execute message; see `execute_redeem_balance`.
pub fn execute(
    state: &State,
    sender: &String,
    balances: Result<Vec<Coin>, cosmwasm_std::StdError>,
    msg: ExecuteMsg,
) -> (r: Result<Response, ContractError>)
    requires
        sender@ == state.cw20_address@ ==> (balances matches Ok(b) ==> holds_denom(
            coins_view(b@),
            state.tf_denom@,
        )),
    ensures
        match msg {
            ExecuteMsg::Receive(m) => r is Ok <==> (balances matches Ok(b) && redeem_accepted(
                sender@,
                state.cw20_address@,
                balance_of(coins_view(b@), state.tf_denom@),
                m.amount,
            )),
        },
        match msg {
            ExecuteMsg::Receive(m) => sender@ != state.cw20_address@ ==> r matches Err(
                ContractError::InvalidCW20Address {  },
            ),
        },
        match msg {
            ExecuteMsg::Receive(m) => sender@ == state.cw20_address@ ==> match balances {
                Err(e) => is_std_error(r, e),
                Ok(b) => {
                    let held = balance_of(coins_view(b@), state.tf_denom@);
                    if held < m.amount {
                        r matches Err(ContractError::OutOfFunds { request, amount }) && request
                            == m.amount && amount == held
                    } else {
                        r matches Ok(resp) && resp@ == redeem_balance_response_view(
                            state.tf_denom@,
                            sender@,
                            m.sender@,
                            m.amount,
                            cw20_burn_json(m.amount),
                        )
                    }
                },
            },
        },
{
    match msg {
        ExecuteMsg::Receive(cw20_msg) => execute_redeem_balance(state, sender, balances, cw20_msg),
    }
}

/// The configuration that a query reports for a stored state.
pub open spec fn config_view(st: StateView) -> GetConfigView {
    GetConfigView { cw20_address: st.cw20_address, tf_denom: st.tf_denom, mode: "balance"@ }
}

/// Answers a query from the stored state; the mode is `balance`.
pub fn query(state: &State, msg: QueryMsg) -> (c: GetConfig)
    ensures
        c@ == config_view(state@),
{
    match msg {
        QueryMsg::GetConfig {  } => GetConfig {
            cw20_address: state.cw20_address.clone(),
            tf_denom: state.tf_denom.clone(),
            mode: "balance".to_owned(),
        },
    }
}

/// Every successful redeem asks the CW20 contract to burn exactly the amount
/// received, once, and pays the CW20 sender exactly that amount of the
/// configured denomination.
pub proof fn lemma_redeem_balance_exchanges_one_for_one(
    tf_denom: Seq<char>,
    cw20_contract: Seq<char>,
    recipient: Seq<char>,
    amount: u128,
)
    ensures
        ({
            let resp = redeem_balance_response_view(
                tf_denom,
                cw20_contract,
                recipient,
                amount,
                cw20_burn_json(amount),
            );
            &&& total_paid(resp.messages, recipient, tf_denom) == amount
            &&& executions_of(resp.messages, cw20_contract) == seq![cw20_burn_json(amount)]
        }),
{
    let resp = redeem_balance_response_view(
        tf_denom,
        cw20_contract,
        recipient,
        amount,
        cw20_burn_json(amount),
    );
    let pay = bank_send_view(recipient, tf_denom, amount);
    let burn = wasm_execute_view(cw20_contract, cw20_burn_json(amount));
    lemma_single_messages(tf_denom, cw20_contract, recipient, amount, cw20_burn_json(amount));
    lemma_two_messages(burn, pay, recipient, tf_denom, cw20_contract);
    assert(resp.messages == seq![burn, pay]);
    assert(seq![cw20_burn_json(amount)] + Seq::<Seq<u8>>::empty() =~= seq![cw20_burn_json(amount)]);
}

/// Querying a contract set up by `instantiate` reports the validated CW20
/// address and the denomination it was set up with, in `balance` mode.
pub proof fn lemma_query_reads_back_instantiate(cw20_address: Seq<char>, tf_denom: Seq<char>)
    ensures
        config_view(instantiated_state(cw20_address, tf_denom)) == (GetConfigView {
            cw20_address,
            tf_denom,
            mode: "balance"@,
        }),
{
}

/// A successful redeem has exactly two messages. It executes only the CW20
/// contract, once, with the burn of `amount`; out of the contract's holdings
/// it sends `amount` of the configured denomination to the CW20 sender and
/// nothing else to anyone; it mints nothing and changes no admin.
pub proof fn lemma_redeem_balance_effects(
    tf_denom: Seq<char>,
    cw20_contract: Seq<char>,
    recipient: Seq<char>,
    amount: u128,
)
    ensures
        ({
            let msgs = redeem_balance_response_view(
                tf_denom,
                cw20_contract,
                recipient,
                amount,
                cw20_burn_json(amount),
            ).messages;
            &&& msgs.len() == 2
            &&& forall|to: Seq<char>, d: Seq<char>|
                #[trigger] total_bank_paid(msgs, to, d) == (if to == recipient && d == tf_denom {
                    amount as int
                } else {
                    0
                })
            &&& forall|d: Seq<char>|
                #[trigger] total_bank_out(msgs, d) == (if d == tf_denom {
                    amount as int
                } else {
                    0
                })
            &&& forall|to: Seq<char>, d: Seq<char>| #[trigger] total_minted(msgs, to, d) == 0
            &&& admin_changes(msgs) == Seq::<(Seq<char>, Seq<char>)>::empty()
            &&& forall|c: Seq<char>|
                #[trigger] executions_of(msgs, c) == (if c == cw20_contract {
                    seq![cw20_burn_json(amount)]
                } else {
                    Seq::<Seq<u8>>::empty()
                })
        }),
{
    let body = cw20_burn_json(amount);
    let msgs = redeem_balance_response_view(tf_denom, cw20_contract, recipient, amount, body).messages;
    let pay = bank_send_view(recipient, tf_denom, amount);
    let burn = wasm_execute_view(cw20_contract, body);
    assert(msgs == seq![burn, pay]);
    assert forall|to: Seq<char>, d: Seq<char>|
        #[trigger] total_bank_paid(msgs, to, d) == (if to == recipient && d == tf_denom {
            amount as int
        } else {
            0
        }) by {
        lemma_sum_two(burn, pay, |m: MsgView| bank_paid(m, to, d));
        lemma_one_coin_total(tf_denom, amount, d);
    }
    assert forall|d: Seq<char>|
        #[trigger] total_bank_out(msgs, d) == (if d == tf_denom {
            amount as int
        } else {
            0
        }) by {
        lemma_sum_two(burn, pay, |m: MsgView| bank_out(m, d));
        lemma_one_coin_total(tf_denom, amount, d);
    }
    assert forall|to: Seq<char>, d: Seq<char>| #[trigger] total_minted(msgs, to, d) == 0 by {
        lemma_sum_two(burn, pay, |m: MsgView| minted(m, to, d));
    }
    lemma_admin_changes_two(burn, pay);
    assert(admin_changes(msgs) =~= Seq::<(Seq<char>, Seq<char>)>::empty());
    assert forall|c: Seq<char>|
        #[trigger] executions_of(msgs, c) == (if c == cw20_contract {
            seq![body]
        } else {
            Seq::<Seq<u8>>::empty()
        }) by {
        lemma_two_messages(burn, pay, recipient, tf_denom, c);
        assert(msg_executes(pay, c) =~= Seq::<Seq<u8>>::empty());
        if c == cw20_contract {
            assert(executions_of(msgs, c) =~= seq![body]);
        } else {
            assert(executions_of(msgs, c) =~= Seq::<Seq<u8>>::empty());
        }
    }
}

} // verus!
