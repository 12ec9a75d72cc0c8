//! The mint contract: it is the admin of the token-factory denomination and
//! mints the redeemed amount instead of paying from holdings. The previous
//! admin can take the denomination back.
use vstd::prelude::*;
use crate::common::{
    executions_of, instantiate_response, instantiate_response_view, is_invalid_denom,
    is_std_error, lemma_two_messages, msg_executes, msg_pays, not_factory_denom_error,
    not_factory_message, total_paid,
};
use crate::cw20_msg::{cw20_burn_json, encode_cw20_burn};
use crate::denom::{check_factory_denom, is_factory_denom};
use crate::effects::{
    admin_changes, bank_out, bank_paid, lemma_admin_changes_one, lemma_admin_changes_two,
    lemma_executions_one, lemma_sum_one, lemma_sum_two, minted, total_bank_out, total_bank_paid,
    total_minted,
};
use crate::error::ContractError;
use crate::types::{
    attr_view, attribute, wasm_execute, wasm_execute_view, Attribute, CosmosMsg, Cw20ReceiveMsg,
    MsgView, Response, ResponseView,
};

pub use crate::cw20_burn::QueryMsg;
pub use crate::cw20_burn_balance::{GetConfig, GetConfigView};

verus! {

/// What the contract stores at instantiation.
#[derive(Debug, Clone, PartialEq)]
pub struct State {
    /// The only CW20 contract whose tokens are accepted.
    pub cw20_address: String,
    /// The token-factory denomination minted.
    pub tf_denom: String,
    /// Who may take the denomination's admin back.
    pub prev_admin: String,
}

pub struct StateView {
    pub cw20_address: Seq<char>,
    pub tf_denom: Seq<char>,
    pub prev_admin: Seq<char>,
}

impl View for State {
    type V = StateView;

    open spec fn view(&self) -> StateView {
        StateView {
            cw20_address: self.cw20_address@,
            tf_denom: self.tf_denom@,
            prev_admin: self.prev_admin@,
        }
    }
}

#[derive(Debug, Clone, PartialEq)]
pub struct InstantiateMsg {
    pub cw20_address: String,
    pub tf_denom: String,
    /// The previous admin; the instantiating address when absent.
    pub admin: Option<String>,
}

#[derive(Debug, Clone, PartialEq)]
pub enum ExecuteMsg {
    Receive(Cw20ReceiveMsg),
    TransferBackAdmin {},
}

/// The address that becomes the previous admin: the one named in the
/// message, or else the sender of the instantiation.
pub open spec fn admin_candidate_view(admin: Option<Seq<char>>, sender: Seq<char>) -> Seq<char> {
    match admin {
        Some(a) => a,
        None => sender,
    }
}

/// The address to validate and store as the previous admin.
pub fn admin_candidate(msg: &InstantiateMsg, sender: &String) -> (a: String)
    ensures
        a@ == admin_candidate_view(
            match msg.admin {
                Some(x) => Some(x@),
                None => None,
            },
            sender@,
        ),
{
    match &msg.admin {
        Some(a) => a.clone(),
        None => sender.clone(),
    }
}

/// The state stored by a successful instantiation.
pub open spec fn instantiated_state(
    cw20_address: Seq<char>,
    tf_denom: Seq<char>,
    prev_admin: Seq<char>,
) -> StateView {
    StateView { cw20_address, tf_denom, prev_admin }
}

/// Sets the contract up. `cw20_address` is the outcome of validating
/// `msg.cw20_address`, and `admin` that of validating
/// `admin_candidate(msg, sender)`, with the chain's address API. They are
/// consulted in this order: the CW20 address, the denomination's `factory/`
/// prefix, then the admin.
pub fn instantiate(
    msg: InstantiateMsg,
    cw20_address: Result<String, cosmwasm_std::StdError>,
    admin: Result<String, cosmwasm_std::StdError>,
) -> (r: Result<(State, Response), ContractError>)
    ensures
        match cw20_address {
            Err(e) => is_std_error(r, e),
            Ok(addr) => if !is_factory_denom(msg.tf_denom@) {
                r matches Err(e) && is_invalid_denom(e, msg.tf_denom@, not_factory_message())
            } else {
                match admin {
                    Err(e) => is_std_error(r, e),
                    Ok(adm) => r matches Ok((st, resp)) && st@ == instantiated_state(
                        addr@,
                        msg.tf_denom@,
                        adm@,
                    ) && resp@ == instantiate_response_view(),
                }
            },
        },
{
    let cw20_addr = match cw20_address {
        Ok(a) => a,
        Err(e) => return Err(ContractError::Std(e)),
    };
    let tf_denom = msg.tf_denom;
    if !check_factory_denom(&tf_denom) {
        return Err(not_factory_denom_error(tf_denom));
    }
    let prev_admin = match admin {
        Ok(a) => a,
        Err(e) => return Err(ContractError::Std(e)),
    };
    let state = State { cw20_address: cw20_addr, tf_denom, prev_admin };
    Ok((state, instantiate_response()))
}

pub open spec fn transfer_back_admin_response_view(
    tf_denom: Seq<char>,
    prev_admin: Seq<char>,
    sender: Seq<char>,
) -> ResponseView {
    ResponseView {
        attributes: seq![
            attr_view("method"@, "transfer_back_admin"@),
            attr_view("new_admin"@, sender),
        ],
        messages: seq![
            MsgView::TokenChangeAdmin { denom: tf_denom, new_admin_address: prev_admin },
        ],
    }
}

/// Hands the admin of the denomination back to the previous admin; only the
/// previous admin may ask for it.
pub fn execute_transfer_back_admin(state: &State, sender: &String) -> (r: Result<
    Response,
    ContractError,
>)
    ensures
        sender@ != state.prev_admin@ ==> r matches Err(ContractError::Unauthorized {  }),
        sender@ == state.prev_admin@ ==> (r matches Ok(resp) && resp@
            == transfer_back_admin_response_view(
            state.tf_denom@,
            state.prev_admin@,
            sender@,
        )),
{
    if *sender != state.prev_admin {
        return Err(ContractError::Unauthorized {  });
    }
    let ghost expected = transfer_back_admin_response_view(
        state.tf_denom@,
        state.prev_admin@,
        sender@,
    );
    let mut attributes: Vec<Attribute> = Vec::new();
    attributes.push(attribute("method", "transfer_back_admin"));
    attributes.push(Attribute { key: "new_admin".to_owned(), value: sender.clone() });
    let mut messages: Vec<CosmosMsg> = Vec::new();
    messages.push(
        CosmosMsg::TokenChangeAdmin {
            denom: state.tf_denom.clone(),
            new_admin_address: state.prev_admin.clone(),
        },
    );
    let resp = Response { attributes, messages };
    assert(resp@.attributes =~= expected.attributes);
    assert(resp@.messages =~= expected.messages);
    Ok(resp)
}

pub open spec fn redeem_mint_response_view(
    tf_denom: Seq<char>,
    cw20_contract: Seq<char>,
    recipient: Seq<char>,
    amount: u128,
    burn_msg: Seq<u8>,
) -> ResponseView {
    ResponseView {
        attributes: seq![attr_view("method"@, "redeem_mint"@)],
        messages: seq![
            wasm_execute_view(cw20_contract, burn_msg),
            MsgView::TokenMint { denom: tf_denom, amount, mint_to_address: recipient },
        ],
    }
}

/// The response of a redeem: first the burn on the CW20 contract, then the
/// mint of `amount` of `tf_denom` to the CW20 sender.
pub fn redeem_mint_response(
    tf_denom: String,
    cw20_contract: String,
    cw20_msg: &Cw20ReceiveMsg,
    burn_msg: Vec<u8>,
) -> (resp: Response)
    ensures
        resp@ == redeem_mint_response_view(
            tf_denom@,
            cw20_contract@,
            cw20_msg.sender@,
            cw20_msg.amount,
            burn_msg@,
        ),
{
    let ghost expected = redeem_mint_response_view(
        tf_denom@,
        cw20_contract@,
        cw20_msg.sender@,
        cw20_msg.amount,
        burn_msg@,
    );
    let mut attributes: Vec<Attribute> = Vec::new();
    attributes.push(attribute("method", "redeem_mint"));
    let mut messages: Vec<CosmosMsg> = Vec::new();
    messages.push(wasm_execute(cw20_contract, burn_msg));
    messages.push(
        CosmosMsg::TokenMint {
            denom: tf_denom,
            amount: cw20_msg.amount,
            mint_to_address: cw20_msg.sender.clone(),
        },
    );
    let resp = Response { attributes, messages };
    assert(resp@.attributes =~= expected.attributes);
    assert(resp@.messages =~= expected.messages);
    resp
}

/// Redeems CW20 tokens received from `sender` by minting; only the
/// configured CW20 contract is accepted, and for it the redeem always succeeds.
pub fn execute_redeem_mint(state: &State, sender: &String, cw20_msg: Cw20ReceiveMsg) -> (r: Result<
    Response,
    ContractError,
>)
    ensures
        r is Ok <==> sender@ == state.cw20_address@,
        sender@ != state.cw20_address@ ==> r matches Err(ContractError::InvalidCW20Address {  }),
        sender@ == state.cw20_address@ ==> (r matches Ok(resp) && resp@
            == redeem_mint_response_view(
            state.tf_denom@,
            sender@,
            cw20_msg.sender@,
            cw20_msg.amount,
            cw20_burn_json(cw20_msg.amount),
        )),
{
    if *sender != state.cw20_address {
        return Err(ContractError::InvalidCW20Address {  });
    }
    let burn_msg = match encode_cw20_burn(cw20_msg.amount) {
        Ok(b) => b,
        Err(e) => return Err(ContractError::Std(e)),
    };
    Ok(redeem_mint_response(state.tf_denom.clone(), sender.clone(), &cw20_msg, burn_msg))
}

/// Dispatches an execute message.
pub fn execute(state: &State, sender: &String, msg: ExecuteMsg) -> (r: Result<
    Response,
    ContractError,
>)
    ensures
        match msg {
            ExecuteMsg::Receive(m) => {
                &&& sender@ != state.cw20_address@ ==> (r matches Err(
                    ContractError::InvalidCW20Address {  },
                ))
                &&& sender@ == state.cw20_address@ ==> (r matches Ok(resp) && resp@
                    == redeem_mint_response_view(
                    state.tf_denom@,
                    sender@,
                    m.sender@,
                    m.amount,
                    cw20_burn_json(m.amount),
                ))
            },
            ExecuteMsg::TransferBackAdmin {  } => {
                &&& sender@ != state.prev_admin@ ==> (r matches Err(ContractError::Unauthorized {  }))
                &&& sender@ == state.prev_admin@ ==> (r matches Ok(resp) && resp@
                    == transfer_back_admin_response_view(
                    state.tf_denom@,
                    state.prev_admin@,
                    sender@,
                ))
            },
        },
{
    match msg {
        ExecuteMsg::Receive(cw20_msg) => execute_redeem_mint(state, sender, cw20_msg),
        ExecuteMsg::TransferBackAdmin {  } => execute_transfer_back_admin(state, sender),
    }
}

/// The configuration that a query reports for a stored state.
pub open spec fn config_view(st: StateView) -> GetConfigView {
    GetConfigView { cw20_address: st.cw20_address, tf_denom: st.tf_denom, mode: "mint"@ }
}

/// Answers a query from the stored state; the mode is `mint`.
pub fn query(state: &State, msg: QueryMsg) -> (c: GetConfig)
    ensures
        c@ == config_view(state@),
{
    match msg {
        QueryMsg::GetConfig {  } => GetConfig {
            cw20_address: state.cw20_address.clone(),
            tf_denom: state.tf_denom.clone(),
            mode: "mint".to_owned(),
        },
    }
}

/// Every successful redeem asks the CW20 contract to burn exactly the amount
/// received, once, and mints exactly that amount of the configured
/// denomination to the CW20 sender.
pub proof fn lemma_redeem_mint_exchanges_one_for_one(
    tf_denom: Seq<char>,
    cw20_contract: Seq<char>,
    recipient: Seq<char>,
    amount: u128,
)
    ensures
        ({
            let resp = redeem_mint_response_view(
                tf_denom,
                cw20_contract,
                recipient,
                amount,
                cw20_burn_json(amount),
            );
            &&& total_paid(resp.messages, recipient, tf_denom) == amount
            &&& executions_of(resp.messages, cw20_contract) == seq![cw20_burn_json(amount)]
        }),
{
    let resp = redeem_mint_response_view(
        tf_denom,
        cw20_contract,
        recipient,
        amount,
        cw20_burn_json(amount),
    );
    let burn = wasm_execute_view(cw20_contract, cw20_burn_json(amount));
    let mint = MsgView::TokenMint { denom: tf_denom, amount, mint_to_address: recipient };
    lemma_two_messages(burn, mint, recipient, tf_denom, cw20_contract);
    assert(msg_pays(burn, recipient, tf_denom) == 0);
    assert(msg_pays(mint, recipient, tf_denom) == amount);
    assert(msg_executes(burn, cw20_contract) == seq![cw20_burn_json(amount)]);
    assert(msg_executes(mint, cw20_contract) == Seq::<Seq<u8>>::empty());
    assert(resp.messages == seq![burn, mint]);
    assert(seq![cw20_burn_json(amount)] + Seq::<Seq<u8>>::empty() =~= seq![cw20_burn_json(amount)]);
}

/// Querying a contract set up by `instantiate` reports the validated CW20
/// address and the denomination it was set up with, in `mint` mode.
pub proof fn lemma_query_reads_back_instantiate(
    cw20_address: Seq<char>,
    tf_denom: Seq<char>,
    prev_admin: Seq<char>,
)
    ensures
        config_view(instantiated_state(cw20_address, tf_denom, prev_admin)) == (GetConfigView {
            cw20_address,
            tf_denom,
            mode: "mint"@,
        }),
{
}

/// A successful redeem has exactly two messages. It executes only the CW20
/// contract, once, with the burn of `amount`; it mints `amount` of the
/// configured denomination to the CW20 sender and nothing to anyone else;
/// it sends nothing out of the contract's holdings and changes no admin.
pub proof fn lemma_redeem_mint_effects(
    tf_denom: Seq<char>,
    cw20_contract: Seq<char>,
    recipient: Seq<char>,
    amount: u128,
)
    ensures
        ({
            let msgs = redeem_mint_response_view(
                tf_denom,
                cw20_contract,
                recipient,
                amount,
                cw20_burn_json(amount),
            ).messages;
            &&& msgs.len() == 2
            &&& forall|to: Seq<char>, d: Seq<char>|
                #[trigger] total_minted(msgs, to, d) == (if to == recipient && d == tf_denom {
                    amount as int
                } else {
                    0
                })
            &&& forall|d: Seq<char>| #[trigger] total_bank_out(msgs, d) == 0
            &&& forall|to: Seq<char>, d: Seq<char>| #[trigger] total_bank_paid(msgs, to, d) == 0
            &&& admin_changes(msgs) == Seq::<(Seq<char>, Seq<char>)>::empty()
            &&& forall|c: Seq<char>|
                #[trigger] executions_of(msgs, c) == (if c == cw20_contract {
                    seq![cw20_burn_json(amount)]
                } else {
                    Seq::<Seq<u8>>::empty()
                })
        }),
{
    let body = cw20_burn_json(amount);
    let msgs = redeem_mint_response_view(tf_denom, cw20_contract, recipient, amount, body).messages;
    let burn = wasm_execute_view(cw20_contract, body);
    let mint = MsgView::TokenMint { denom: tf_denom, amount, mint_to_address: recipient };
    assert(msgs == seq![burn, mint]);
    assert forall|to: Seq<char>, d: Seq<char>|
        #[trigger] total_minted(msgs, to, d) == (if to == recipient && d == tf_denom {
            amount as int
        } else {
            0
        }) by {
        lemma_sum_two(burn, mint, |m: MsgView| minted(m, to, d));
    }
    assert forall|d: Seq<char>| #[trigger] total_bank_out(msgs, d) == 0 by {
        lemma_sum_two(burn, mint, |m: MsgView| bank_out(m, d));
    }
    assert forall|to: Seq<char>, d: Seq<char>| #[trigger] total_bank_paid(msgs, to, d) == 0 by {
        lemma_sum_two(burn, mint, |m: MsgView| bank_paid(m, to, d));
    }
    lemma_admin_changes_two(burn, mint);
    assert(admin_changes(msgs) =~= Seq::<(Seq<char>, Seq<char>)>::empty());
    assert forall|c: Seq<char>|
        #[trigger] executions_of(msgs, c) == (if c == cw20_contract {
            seq![body]
        } else {
            Seq::<Seq<u8>>::empty()
        }) by {
        lemma_two_messages(burn, mint, recipient, tf_denom, c);
        assert(msg_executes(mint, c) =~= Seq::<Seq<u8>>::empty());
        if c == cw20_contract {
            assert(executions_of(msgs, c) =~= seq![body]);
        } else {
            assert(executions_of(msgs, c) =~= Seq::<Seq<u8>>::empty());
        }
    }
}

/// When the previous admin asks, the response has exactly one message, and
/// it hands the admin of the configured denomination to the previous admin;
/// it sends, mints and executes nothing.
pub proof fn lemma_transfer_back_admin_effects(
    tf_denom: Seq<char>,
    prev_admin: Seq<char>,
    sender: Seq<char>,
)
    ensures
        ({
            let msgs = transfer_back_admin_response_view(tf_denom, prev_admin, sender).messages;
            &&& msgs.len() == 1
            &&& admin_changes(msgs) == seq![(tf_denom, prev_admin)]
            &&& forall|d: Seq<char>| #[trigger] total_bank_out(msgs, d) == 0
            &&& forall|to: Seq<char>, d: Seq<char>| #[trigger] total_minted(msgs, to, d) == 0
            &&& forall|c: Seq<char>| #[trigger] executions_of(msgs, c) == Seq::<Seq<u8>>::empty()
        }),
{
    let msgs = transfer_back_admin_response_view(tf_denom, prev_admin, sender).messages;
    let change = MsgView::TokenChangeAdmin { denom: tf_denom, new_admin_address: prev_admin };
    assert(msgs == seq![change]);
    lemma_admin_changes_one(change);
    assert forall|d: Seq<char>| #[trigger] total_bank_out(msgs, d) == 0 by {
        lemma_sum_one(change, |m: MsgView| bank_out(m, d));
    }
    assert forall|to: Seq<char>, d: Seq<char>| #[trigger] total_minted(msgs, to, d) == 0 by {
        lemma_sum_one(change, |m: MsgView| minted(m, to, d));
    }
    assert forall|c: Seq<char>| #[trigger] executions_of(msgs, c) == Seq::<Seq<u8>>::empty() by {
        lemma_executions_one(change, c);
        assert(msg_executes(change, c) =~= Seq::<Seq<u8>>::empty());
    }
}

/// A named admin becomes the previous admin whoever instantiates; the
/// instantiating sender is used only when no admin is named.
pub proof fn lemma_named_admin_wins(named: Seq<char>, sender: Seq<char>, other_sender: Seq<char>)
    ensures
        admin_candidate_view(Some(named), sender) == named,
        admin_candidate_view(Some(named), sender) == admin_candidate_view(Some(named), other_sender),
        admin_candidate_view(None, sender) == sender,
{
}

} // verus!
