use vstd::prelude::*;
use crate::error::ContractError;
use crate::types::{attr_view, attribute, bank_send_view, wasm_execute_view, Attribute, CoinView, CosmosMsg, MsgView, Response, ResponseView};

verus! {

/// The reason given when a denomination lacks the `factory/` prefix.
pub open spec fn not_factory_message() -> Seq<char> {
    "Denom must start with 'factory/'"@
}

/// `e` is `InvalidDenom` naming `denom` with `message`.
pub open spec fn is_invalid_denom(e: ContractError, denom: Seq<char>, message: Seq<char>) -> bool {
    e matches ContractError::InvalidDenom { denom: d, message: m } && d@ == denom && m@ == message
}

/// `r` failed with the given `cosmwasm_std` error, passed through unchanged.
pub open spec fn is_std_error<T>(r: Result<T, ContractError>, e: cosmwasm_std::StdError) -> bool {
    r matches Err(ContractError::Std(e2)) && e2 == e
}

/// The refusal of a denomination without the `factory/` prefix.
pub fn not_factory_denom_error(denom: String) -> (e: ContractError)
    ensures
        is_invalid_denom(e, denom@, not_factory_message()),
{
    ContractError::InvalidDenom { denom, message: "Denom must start with 'factory/'".to_owned() }
}

pub open spec fn instantiate_response_view() -> ResponseView {
    ResponseView {
        attributes: seq![attr_view("method"@, "instantiate"@)],
        messages: Seq::empty(),
    }
}

/// The response of a successful instantiation: one `method` attribute.
pub fn instantiate_response() -> (resp: Response)
    ensures
        resp@ == instantiate_response_view(),
{
    let mut attributes: Vec<Attribute> = Vec::new();
    attributes.push(attribute("method", "instantiate"));
    let messages: Vec<CosmosMsg> = Vec::new();
    let resp = Response { attributes, messages };
    assert(resp@.attributes =~= instantiate_response_view().attributes);
    assert(resp@.messages =~= instantiate_response_view().messages);
    resp
}

/// The native coins of `denom` that a message hands to `recipient`.
pub open spec fn msg_pays(m: MsgView, recipient: Seq<char>, denom: Seq<char>) -> int {
    match m {
        MsgView::BankSend { to_address, amount } => if to_address == recipient {
            coins_total(amount, denom)
        } else {
            0
        },
        MsgView::TokenMint { denom: d, amount, mint_to_address } => if mint_to_address
            == recipient && d == denom {
            amount as int
        } else {
            0
        },
        _ => 0,
    }
}

/// The sum of the coins of `denom` in a list.
pub open spec fn coins_total(coins: Seq<CoinView>, denom: Seq<char>) -> int
    decreases coins.len(),
{
    if coins.len() == 0 {
        0
    } else {
        coins_total(coins.drop_last(), denom) + (if coins.last().denom == denom {
            coins.last().amount as int
        } else {
            0
        })
    }
}

/// The native coins of `denom` that a list of messages hands to `recipient`.
pub open spec fn total_paid(msgs: Seq<MsgView>, recipient: Seq<char>, denom: Seq<char>) -> int
    decreases msgs.len(),
{
    if msgs.len() == 0 {
        0
    } else {
        total_paid(msgs.drop_last(), recipient, denom) + msg_pays(msgs.last(), recipient, denom)
    }
}

/// The message body of `m` when it is a fund-less execution of `contract`.
pub open spec fn msg_executes(m: MsgView, contract: Seq<char>) -> Seq<Seq<u8>> {
    match m {
        MsgView::WasmExecute { contract_addr, msg, funds } => if contract_addr == contract
            && funds.len() == 0 {
            seq![msg]
        } else {
            Seq::empty()
        },
        _ => Seq::empty(),
    }
}

/// The message bodies of the fund-less executions of `contract` in a list.
pub open spec fn executions_of(msgs: Seq<MsgView>, contract: Seq<char>) -> Seq<Seq<u8>>
    decreases msgs.len(),
{
    if msgs.len() == 0 {
        Seq::empty()
    } else {
        executions_of(msgs.drop_last(), contract) + msg_executes(msgs.last(), contract)
    }
}

/// Over two messages, payouts add up and executions are listed in order.
pub proof fn lemma_two_messages(
    a: MsgView,
    b: MsgView,
    recipient: Seq<char>,
    denom: Seq<char>,
    contract: Seq<char>,
)
    ensures
        total_paid(seq![a, b], recipient, denom) == msg_pays(a, recipient, denom) + msg_pays(
            b,
            recipient,
            denom,
        ),
        executions_of(seq![a, b], contract) == msg_executes(a, contract) + msg_executes(
            b,
            contract,
        ),
{
    let s = seq![a, b];
    assert(s.drop_last() =~= seq![a]);
    assert(seq![a].drop_last() =~= Seq::<MsgView>::empty());
    assert(total_paid(Seq::<MsgView>::empty(), recipient, denom) == 0);
    assert(executions_of(Seq::<MsgView>::empty(), contract) =~= Seq::<Seq<u8>>::empty());
    assert(seq![a].last() == a);
    assert(s.last() == b);
    assert(total_paid(seq![a], recipient, denom) == msg_pays(a, recipient, denom));
    assert(total_paid(s, recipient, denom) == total_paid(seq![a], recipient, denom) + msg_pays(b, recipient, denom));
    assert(executions_of(seq![a], contract) =~= msg_executes(a, contract));
    assert(executions_of(s, contract) =~= msg_executes(a, contract) + msg_executes(b, contract));
}

/// A transfer of one coin pays its amount to its recipient and executes nothing;
/// a fund-less execution pays nothing and executes its body once.
pub proof fn lemma_single_messages(
    denom: Seq<char>,
    contract: Seq<char>,
    recipient: Seq<char>,
    amount: u128,
    body: Seq<u8>,
)
    ensures
        msg_pays(bank_send_view(recipient, denom, amount), recipient, denom) == amount,
        msg_executes(bank_send_view(recipient, denom, amount), contract) == Seq::<Seq<u8>>::empty(),
        msg_pays(wasm_execute_view(contract, body), recipient, denom) == 0,
        msg_executes(wasm_execute_view(contract, body), contract) == seq![body],
{
    let coins = seq![CoinView { denom, amount }];
    assert(coins.drop_last() =~= Seq::<CoinView>::empty());
    assert(coins_total(Seq::<CoinView>::empty(), denom) == 0);
    assert(coins.last() == CoinView { denom, amount });
    assert(coins_total(coins, denom) == amount);
    assert(wasm_execute_view(contract, body)->funds.len() == 0);
}

/// A funded redeem is accepted when the caller is the configured CW20
/// contract and the contract holds at least the requested amount.
pub open spec fn redeem_accepted(
    sender: Seq<char>,
    cw20_address: Seq<char>,
    held: u128,
    amount: u128,
) -> bool {
    sender == cw20_address && amount <= held
}

/// Asking for less, or holding more, never turns an accepted redeem into a
/// refused one.
pub proof fn lemma_redeem_acceptance_monotone(
    sender: Seq<char>,
    cw20_address: Seq<char>,
    held: u128,
    amount: u128,
    more_held: u128,
    less_amount: u128,
)
    requires
        redeem_accepted(sender, cw20_address, held, amount),
        held <= more_held,
        less_amount <= amount,
    ensures
        redeem_accepted(sender, cw20_address, more_held, less_amount),
{
}

} // verus!
