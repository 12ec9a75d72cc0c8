//! What a list of messages does, measured independently of how a response
//! was built: coins sent from holdings, coins minted, admin changes and
//! contract executions.
use vstd::prelude::*;
use crate::common::{coins_total, executions_of, msg_executes};
use crate::types::{CoinView, MsgView};

verus! {

/// The sum of `f` over a list of messages.
pub open spec fn sum_msgs(msgs: Seq<MsgView>, f: spec_fn(MsgView) -> int) -> int
    decreases msgs.len(),
{
    if msgs.len() == 0 {
        0
    } else {
        sum_msgs(msgs.drop_last(), f) + f(msgs.last())
    }
}

/// Coins of `denom` that a message sends from the contract's holdings to `to`.
pub open spec fn bank_paid(m: MsgView, to: Seq<char>, denom: Seq<char>) -> int {
    match m {
        MsgView::BankSend { to_address, amount } => if to_address == to {
            coins_total(amount, denom)
        } else {
            0
        },
        _ => 0,
    }
}

/// Coins of `denom` that a message sends from the contract's holdings to anyone.
pub open spec fn bank_out(m: MsgView, denom: Seq<char>) -> int {
    match m {
        MsgView::BankSend { to_address, amount } => coins_total(amount, denom),
        _ => 0,
    }
}

/// Coins of `denom` that a message mints to `to`.
pub open spec fn minted(m: MsgView, to: Seq<char>, denom: Seq<char>) -> int {
    match m {
        MsgView::TokenMint { denom: d, amount, mint_to_address } => if mint_to_address == to && d
            == denom {
            amount as int
        } else {
            0
        },
        _ => 0,
    }
}

pub open spec fn total_bank_paid(msgs: Seq<MsgView>, to: Seq<char>, denom: Seq<char>) -> int {
    sum_msgs(msgs, |m: MsgView| bank_paid(m, to, denom))
}

pub open spec fn total_bank_out(msgs: Seq<MsgView>, denom: Seq<char>) -> int {
    sum_msgs(msgs, |m: MsgView| bank_out(m, denom))
}

pub open spec fn total_minted(msgs: Seq<MsgView>, to: Seq<char>, denom: Seq<char>) -> int {
    sum_msgs(msgs, |m: MsgView| minted(m, to, denom))
}

/// The (denomination, new admin) pair of an admin change.
pub open spec fn admin_change(m: MsgView) -> Seq<(Seq<char>, Seq<char>)> {
    match m {
        MsgView::TokenChangeAdmin { denom, new_admin_address } => seq![(denom, new_admin_address)],
        _ => Seq::empty(),
    }
}

/// All admin changes in a list of messages, in order.
pub open spec fn admin_changes(msgs: Seq<MsgView>) -> Seq<(Seq<char>, Seq<char>)>
    decreases msgs.len(),
{
    if msgs.len() == 0 {
        Seq::empty()
    } else {
        admin_changes(msgs.drop_last()) + admin_change(msgs.last())
    }
}

pub proof fn lemma_sum_one(a: MsgView, f: spec_fn(MsgView) -> int)
    ensures
        sum_msgs(seq![a], f) == f(a),
{
    assert(seq![a].drop_last() =~= Seq::<MsgView>::empty());
    assert(seq![a].last() == a);
    assert(sum_msgs(Seq::<MsgView>::empty(), f) == 0);
}

pub proof fn lemma_sum_two(a: MsgView, b: MsgView, f: spec_fn(MsgView) -> int)
    ensures
        sum_msgs(seq![a, b], f) == f(a) + f(b),
{
    lemma_sum_one(a, f);
    assert(seq![a, b].drop_last() =~= seq![a]);
    assert(seq![a, b].last() == b);
}

pub proof fn lemma_admin_changes_one(a: MsgView)
    ensures
        admin_changes(seq![a]) == admin_change(a),
{
    assert(seq![a].drop_last() =~= Seq::<MsgView>::empty());
    assert(seq![a].last() == a);
    assert(admin_changes(Seq::<MsgView>::empty()) =~= Seq::empty());
    assert(admin_changes(seq![a]) =~= admin_change(a));
}

pub proof fn lemma_admin_changes_two(a: MsgView, b: MsgView)
    ensures
        admin_changes(seq![a, b]) == admin_change(a) + admin_change(b),
{
    lemma_admin_changes_one(a);
    assert(seq![a, b].drop_last() =~= seq![a]);
    assert(seq![a, b].last() == b);
}

pub proof fn lemma_executions_one(a: MsgView, contract: Seq<char>)
    ensures
        executions_of(seq![a], contract) == msg_executes(a, contract),
{
    assert(seq![a].drop_last() =~= Seq::<MsgView>::empty());
    assert(seq![a].last() == a);
    assert(executions_of(Seq::<MsgView>::empty(), contract) =~= Seq::empty());
    assert(executions_of(seq![a], contract) =~= msg_executes(a, contract));
}

/// A single coin counts toward its own denomination only.
pub proof fn lemma_one_coin_total(denom: Seq<char>, amount: u128, d: Seq<char>)
    ensures
        coins_total(seq![CoinView { denom, amount }], d) == (if d == denom {
            amount as int
        } else {
            0
        }),
{
    let coins = seq![CoinView { denom, amount }];
    assert(coins.drop_last() =~= Seq::<CoinView>::empty());
    assert(coins_total(Seq::<CoinView>::empty(), d) == 0);
    assert(coins.last() == CoinView { denom, amount });
}

} // verus!
