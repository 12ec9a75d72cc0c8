use vstd::prelude::*;

verus! {

/// An amount of one native denomination.
#[derive(Debug, Clone, PartialEq)]
pub struct Coin {
    pub denom: String,
    pub amount: u128,
}

pub struct CoinView {
    pub denom: Seq<char>,
    pub amount: u128,
}

impl View for Coin {
    type V = CoinView;

    open spec fn view(&self) -> CoinView {
        CoinView { denom: self.denom@, amount: self.amount }
    }
}

pub open spec fn coins_view(coins: Seq<Coin>) -> Seq<CoinView> {
    coins.map_values(|c: Coin| c@)
}

/// A key/value pair attached to a response.
#[derive(Debug, Clone, PartialEq)]
pub struct Attribute {
    pub key: String,
    pub value: String,
}

pub struct AttributeView {
    pub key: Seq<char>,
    pub value: Seq<char>,
}

impl View for Attribute {
    type V = AttributeView;

    open spec fn view(&self) -> AttributeView {
        AttributeView { key: self.key@, value: self.value@ }
    }
}

pub open spec fn attr_view(key: Seq<char>, value: Seq<char>) -> AttributeView {
    AttributeView { key, value }
}

/// A message a contract asks the chain to dispatch after it returns.
#[derive(Debug, Clone, PartialEq)]
pub enum CosmosMsg {
    /// Send native coins from the contract to an address.
    BankSend { to_address: String, amount: Vec<Coin> },
    /// Execute another contract with a JSON message and attached funds.
    WasmExecute { contract_addr: String, msg: Vec<u8>, funds: Vec<Coin> },
    /// Token-factory: hand the admin of a denomination to another address.
    TokenChangeAdmin { denom: String, new_admin_address: String },
    /// Token-factory: mint new coins of a denomination to an address.
    TokenMint { denom: String, amount: u128, mint_to_address: String },
}

pub enum MsgView {
    BankSend { to_address: Seq<char>, amount: Seq<CoinView> },
    WasmExecute { contract_addr: Seq<char>, msg: Seq<u8>, funds: Seq<CoinView> },
    TokenChangeAdmin { denom: Seq<char>, new_admin_address: Seq<char> },
    TokenMint { denom: Seq<char>, amount: u128, mint_to_address: Seq<char> },
}

impl View for CosmosMsg {
    type V = MsgView;

    open spec fn view(&self) -> MsgView {
        match self {
            CosmosMsg::BankSend { to_address, amount } => MsgView::BankSend {
                to_address: to_address@,
                amount: coins_view(amount@),
            },
            CosmosMsg::WasmExecute { contract_addr, msg, funds } => MsgView::WasmExecute {
                contract_addr: contract_addr@,
                msg: msg@,
                funds: coins_view(funds@),
            },
            CosmosMsg::TokenChangeAdmin { denom, new_admin_address } => MsgView::TokenChangeAdmin {
                denom: denom@,
                new_admin_address: new_admin_address@,
            },
            CosmosMsg::TokenMint { denom, amount, mint_to_address } => MsgView::TokenMint {
                denom: denom@,
                amount: *amount,
                mint_to_address: mint_to_address@,
            },
        }
    }
}

/// What a successful contract call hands back to the chain.
#[derive(Debug, Clone, PartialEq)]
pub struct Response {
    pub attributes: Vec<Attribute>,
    pub messages: Vec<CosmosMsg>,
}

pub struct ResponseView {
    pub attributes: Seq<AttributeView>,
    pub messages: Seq<MsgView>,
}

impl View for Response {
    type V = ResponseView;

    open spec fn view(&self) -> ResponseView {
        ResponseView {
            attributes: self.attributes@.map_values(|a: Attribute| a@),
            messages: self.messages@.map_values(|m: CosmosMsg| m@),
        }
    }
}

/// The notice a CW20 contract sends along with tokens transferred to us.
#[derive(Debug, Clone, PartialEq)]
pub struct Cw20ReceiveMsg {
    /// Who sent the CW20 tokens.
    pub sender: String,
    pub amount: u128,
    pub msg: Vec<u8>,
}

pub open spec fn bank_send_view(to: Seq<char>, denom: Seq<char>, amount: u128) -> MsgView {
    MsgView::BankSend { to_address: to, amount: seq![CoinView { denom, amount }] }
}

pub open spec fn wasm_execute_view(contract: Seq<char>, msg: Seq<u8>) -> MsgView {
    MsgView::WasmExecute { contract_addr: contract, msg, funds: Seq::empty() }
}

/// An attribute built from two literals.
pub fn attribute(key: &str, value: &str) -> (a: Attribute)
    ensures
        a@ == attr_view(key@, value@),
{
    Attribute { key: key.to_owned(), value: value.to_owned() }
}

/// A bank transfer of one coin.
pub fn bank_send(to: String, denom: String, amount: u128) -> (m: CosmosMsg)
    ensures
        m@ == bank_send_view(to@, denom@, amount),
{
    let mut coins: Vec<Coin> = Vec::new();
    coins.push(Coin { denom, amount });
    let m = CosmosMsg::BankSend { to_address: to, amount: coins };
    assert(coins_view(coins@) =~= seq![CoinView { denom: denom@, amount }]);
    m
}

/// A contract execution that carries no funds.
pub fn wasm_execute(contract: String, msg: Vec<u8>) -> (m: CosmosMsg)
    ensures
        m@ == wasm_execute_view(contract@, msg@),
{
    let funds: Vec<Coin> = Vec::new();
    let m = CosmosMsg::WasmExecute { contract_addr: contract, msg, funds };
    assert(coins_view(funds@) =~= Seq::<CoinView>::empty());
    m
}

/// The first coin of `denom` in a list, as `cosmwasm`'s balance queries list them.
pub open spec fn first_index_of(coins: Seq<CoinView>, denom: Seq<char>, i: int) -> bool {
    &&& 0 <= i < coins.len()
    &&& coins[i].denom == denom
    &&& forall|j: int| 0 <= j < i ==> coins[j].denom != denom
}

pub open spec fn holds_denom(coins: Seq<CoinView>, denom: Seq<char>) -> bool {
    exists|i: int| 0 <= i < coins.len() && coins[i].denom == denom
}

/// The amount of the first coin of `denom` in `coins` (meaningful when one is held).
pub open spec fn balance_of(coins: Seq<CoinView>, denom: Seq<char>) -> u128 {
    coins[choose|i: int| first_index_of(coins, denom, i)].amount
}

/// The first position of a denomination is unique.
pub proof fn lemma_first_index_unique(coins: Seq<CoinView>, denom: Seq<char>, i: int)
    requires
        first_index_of(coins, denom, i),
    ensures
        balance_of(coins, denom) == coins[i].amount,
{
    let k = choose|k: int| first_index_of(coins, denom, k);
    assert(first_index_of(coins, denom, k));
    if k < i {
        assert(coins[k].denom != denom);
    } else if i < k {
        assert(coins[i].denom != denom);
    }
}

/// The amount of the first coin of `denom` in `coins`, if there is one.
pub fn find_balance(coins: &Vec<Coin>, denom: &String) -> (r: Option<u128>)
    ensures
        r == (if holds_denom(coins_view(coins@), denom@) {
            Some(balance_of(coins_view(coins@), denom@))
        } else {
            None::<u128>
        }),
{
    let mut i: usize = 0;
    while i < coins.len()
        invariant
            i <= coins@.len(),
            forall|j: int| 0 <= j < i ==> coins_view(coins@)[j].denom != denom@,
        decreases coins.len() - i,
    {
        if coins[i].denom == *denom {
            proof {
                lemma_first_index_unique(coins_view(coins@), denom@, i as int);
            }
            return Some(coins[i].amount);
        }
        i = i + 1;
    }
    None
}

} // verus!
