use vstd::prelude::*;

verus! {

/// The decimal digits of `n` as ASCII bytes, most significant first, with
/// no leading zeros (`0` is the single digit `0`).
pub open spec fn decimal_ascii(n: nat) -> Seq<u8>
    decreases n,
{
    if n < 10 {
        seq![(48 + n) as u8]
    } else {
        decimal_ascii(n / 10).push((48 + n % 10) as u8)
    }
}

/// The bytes of `{"burn":{"amount":"`.
pub open spec fn burn_json_head() -> Seq<u8> {
    seq![
        123u8, 34u8, 98u8, 117u8, 114u8, 110u8, 34u8, 58u8, 123u8, 34u8, 97u8, 109u8, 111u8,
        117u8, 110u8, 116u8, 34u8, 58u8, 34u8,
    ]
}

/// The bytes of `"}}`.
pub open spec fn burn_json_tail() -> Seq<u8> {
    seq![34u8, 125u8, 125u8]
}

/// The JSON bytes of CW20's `Burn { amount }` execute message:
/// `{"burn":{"amount":"<amount in decimal>"}}`.
pub open spec fn cw20_burn_json(amount: u128) -> Seq<u8> {
    burn_json_head() + decimal_ascii(amount as nat) + burn_json_tail()
}

/// Serializes `cw20::Cw20ExecuteMsg::Burn { amount }` with
/// `cosmwasm_std::to_binary`. Trusted: the serializer writes the variant name
/// and field as JSON keys and the `Uint128` as a decimal string, and none of
/// those steps can fail, so the result is always `Ok` with exactly those bytes.
#[verifier::external_body]
#[allow(deprecated)]
pub(crate) fn encode_cw20_burn(amount: u128) -> (r: Result<Vec<u8>, cosmwasm_std::StdError>)
    ensures
        r is Ok,
        r matches Ok(bytes) ==> bytes@ == cw20_burn_json(amount),
{
    let burn = cw20::Cw20ExecuteMsg::Burn { amount: cosmwasm_std::Uint128::new(amount) };
    cosmwasm_std::to_binary(&burn).map(|b| b.0)
}

} // verus!
