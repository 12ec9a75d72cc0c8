# cw20-to-tokenfactory (verified core)

Three CosmWasm contracts that take in an old CW20 token and hand out a
token-factory native denomination 1:1:

- `cw20_burn`: pays out of the contract's own holdings (funds checked first);
- `cw20_burn_balance`: pays out of holdings, checking the caller first;
- `cw20_burn_mint`: mints the denomination as its admin; the previous admin
  can take the admin back.

`src/` is the Verus library: every decision the contracts take, over plain
models of coins, messages and responses, with contracts and laws (exact 1:1
exchange, only the configured CW20 contract is served, only `factory/`
denominations are accepted). `app/` holds the chain entry points: storage,
bank queries, address validation and JSON (de)serialization.
