# near_deposit_withdraw

A NEAR contract that keeps fungible-token balances for NEAR accounts and
Aurora (EVM) addresses, with its logic verified in Verus.

- `src/` is the verified library:
  - `account_id`: NEAR account names and whether a name is valid;
  - `hex_codec`: what hexadecimal text means, and the calls into the `hex` crate;
  - `contract_account_id`: the accounts that hold balances, reading Aurora
    address texts, and choosing the account a withdrawal pays;
  - `keyed_map`: the maps that hold the balances;
  - `contract`: the contract's state, deposits, withdrawals and balance queries;
  - `laws`: what holds across the operations (a withdrawal undoes a deposit,
    balances change only where an operation names them, address texts read
    back, and so on).
- `app/` is the contract as NEAR runs it: it reads the blockchain's context,
  keeps the balances in contract storage, parses the JSON messages, and sends
  the token transfers that the library decides on.
- `tests/` runs the library on concrete values.
