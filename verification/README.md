# litesvm-token-extensions

Builders that create Token-2022 mints and token accounts carrying extensions
in an in-process LiteSVM, verified with Verus.

- `CreateMintWithExtensions`: `TransferFee`, `TransferHook`,
  `MintCloseAuthority`, `MetadataPointer`, `NonTransferable`,
  `PermanentDelegate`, `InterestBearing`; decimals, mint authority and freeze
  authority.
- `CreateAccountWithExtensions`: `ImmutableOwner` (set up before
  `initialize_account3`), `MemoTransfer` and `CpiGuard` (enabled after it,
  signed by the owner); an owner other than the payer.

Keys are passed and returned as `[u8; 32]`. A token account is sized for the
extensions added together with those its mint requires of its accounts (for
example `TransferFeeAmount` on a transfer-fee mint), read from the mint's
account in the simulator.

Layout of `src/`:

- `mint.rs`, `account.rs`: the builders, the model of the instruction sequence
  each one submits, and the proofs that the transaction's signers are exactly
  the keys its instructions require. `plan` gives the instructions for a key
  and a balance, sized for the extensions added; `signers` the keypairs that
  sign; `send_as` submits them for a given keypair and `send` for a fresh
  one.
- `extensions/`: the extensions, their types, and one trusted wrapper per
  Token-2022 instruction builder.
- `instruction.rs`: instructions as plain values, the system and Token-2022
  instructions the builders use.
- `keys.rs`: keys and signers that carry their key.
- `outside.rs`: the simulator, keypair and transaction calls.

The tests in `tests/` run the builders against LiteSVM and check the
instruction layouts that the trusted wrappers state.
