# Miracle pool

The rules of a prize pool on Solana, written and proved in Verus, and the Anchor program
that runs on them.

Players pay for game actions into a main vault, or for add-ons of a duel into a vault of
that duel. Every payment leaves 5% with the protocol. The pool's authority pays out of the
vaults, never out of what keeps them exempt from rent, and closes a duel's vault once it is
empty.

## Layout

- `src/` is the verified library.
  - `fees` prices actions and splits deposits.
  - `state` is the pool's configuration and the rules for changing it.
  - `address` derives the program's addresses; `rent` reckons what an account must keep.
  - `accounts` holds the accounts of each instruction and the constraints on them.
  - `ledger` holds balances; `transfer` moves lamports between them.
  - `instructions` puts these together, one function for each instruction.
  - `laws` states what holds of the pool as a whole.
- `tests/` runs the library.
- `app/` is the on-chain program: account storage, calls to the system program and the
  reading of sysvars.

## What is trusted

The address derivations of `solana-pubkey` and the rent computation of `solana-rent`, both
reached through `anchor_lang`, are believed as the three wrappers in `address` and `rent`
state them. Everything else in `src/` is proved.
