# sol_vault_transfer

A token vault for one depositor, kept by an on-chain program, whose program-derived
signer pays tokens back out and drives a margin account on the 01 exchange.

- `src/` is the verified library: account addresses (`pubkey`), the vault's state
  (`vault`), the accounts each instruction takes and the checks on them (`accounts`),
  the calls into the token program and the exchange (`cpi`), the instructions
  themselves (`instructions`), and what holds of them together (`laws`).
- `app/` is the Anchor program around it: entry points, Anchor's account loading and
  account creation, and the calls into other programs that the library hands back.
- `tests/` runs the library on concrete accounts.
