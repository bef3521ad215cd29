# flashloan

A flash-loan program for Solana, written against pinocchio, whose logic is
verified with Verus.

Vaults are program accounts derived from the seed `b"vault"` and a fee; each
vault holds token accounts for various mints. A borrow lends tokens from vault
token accounts within one transaction, records for each loan the vault token
account and the balance it must hold again (its balance before the loan plus
`amount * fee / 10000`) in a loans account, and requires the transaction's last
instruction to be the repay. The repay accepts exactly when every recorded
vault token account holds at least its recorded balance, and then closes the
loans account.

Layout:

- `src/` — the verified library: error codes (`error`), account addresses
  (`address`), the plain-value view of an account (`account`), byte parsing
  (`parse`), rent (`rent`), the account checks (`utils`), the vault and loan
  records (`state`), the calls into other programs that instructions decide
  (`cpi`), one module per instruction (`instructions`), and the dispatcher
  (`processor`). Instructions that make several calls into other programs are
  written as step functions from a phase to the next phase and the call to
  make (`VaultInit::next`, `TokLgcDeposit::next`, `FlashloanBorrow::next`), with
  laws on the order of the calls over any run of steps.
- `app/` — the on-chain program around it: the entrypoint, reading the
  runtime's accounts and the instructions sysvar, performing the decided calls
  with pinocchio, and writing account changes back.
- `tests/` — tests of the library, including checks that its constants agree
  with the pinocchio crates.
