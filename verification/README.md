# anchor_vault_escrow

The account rules and instruction plans of two Solana programs, verified with
Verus:

- a lamport vault (`src/vault.rs`): `initialize`, `deposit`, `withdraw`,
  `close`;
- a token escrow (`src/escrow/`): `make`, `refund`, `take`.

Each instruction checks the types and constraints of its accounts in the
order in which the framework checks them and, when they pass, returns what
the instruction asks the runtime to do.  Where accounts are created before
the remaining checks (`initialize_accounts`, `make_accounts`,
`Take::try_taker_ata_x`, `Take::try_maker_ata_y`), a step function checks up
to the creation and names it; the caller makes it and goes on.  Decoding
account data is left to the caller.  What the instructions ask for: accounts to create, transfers (with the seeds the
program signs with), records to write and accounts to close.  Program derived
addresses come from `Pubkey::create_program_address` and
`Pubkey::try_find_program_address` (`src/pda.rs`), the only trusted items.

`app/` reads the accounts, calls the library, and performs the cross-program
calls.
