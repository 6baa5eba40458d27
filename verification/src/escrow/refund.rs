//! `refund`: the maker takes the escrowed tokens back and closes the escrow.
use vstd::prelude::*;
use crate::pda::Address;
use crate::accounts::{
    AccountSnapshot, ProgramIds, then_check, program_check, check_program, interface_check, check_interface,
    signer_check, check_signer, token_owned_check, check_token_owned, program_account_check,
    check_program_account, MintSnapshot, TokenAccountSnapshot, ConstraintError, TokenTransfer,
    TokenTransferView, CloseAccount, mut_check, check_mut, bump_check, check_bump,
    mint_program_check, check_mint_program, associated_token_check, check_associated_token,
    close_check, check_close,
};
use crate::escrow::state::{EscrowAccount, escrow_seeds, escrow_seeds_of};

verus! {

/// The accounts of `refund`.
#[derive(Clone, Copy, Debug)]
pub struct Refund {
    pub system_program: AccountSnapshot,
    pub token_program: AccountSnapshot,
    pub associated_token_program: AccountSnapshot,
    pub maker: AccountSnapshot,
    pub mint_x: MintSnapshot,
    pub mint_y: MintSnapshot,
    pub maker_ata_x: TokenAccountSnapshot,
    /// Closed to the maker at the end of the instruction.
    pub escrow: EscrowAccount,
    pub vault: TokenAccountSnapshot,
}

/// The seeds constraint of an escrow with its recorded bump.
pub open spec fn escrow_account_check(maker: Seq<u8>, seed: u64, escrow: EscrowAccount, program_id: Seq<u8>) -> Result<
    (),
    ConstraintError,
> {
    bump_check(escrow_seeds(maker, seed), escrow.data.bump, program_id, escrow.account.key@)
}

pub fn check_escrow_account(maker: &Address, seed: u64, escrow: &EscrowAccount, program_id: &Address) -> (r: Result<
    (),
    ConstraintError,
>)
    ensures
        r == escrow_account_check(maker@, seed, *escrow, program_id@),
{
    check_bump(&escrow_seeds_of(maker, seed), escrow.data.bump, program_id, &escrow.account.key)
}

/// The account types of `Refund`: the system program, a token program, the
/// associated token program, a signing maker, mints and token accounts owned
/// by a token program, an escrow owned by the program.
pub open spec fn refund_type_checks(a: Refund, program_id: Seq<u8>, ids: ProgramIds) -> Result<(), ConstraintError> {
    then_check(
        program_check(a.system_program, ids.system_program@),
        then_check(
            interface_check(a.token_program, ids),
            then_check(
                program_check(a.associated_token_program, ids.associated_token_program@),
                then_check(
                    signer_check(a.maker),
                    then_check(
                        token_owned_check(a.mint_x.account, ids),
                        then_check(
                            token_owned_check(a.mint_y.account, ids),
                            then_check(
                                token_owned_check(a.maker_ata_x.account, ids),
                                then_check(
                                    program_account_check(a.escrow.account, ids, program_id),
                                    token_owned_check(a.vault.account, ids),
                                ),
                            ),
                        ),
                    ),
                ),
            ),
        ),
    )
}

/// The checks of `Refund` for `seed`, in order: the account types; then both
/// mints belong to the
/// token program; the maker's `mint_x` account is the maker's associated
/// token account; the escrow is at `["escrow", maker, seed]` with its
/// recorded bump, writable, and not the maker itself; the vault is the
/// escrow's associated token account for `mint_x`.
pub open spec fn refund_checks(a: Refund, program_id: Seq<u8>, ids: ProgramIds, seed: u64) -> Result<(), ConstraintError> {
    match refund_type_checks(a, program_id, ids) {
        Err(e) => Err(e),
        Ok(_) => refund_constraint_checks(a, program_id, ids, seed),
    }
}

/// The constraints of `Refund` after the account types.
pub open spec fn refund_constraint_checks(a: Refund, program_id: Seq<u8>, ids: ProgramIds, seed: u64) -> Result<
    (),
    ConstraintError,
> {
    match mint_program_check(a.mint_x, a.token_program.key@) {
        Err(e) => Err(e),
        Ok(_) => match mint_program_check(a.mint_y, a.token_program.key@) {
            Err(e) => Err(e),
            Ok(_) => match associated_token_check(
                a.maker_ata_x,
                a.maker.key@,
                a.mint_x.account.key@,
                a.token_program.key@,
                ids.associated_token_program@,
            ) {
                Err(e) => Err(e),
                Ok(_) => match escrow_account_check(a.maker.key@, seed, a.escrow, program_id) {
                    Err(e) => Err(e),
                    Ok(_) => match mut_check(a.escrow.account) {
                        Err(e) => Err(e),
                        Ok(_) => match close_check(a.escrow.account.key@, a.maker.key@) {
                            Err(e) => Err(e),
                            Ok(_) => associated_token_check(
                                a.vault,
                                a.escrow.account.key@,
                                a.mint_x.account.key@,
                                a.token_program.key@,
                                ids.associated_token_program@,
                            ),
                        },
                    },
                },
            },
        },
    }
}

/// The transfer of `refund`: from the vault to the maker's own account,
/// authorised by the escrow and signed with `["escrow", maker, seed]` (no
/// bump seed); the amount is the lamport balance of the maker's `mint_x`
/// account, with the decimals of `mint_x`.
pub open spec fn refund_transfer(a: Refund, seed: u64) -> TokenTransferView {
    TokenTransferView {
        token_program: a.token_program.key@,
        from: a.vault.account.key@,
        mint: a.mint_x.account.key@,
        to: a.maker.key@,
        authority: a.escrow.account.key@,
        amount: a.maker_ata_x.account.lamports,
        decimals: a.mint_x.decimals,
        signer_seeds: Some(escrow_seeds(a.maker.key@, seed)),
    }
}

impl Refund {
    /// Checks the account constraints of `Refund` for `seed`.
    pub fn try_accounts(&self, program_id: &Address, ids: &ProgramIds, seed: u64) -> (r: Result<(), ConstraintError>)
        ensures
            r == refund_checks(*self, program_id@, *ids, seed),
    {
        check_program(&self.system_program, &ids.system_program)?;
        check_interface(&self.token_program, ids)?;
        check_program(&self.associated_token_program, &ids.associated_token_program)?;
        check_signer(&self.maker)?;
        check_token_owned(&self.mint_x.account, ids)?;
        check_token_owned(&self.mint_y.account, ids)?;
        check_token_owned(&self.maker_ata_x.account, ids)?;
        check_program_account(&self.escrow.account, ids, program_id)?;
        check_token_owned(&self.vault.account, ids)?;
        check_mint_program(&self.mint_x, &self.token_program.key)?;
        check_mint_program(&self.mint_y, &self.token_program.key)?;
        check_associated_token(
            &self.maker_ata_x,
            &self.maker.key,
            &self.mint_x.account.key,
            &self.token_program.key,
            &ids.associated_token_program,
        )?;
        check_escrow_account(&self.maker.key, seed, &self.escrow, program_id)?;
        check_mut(&self.escrow.account)?;
        check_close(&self.escrow.account.key, &self.maker.key)?;
        check_associated_token(
            &self.vault,
            &self.escrow.account.key,
            &self.mint_x.account.key,
            &self.token_program.key,
            &ids.associated_token_program,
        )
    }

    /// The transfer out of the vault back to the maker.
    pub fn refund(&self, seed: u64) -> (t: TokenTransfer)
        ensures
            t@ == refund_transfer(*self, seed),
    {
        TokenTransfer {
            token_program: self.token_program.key,
            from: self.vault.account.key,
            mint: self.mint_x.account.key,
            to: self.maker.key,
            authority: self.escrow.account.key,
            amount: self.maker_ata_x.account.lamports,
            decimals: self.mint_x.decimals,
            signer_seeds: Some(escrow_seeds_of(&self.maker.key, seed)),
        }
    }
}

/// What `refund` does once its accounts pass.
#[derive(Debug)]
pub struct RefundOutcome {
    pub transfer: TokenTransfer,
    pub close_escrow: CloseAccount,
}

/// The `refund` instruction: checks the accounts for `seed`, transfers out
/// of the vault and closes the escrow to the maker.
pub fn refund(program_id: &Address, ids: &ProgramIds, accounts: &Refund, seed: u64) -> (r: Result<RefundOutcome, ConstraintError>)
    ensures
        match refund_checks(*accounts, program_id@, *ids, seed) {
            Err(e) => r == Err::<RefundOutcome, ConstraintError>(e),
            Ok(_) => r matches Ok(o) && {
                &&& o.transfer@ == refund_transfer(*accounts, seed)
                &&& o.close_escrow.account == accounts.escrow.account.key
                &&& o.close_escrow.destination == accounts.maker.key
            },
        },
{
    accounts.try_accounts(program_id, ids, seed)?;
    let transfer = accounts.refund(seed);
    Ok(RefundOutcome {
        transfer,
        close_escrow: CloseAccount { account: accounts.escrow.account.key, destination: accounts.maker.key },
    })
}

} // verus!
