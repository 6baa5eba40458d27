//! `make`: the maker opens an escrow and deposits the offered tokens.
use vstd::prelude::*;
use crate::pda::{Address, with_bump, push_bump};
use crate::accounts::{
    AccountSnapshot, ProgramIds, then_check, program_check, check_program, interface_check, check_interface,
    signer_check, check_signer, token_owned_check, check_token_owned, MintSnapshot, TokenAccountSnapshot, ConstraintError, TokenTransfer,
    TokenTransferView, CreatePdaAccount, CreatePdaAccountView, CreateAssociatedTokenAccount,
    CreateAssociatedTokenAccountView, mut_check, check_mut, canonical_pda_check, check_canonical_pda,
    mint_program_check, check_mint_program, associated_token_check, check_associated_token,
    associated_token_creation,
};
use crate::escrow::state::{Escrow, ESCROW_SPACE, escrow_seeds, escrow_seeds_of};

verus! {

/// The accounts of `make`.
#[derive(Clone, Copy, Debug)]
pub struct Make {
    pub system_program: AccountSnapshot,
    pub token_program: AccountSnapshot,
    pub associated_token_program: AccountSnapshot,
    pub maker: AccountSnapshot,
    pub mint_x: MintSnapshot,
    pub mint_y: MintSnapshot,
    pub maker_ata_x: TokenAccountSnapshot,
    /// To be created at the PDA of `["escrow", maker, seed]`.
    pub escrow: AccountSnapshot,
    /// To be created as the associated token account of the maker for `mint_x`.
    pub vault: AccountSnapshot,
}

/// The canonical bump found while checking `Make`.
#[derive(PartialEq, Eq, Structural, Clone, Copy, Debug)]
pub struct MakeBumps {
    pub escrow: u8,
}

/// The account types of `Make`: the system program, a token program, the
/// associated token program, a signing maker, and mints and a token account
/// owned by a token program.
pub open spec fn make_type_checks(a: Make, ids: ProgramIds) -> Result<(), ConstraintError> {
    then_check(
        program_check(a.system_program, ids.system_program@),
        then_check(
            interface_check(a.token_program, ids),
            then_check(
                program_check(a.associated_token_program, ids.associated_token_program@),
                then_check(
                    signer_check(a.maker),
                    then_check(
                        token_owned_check(a.mint_x.account, ids),
                        then_check(token_owned_check(a.mint_y.account, ids), token_owned_check(a.maker_ata_x.account, ids)),
                    ),
                ),
            ),
        ),
    )
}

/// The checks of `Make` for `seed` made before the escrow and the vault are
/// created: the account types, then the escrow is the canonical PDA of
/// `["escrow", maker, seed]`, whose bump is returned.
pub open spec fn make_init_checks(a: Make, program_id: Seq<u8>, ids: ProgramIds, seed: u64) -> Result<u8, ConstraintError> {
    match make_type_checks(a, ids) {
        Err(e) => Err(e),
        Ok(_) => canonical_pda_check(escrow_seeds(a.maker.key@, seed), program_id, a.escrow.key@),
    }
}

/// The checks of `Make` made once the escrow and the vault are created: the
/// maker is writable; both mints belong to the token program; the maker's
/// `mint_x` account is the maker's associated token account under the token
/// program, and writable.
pub open spec fn make_access_checks(a: Make, ids: ProgramIds) -> Result<(), ConstraintError> {
    then_check(
        mut_check(a.maker),
        then_check(
            mint_program_check(a.mint_x, a.token_program.key@),
            then_check(
                mint_program_check(a.mint_y, a.token_program.key@),
                then_check(
                    associated_token_check(
                        a.maker_ata_x,
                        a.maker.key@,
                        a.mint_x.account.key@,
                        a.token_program.key@,
                        ids.associated_token_program@,
                    ),
                    mut_check(a.maker_ata_x.account),
                ),
            ),
        ),
    )
}

/// The checks of `Make` for `seed`, in the order in which they are made:
/// those before the escrow and the vault are created, then those after.
pub open spec fn make_checks(a: Make, program_id: Seq<u8>, ids: ProgramIds, seed: u64) -> Result<MakeBumps, ConstraintError> {
    match make_init_checks(a, program_id, ids, seed) {
        Err(e) => Err(e),
        Ok(bump) => match make_access_checks(a, ids) {
            Err(e) => Err(e),
            Ok(_) => Ok(MakeBumps { escrow: bump }),
        },
    }
}

/// The creation of the escrow account.
pub open spec fn escrow_creation(a: Make, program_id: Seq<u8>, seed: u64, bump: u8) -> CreatePdaAccountView {
    CreatePdaAccountView {
        payer: a.maker.key@,
        account: a.escrow.key@,
        space: ESCROW_SPACE,
        owner: program_id,
        signer_seeds: with_bump(escrow_seeds(a.maker.key@, seed), bump),
    }
}

/// The creation of the vault: the maker's associated token account for
/// `mint_x`, paid by the maker.
pub open spec fn vault_creation(a: Make) -> CreateAssociatedTokenAccountView {
    associated_token_creation(a.maker.key@, a.vault.key@, a.maker.key@, a.mint_x.account.key@, a.token_program.key@)
}

/// The record that `init_escrow` writes.
pub open spec fn escrow_record(a: Make, seed: u64, receive: u64, bumps: MakeBumps) -> Escrow {
    Escrow {
        seed,
        maker: a.maker.key,
        mint_x: a.mint_x.account.key,
        mint_y: a.mint_y.account.key,
        receive,
        bump: bumps.escrow,
    }
}

/// The transfer of `deposit`: `amount` of `mint_x` from the maker's account
/// into the vault, authorised by the maker.
pub open spec fn make_deposit_transfer(a: Make, amount: u64) -> TokenTransferView {
    TokenTransferView {
        token_program: a.token_program.key@,
        from: a.maker_ata_x.account.key@,
        mint: a.mint_x.account.key@,
        to: a.vault.key@,
        authority: a.maker.key@,
        amount,
        decimals: a.mint_x.decimals,
        signer_seeds: None,
    }
}

impl Make {
    /// The checks of `Make` for `seed` made before the escrow and the vault
    /// are created.
    pub fn try_init_accounts(&self, program_id: &Address, ids: &ProgramIds, seed: u64) -> (r: Result<u8, ConstraintError>)
        ensures
            r == make_init_checks(*self, program_id@, *ids, seed),
    {
        check_program(&self.system_program, &ids.system_program)?;
        check_interface(&self.token_program, ids)?;
        check_program(&self.associated_token_program, &ids.associated_token_program)?;
        check_signer(&self.maker)?;
        check_token_owned(&self.mint_x.account, ids)?;
        check_token_owned(&self.mint_y.account, ids)?;
        check_token_owned(&self.maker_ata_x.account, ids)?;
        let seeds = escrow_seeds_of(&self.maker.key, seed);
        check_canonical_pda(&seeds, program_id, &self.escrow.key)
    }

    /// The checks of `Make` made once the escrow and the vault are created.
    pub fn try_access_accounts(&self, ids: &ProgramIds) -> (r: Result<(), ConstraintError>)
        ensures
            r == make_access_checks(*self, *ids),
    {
        check_mut(&self.maker)?;
        check_mint_program(&self.mint_x, &self.token_program.key)?;
        check_mint_program(&self.mint_y, &self.token_program.key)?;
        check_associated_token(
            &self.maker_ata_x,
            &self.maker.key,
            &self.mint_x.account.key,
            &self.token_program.key,
            &ids.associated_token_program,
        )?;
        check_mut(&self.maker_ata_x.account)
    }

    /// All the account checks of `Make` for `seed`, in order.
    pub fn try_accounts(&self, program_id: &Address, ids: &ProgramIds, seed: u64) -> (r: Result<MakeBumps, ConstraintError>)
        ensures
            r == make_checks(*self, program_id@, *ids, seed),
    {
        let bump = self.try_init_accounts(program_id, ids, seed)?;
        self.try_access_accounts(ids)?;
        Ok(MakeBumps { escrow: bump })
    }

    /// The escrow account to be created.
    pub fn escrow_creation(&self, program_id: &Address, seed: u64, bumps: &MakeBumps) -> (c: CreatePdaAccount)
        ensures
            c@ == escrow_creation(*self, program_id@, seed, bumps.escrow),
    {
        CreatePdaAccount {
            payer: self.maker.key,
            account: self.escrow.key,
            space: ESCROW_SPACE,
            owner: *program_id,
            signer_seeds: push_bump(&escrow_seeds_of(&self.maker.key, seed), bumps.escrow),
        }
    }

    /// The vault to be created.
    pub fn vault_creation(&self) -> (c: CreateAssociatedTokenAccount)
        ensures
            c@ == vault_creation(*self),
    {
        CreateAssociatedTokenAccount {
            payer: self.maker.key,
            associated: self.vault.key,
            authority: self.maker.key,
            mint: self.mint_x.account.key,
            token_program: self.token_program.key,
        }
    }

    /// The escrow record: the seed, the maker, both mints, the amount of
    /// `mint_y` asked for and the escrow's bump.
    pub fn init_escrow(&self, seed: u64, receive: u64, bumps: &MakeBumps) -> (e: Escrow)
        ensures
            e == escrow_record(*self, seed, receive, *bumps),
    {
        Escrow {
            seed,
            maker: self.maker.key,
            mint_x: self.mint_x.account.key,
            mint_y: self.mint_y.account.key,
            receive,
            bump: bumps.escrow,
        }
    }

    /// Moves `deposit` tokens of `mint_x` from the maker into the vault.
    pub fn deposit(&self, deposit: u64) -> (t: TokenTransfer)
        ensures
            t@ == make_deposit_transfer(*self, deposit),
    {
        TokenTransfer {
            token_program: self.token_program.key,
            from: self.maker_ata_x.account.key,
            mint: self.mint_x.account.key,
            to: self.vault.key,
            authority: self.maker.key,
            amount: deposit,
            decimals: self.mint_x.decimals,
            signer_seeds: None,
        }
    }
}

/// What `make` does once its accounts pass.
#[derive(Debug)]
pub struct MakeOutcome {
    pub bumps: MakeBumps,
    pub create_escrow: CreatePdaAccount,
    pub create_vault: CreateAssociatedTokenAccount,
    pub escrow: Escrow,
    pub transfer: TokenTransfer,
}

/// What `make` creates before its remaining checks.
#[derive(Debug)]
pub struct MakeCreations {
    pub create_escrow: CreatePdaAccount,
    pub create_vault: CreateAssociatedTokenAccount,
}

/// The first step of `make` for `seed`: the checks made before the escrow
/// and the vault are created and, when they pass, the two creations, in that
/// order.  The caller makes them before it calls `make`; where one fails,
/// the instruction fails there.
pub fn make_accounts(program_id: &Address, ids: &ProgramIds, accounts: &Make, seed: u64) -> (r: Result<
    MakeCreations,
    ConstraintError,
>)
    ensures
        match make_init_checks(*accounts, program_id@, *ids, seed) {
            Err(e) => r == Err::<MakeCreations, ConstraintError>(e),
            Ok(b) => r matches Ok(c) && {
                &&& c.create_escrow@ == escrow_creation(*accounts, program_id@, seed, b)
                &&& c.create_vault@ == vault_creation(*accounts)
            },
        },
{
    let bump = accounts.try_init_accounts(program_id, ids, seed)?;
    let create_escrow = accounts.escrow_creation(program_id, seed, &MakeBumps { escrow: bump });
    let create_vault = accounts.vault_creation();
    Ok(MakeCreations { create_escrow, create_vault })
}

/// The `make` instruction: checks the accounts for `seed`, creates the escrow
/// and the vault, records the escrow and deposits `deposit` tokens.  The
/// creations are made by the caller after `make_accounts`; the checks made
/// before them depend on nothing that they change and are repeated here.
pub fn make(program_id: &Address, ids: &ProgramIds, accounts: &Make, seed: u64, deposit: u64, receive: u64) -> (r: Result<
    MakeOutcome,
    ConstraintError,
>)
    ensures
        match make_checks(*accounts, program_id@, *ids, seed) {
            Err(e) => r == Err::<MakeOutcome, ConstraintError>(e),
            Ok(b) => r matches Ok(o) && {
                &&& o.bumps == b
                &&& o.create_escrow@ == escrow_creation(*accounts, program_id@, seed, b.escrow)
                &&& o.create_vault@ == vault_creation(*accounts)
                &&& o.escrow == escrow_record(*accounts, seed, receive, b)
                &&& o.transfer@ == make_deposit_transfer(*accounts, deposit)
            },
        },
{
    let bumps = accounts.try_accounts(program_id, ids, seed)?;
    let create_escrow = accounts.escrow_creation(program_id, seed, &bumps);
    let create_vault = accounts.vault_creation();
    let escrow = accounts.init_escrow(seed, receive, &bumps);
    let transfer = accounts.deposit(deposit);
    Ok(MakeOutcome { bumps, create_escrow, create_vault, escrow, transfer })
}

} // verus!
