//! `take`: the taker pays the maker and receives the escrowed tokens.
use vstd::prelude::*;
use crate::pda::Address;
use crate::accounts::{
    AccountSnapshot, ProgramIds, then_check, program_check, check_program, interface_check, check_interface,
    signer_check, check_signer, token_owned_check, check_token_owned, program_account_check,
    check_program_account, system_account_check, check_system_account, MintSnapshot, TokenAccountSnapshot, MaybeTokenAccount, ConstraintError,
    TokenTransfer, TokenTransferView, CreateAssociatedTokenAccount, CreateAssociatedTokenAccountView,
    mut_check, check_mut, mint_program_check, check_mint_program, associated_token_check,
    check_associated_token, init_if_needed_associated_token_check, check_init_if_needed_associated_token,
    creation_view,
};
use crate::escrow::state::EscrowAccount;
use crate::escrow::refund::{escrow_account_check, check_escrow_account};

verus! {

/// The accounts of `take`.
#[derive(Clone, Copy, Debug)]
pub struct Take {
    pub system_program: AccountSnapshot,
    pub associated_token_program: AccountSnapshot,
    pub token_program: AccountSnapshot,
    pub taker: AccountSnapshot,
    pub maker: AccountSnapshot,
    pub mint_x: MintSnapshot,
    pub mint_y: MintSnapshot,
    pub maker_ata_x: TokenAccountSnapshot,
    /// Created if needed as the taker's associated token account for `mint_x`.
    pub taker_ata_x: MaybeTokenAccount,
    /// Created if needed as the maker's associated token account for `mint_y`.
    pub maker_ata_y: MaybeTokenAccount,
    pub taker_ata_y: TokenAccountSnapshot,
    pub escrow: EscrowAccount,
    pub vault: TokenAccountSnapshot,
}

/// The accounts that `take` has to create first.
#[derive(Clone, Copy, Debug)]
pub struct TakeCreations {
    pub taker_ata_x: Option<CreateAssociatedTokenAccount>,
    pub maker_ata_y: Option<CreateAssociatedTokenAccount>,
}

pub open spec fn option_creation_view(c: Option<CreateAssociatedTokenAccount>) -> Option<CreateAssociatedTokenAccountView> {
    match c {
        Some(v) => Some(v@),
        None => None,
    }
}

pub struct TakeCreationsView {
    pub taker_ata_x: Option<CreateAssociatedTokenAccountView>,
    pub maker_ata_y: Option<CreateAssociatedTokenAccountView>,
}

impl View for TakeCreations {
    type V = TakeCreationsView;

    open spec fn view(&self) -> TakeCreationsView {
        TakeCreationsView {
            taker_ata_x: option_creation_view(self.taker_ata_x),
            maker_ata_y: option_creation_view(self.maker_ata_y),
        }
    }
}

/// The account types of `Take`: the system program, the associated token
/// program, a token program, a signing taker, a maker owned by the system
/// program, mints and token accounts owned by a token program, an escrow
/// owned by the program.
pub open spec fn take_type_checks(a: Take, program_id: Seq<u8>, ids: ProgramIds) -> Result<(), ConstraintError> {
    then_check(
        program_check(a.system_program, ids.system_program@),
        then_check(
            program_check(a.associated_token_program, ids.associated_token_program@),
            then_check(
                interface_check(a.token_program, ids),
                then_check(
                    signer_check(a.taker),
                    then_check(
                        system_account_check(a.maker, ids),
                        then_check(
                            token_owned_check(a.mint_x.account, ids),
                            then_check(
                                token_owned_check(a.mint_y.account, ids),
                                then_check(
                                    token_owned_check(a.maker_ata_x.account, ids),
                                    then_check(
                                        token_owned_check(a.taker_ata_y.account, ids),
                                        then_check(
                                            program_account_check(a.escrow.account, ids, program_id),
                                            token_owned_check(a.vault.account, ids),
                                        ),
                                    ),
                                ),
                            ),
                        ),
                    ),
                ),
            ),
        ),
    )
}

fn check_take_types(a: &Take, program_id: &Address, ids: &ProgramIds) -> (r: Result<(), ConstraintError>)
    ensures
        r == take_type_checks(*a, program_id@, *ids),
{
    check_program(&a.system_program, &ids.system_program)?;
    check_program(&a.associated_token_program, &ids.associated_token_program)?;
    check_interface(&a.token_program, ids)?;
    check_signer(&a.taker)?;
    check_system_account(&a.maker, ids)?;
    check_token_owned(&a.mint_x.account, ids)?;
    check_token_owned(&a.mint_y.account, ids)?;
    check_token_owned(&a.maker_ata_x.account, ids)?;
    check_token_owned(&a.taker_ata_y.account, ids)?;
    check_program_account(&a.escrow.account, ids, program_id)?;
    check_token_owned(&a.vault.account, ids)
}

/// The checks of `Take` made before the taker's `mint_x` account is created:
/// the account types, then that account is to be created where still owned
/// by the system program, and otherwise checked as the writable, rent-exempt
/// associated token account of the taker for `mint_x`.
pub open spec fn take_taker_ata_x_checks(a: Take, program_id: Seq<u8>, ids: ProgramIds) -> Result<
    Option<CreateAssociatedTokenAccountView>,
    ConstraintError,
> {
    match take_type_checks(a, program_id, ids) {
        Err(e) => Err(e),
        Ok(_) => init_if_needed_associated_token_check(
            a.taker_ata_x,
            a.taker.key@,
            a.taker.key@,
            a.mint_x.account.key@,
            a.token_program.key@,
            ids,
        ),
    }
}

/// The checks of `Take` made before the maker's `mint_y` account is created
/// (and after the taker's `mint_x` account is): the maker's `mint_y` account
/// is to be created, paid by the taker, where still owned by the system
/// program, and otherwise checked as the writable, rent-exempt associated
/// token account of the maker for `mint_y`.
pub open spec fn take_maker_ata_y_checks(a: Take, ids: ProgramIds) -> Result<
    Option<CreateAssociatedTokenAccountView>,
    ConstraintError,
> {
    init_if_needed_associated_token_check(
        a.maker_ata_y,
        a.taker.key@,
        a.maker.key@,
        a.mint_y.account.key@,
        a.token_program.key@,
        ids,
    )
}

/// The checks of `Take` for `seed`, in the order in which they are made:
/// those before the taker's `mint_x` account is created, those before the
/// maker's `mint_y` account is created, then those on the accounts that
/// already exist: the taker is writable; both mints belong to the token
/// program; the maker's `mint_x` account and the `taker_ata_y` account are
/// both the maker's associated token account for `mint_x`, and writable; the
/// escrow is at `["escrow", maker, seed]` with its recorded bump; the vault
/// is the escrow's associated token account for `mint_x`.
pub open spec fn take_checks(a: Take, program_id: Seq<u8>, ids: ProgramIds, seed: u64) -> Result<
    TakeCreationsView,
    ConstraintError,
> {
    match take_taker_ata_x_checks(a, program_id, ids) {
        Err(e) => Err(e),
        Ok(create_taker_x) => match take_maker_ata_y_checks(a, ids) {
            Err(e) => Err(e),
            Ok(create_maker_y) => match take_access_checks(a, program_id, ids, seed) {
                Err(e) => Err(e),
                Ok(_) => Ok(TakeCreationsView { taker_ata_x: create_taker_x, maker_ata_y: create_maker_y }),
            },
        },
    }
}

/// The constraints of `Take` on the accounts that already exist.
pub open spec fn take_access_checks(a: Take, program_id: Seq<u8>, ids: ProgramIds, seed: u64) -> Result<(), ConstraintError> {
    match mut_check(a.taker) {
        Err(e) => Err(e),
        Ok(_) => match mint_program_check(a.mint_x, a.token_program.key@) {
            Err(e) => Err(e),
            Ok(_) => match mint_program_check(a.mint_y, a.token_program.key@) {
                Err(e) => Err(e),
                Ok(_) => match associated_token_check(
                    a.maker_ata_x,
                    a.maker.key@,
                    a.mint_x.account.key@,
                    a.token_program.key@,
                    ids.associated_token_program@,
                ) {
                    Err(e) => Err(e),
                    Ok(_) => match mut_check(a.maker_ata_x.account) {
                        Err(e) => Err(e),
                        Ok(_) => match associated_token_check(
                            a.taker_ata_y,
                            a.maker.key@,
                            a.mint_x.account.key@,
                            a.token_program.key@,
                            ids.associated_token_program@,
                        ) {
                            Err(e) => Err(e),
                            Ok(_) => match mut_check(a.taker_ata_y.account) {
                                Err(e) => Err(e),
                                Ok(_) => match escrow_account_check(a.maker.key@, seed, a.escrow, program_id) {
                                    Err(e) => Err(e),
                                    Ok(_) => associated_token_check(
                                        a.vault,
                                        a.escrow.account.key@,
                                        a.mint_x.account.key@,
                                        a.token_program.key@,
                                        ids.associated_token_program@,
                                    ),
                                },
                            },
                        },
                    },
                },
            },
        },
    }
}

/// The first transfer of `take`: the escrow's `receive` amount of `mint_y`
/// from `taker_ata_y` to the maker's `mint_y` account, authorised by the
/// taker.
pub open spec fn take_payment(a: Take) -> TokenTransferView {
    TokenTransferView {
        token_program: a.token_program.key@,
        from: a.taker_ata_y.account.key@,
        mint: a.mint_y.account.key@,
        to: a.maker_ata_y.account.key@,
        authority: a.taker.key@,
        amount: a.escrow.data.receive,
        decimals: a.mint_y.decimals,
        signer_seeds: None,
    }
}

/// The second transfer of `take`: from the vault to the taker's `mint_x`
/// account, authorised by the escrow without signer seeds; the amount is the
/// vault's lamport balance, with the decimals of `mint_x`.
pub open spec fn take_release(a: Take) -> TokenTransferView {
    TokenTransferView {
        token_program: a.token_program.key@,
        from: a.vault.account.key@,
        mint: a.mint_x.account.key@,
        to: a.taker_ata_x.account.key@,
        authority: a.escrow.account.key@,
        amount: a.vault.account.lamports,
        decimals: a.mint_x.decimals,
        signer_seeds: None,
    }
}

fn check_take_access(a: &Take, program_id: &Address, ids: &ProgramIds, seed: u64) -> (r: Result<(), ConstraintError>)
    ensures
        r == take_access_checks(*a, program_id@, *ids, seed),
{
    check_mut(&a.taker)?;
    check_mint_program(&a.mint_x, &a.token_program.key)?;
    check_mint_program(&a.mint_y, &a.token_program.key)?;
    check_associated_token(
        &a.maker_ata_x,
        &a.maker.key,
        &a.mint_x.account.key,
        &a.token_program.key,
        &ids.associated_token_program,
    )?;
    check_mut(&a.maker_ata_x.account)?;
    check_associated_token(
        &a.taker_ata_y,
        &a.maker.key,
        &a.mint_x.account.key,
        &a.token_program.key,
        &ids.associated_token_program,
    )?;
    check_mut(&a.taker_ata_y.account)?;
    check_escrow_account(&a.maker.key, seed, &a.escrow, program_id)?;
    check_associated_token(
        &a.vault,
        &a.escrow.account.key,
        &a.mint_x.account.key,
        &a.token_program.key,
        &ids.associated_token_program,
    )
}

impl Take {
    /// The checks of `Take` made before the taker's `mint_x` account is
    /// created, and that creation where it is needed.
    pub fn try_taker_ata_x(&self, program_id: &Address, ids: &ProgramIds) -> (r: Result<
        Option<CreateAssociatedTokenAccount>,
        ConstraintError,
    >)
        ensures
            creation_view(r) == take_taker_ata_x_checks(*self, program_id@, *ids),
    {
        match check_take_types(self, program_id, ids) {
            Err(e) => { return Err(e); },
            Ok(_) => {},
        }
        check_init_if_needed_associated_token(
            &self.taker_ata_x,
            &self.taker.key,
            &self.taker.key,
            &self.mint_x.account.key,
            &self.token_program.key,
            ids,
        )
    }

    /// The checks of `Take` made before the maker's `mint_y` account is
    /// created, and that creation where it is needed.
    pub fn try_maker_ata_y(&self, ids: &ProgramIds) -> (r: Result<Option<CreateAssociatedTokenAccount>, ConstraintError>)
        ensures
            creation_view(r) == take_maker_ata_y_checks(*self, *ids),
    {
        check_init_if_needed_associated_token(
            &self.maker_ata_y,
            &self.taker.key,
            &self.maker.key,
            &self.mint_y.account.key,
            &self.token_program.key,
            ids,
        )
    }

    /// All the account checks of `Take` for `seed`, in order, and the
    /// accounts to be created on the way.
    pub fn try_accounts(&self, program_id: &Address, ids: &ProgramIds, seed: u64) -> (r: Result<TakeCreations, ConstraintError>)
        ensures
            match r {
                Ok(c) => take_checks(*self, program_id@, *ids, seed) == Ok::<TakeCreationsView, ConstraintError>(c@),
                Err(e) => take_checks(*self, program_id@, *ids, seed) == Err::<TakeCreationsView, ConstraintError>(e),
            },
    {
        let taker_ata_x = match self.try_taker_ata_x(program_id, ids) {
            Err(e) => { return Err(e); },
            Ok(c) => c,
        };
        let maker_ata_y = match self.try_maker_ata_y(ids) {
            Err(e) => { return Err(e); },
            Ok(c) => c,
        };
        check_take_access(self, program_id, ids, seed)?;
        Ok(TakeCreations { taker_ata_x, maker_ata_y })
    }

    /// Pays the maker the escrow's `receive` amount of `mint_y`, then moves
    /// the vault's tokens to the taker.
    pub fn take(&self) -> (r: (TokenTransfer, TokenTransfer))
        ensures
            r.0@ == take_payment(*self),
            r.1@ == take_release(*self),
    {
        let pay = TokenTransfer {
            token_program: self.token_program.key,
            from: self.taker_ata_y.account.key,
            mint: self.mint_y.account.key,
            to: self.maker_ata_y.account.key,
            authority: self.taker.key,
            amount: self.escrow.data.receive,
            decimals: self.mint_y.decimals,
            signer_seeds: None,
        };
        let release = TokenTransfer {
            token_program: self.token_program.key,
            from: self.vault.account.key,
            mint: self.mint_x.account.key,
            to: self.taker_ata_x.account.key,
            authority: self.escrow.account.key,
            amount: self.vault.account.lamports,
            decimals: self.mint_x.decimals,
            signer_seeds: None,
        };
        (pay, release)
    }
}

/// What `take` does once its accounts pass: the creations, then the payment,
/// then the release.
#[derive(Debug)]
pub struct TakeOutcome {
    pub creations: TakeCreations,
    pub payment: TokenTransfer,
    pub release: TokenTransfer,
}

/// The `take` instruction, for the escrow of `seed`.  The caller first
/// makes the steps `Take::try_taker_ata_x` and `Take::try_maker_ata_y`,
/// each followed by the creation it names, and reads the accounts again
/// after each creation; on the accounts as they then stand, `take` repeats
/// those checks (a created account is checked as an existing one, as the
/// framework does after creating it) and makes the rest.
pub fn take(program_id: &Address, ids: &ProgramIds, accounts: &Take, seed: u64) -> (r: Result<TakeOutcome, ConstraintError>)
    ensures
        match take_checks(*accounts, program_id@, *ids, seed) {
            Err(e) => r == Err::<TakeOutcome, ConstraintError>(e),
            Ok(c) => r matches Ok(o) && {
                &&& o.creations@ == c
                &&& o.payment@ == take_payment(*accounts)
                &&& o.release@ == take_release(*accounts)
            },
        },
{
    let creations = accounts.try_accounts(program_id, ids, seed)?;
    let (payment, release) = accounts.take();
    Ok(TakeOutcome { creations, payment, release })
}

} // verus!
