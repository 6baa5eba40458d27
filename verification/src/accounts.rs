//! What the instructions read of their accounts, the errors of their account
//! checks, the cross-program calls they ask for, and the account-type checks
//! and constraints that both programs share.  Decoding account data is left
//! to the caller, which hands the decoded records in.
use vstd::prelude::*;
use crate::pda::{
    Address, created_program_address, has_canonical_pda, canonical_pda, the_canonical_pda, with_bump,
    lemma_canonical_pda_chosen, lemma_no_viable_bump, no_viable_bump, try_find_program_address,
    create_program_address, same_address, address_seed, push_bump, seed_list3,
};

verus! {

/// The fields of an account that the checks read.
#[derive(Clone, Copy, Debug)]
pub struct AccountSnapshot {
    pub key: Address,
    /// The program that owns the account.
    pub owner: Address,
    pub lamports: u64,
    pub is_signer: bool,
    pub is_writable: bool,
    pub executable: bool,
}

/// The ids of the programs that the instructions call.
#[derive(Clone, Copy, Debug)]
pub struct ProgramIds {
    pub system_program: Address,
    pub token_program: Address,
    pub token_2022_program: Address,
    pub associated_token_program: Address,
}

/// The decoded contents of a token account.
#[derive(Clone, Copy, Debug)]
pub struct TokenAccountData {
    pub mint: Address,
    /// The wallet that the tokens belong to (the token account's `owner` field).
    pub authority: Address,
}

/// A token account that must already exist.
#[derive(Clone, Copy, Debug)]
pub struct TokenAccountSnapshot {
    pub account: AccountSnapshot,
    pub data: TokenAccountData,
}

/// A token account that may still have to be created; `data` is `None` where
/// the account does not decode as a token account.
#[derive(Clone, Copy, Debug)]
pub struct MaybeTokenAccount {
    pub account: AccountSnapshot,
    pub data: Option<TokenAccountData>,
    /// Whether the account's lamports reach the rent-exempt minimum for its
    /// data length, as the caller reads it from the rent sysvar.
    pub rent_exempt: bool,
}

/// A mint.
#[derive(Clone, Copy, Debug)]
pub struct MintSnapshot {
    pub account: AccountSnapshot,
    pub decimals: u8,
}

/// The failures of the account checks, named as the framework's error codes
/// name them.
#[derive(PartialEq, Eq, Structural, Clone, Copy, Debug)]
pub enum ConstraintError {
    InvalidProgramId,
    InvalidProgramExecutable,
    AccountNotSigner,
    AccountNotSystemOwned,
    AccountNotInitialized,
    AccountOwnedByWrongProgram,
    ConstraintMut,
    ConstraintRentExempt,
    ConstraintSeeds,
    ConstraintClose,
    ConstraintTokenMint,
    ConstraintTokenOwner,
    ConstraintAssociated,
    ConstraintMintTokenProgram,
    ConstraintAssociatedTokenTokenProgram,
    AccountNotAssociatedTokenAccount,
    AccountDidNotDeserialize,
    /// No bump from 255 down to 1 gives a program address for the seeds.
    NoViableBump,
}

/// A transfer of lamports through the system program.
#[derive(Debug)]
pub struct SystemTransfer {
    pub from: Address,
    pub to: Address,
    pub lamports: u64,
    /// The seeds with which the program signs for `from`, if it does.
    pub signer_seeds: Option<Vec<Vec<u8>>>,
}

/// A `transfer_checked` through a token program.
#[derive(Debug)]
pub struct TokenTransfer {
    pub token_program: Address,
    pub from: Address,
    pub mint: Address,
    pub to: Address,
    pub authority: Address,
    pub amount: u64,
    pub decimals: u8,
    /// The seeds with which the program signs for `authority`, if it does.
    pub signer_seeds: Option<Vec<Vec<u8>>>,
}

/// The creation of a program-owned account at a PDA.
#[derive(Debug)]
pub struct CreatePdaAccount {
    pub payer: Address,
    pub account: Address,
    pub space: u64,
    pub owner: Address,
    pub signer_seeds: Vec<Vec<u8>>,
}

/// The creation of an associated token account.
#[derive(Clone, Copy, Debug)]
pub struct CreateAssociatedTokenAccount {
    pub payer: Address,
    pub associated: Address,
    pub authority: Address,
    pub mint: Address,
    pub token_program: Address,
}

/// Closing an account at the end of an instruction: its lamports go to
/// `destination` and its data is cleared.
#[derive(Clone, Copy, Debug)]
pub struct CloseAccount {
    pub account: Address,
    pub destination: Address,
}

pub struct SystemTransferView {
    pub from: Seq<u8>,
    pub to: Seq<u8>,
    pub lamports: u64,
    pub signer_seeds: Option<Seq<Seq<u8>>>,
}

pub struct TokenTransferView {
    pub token_program: Seq<u8>,
    pub from: Seq<u8>,
    pub mint: Seq<u8>,
    pub to: Seq<u8>,
    pub authority: Seq<u8>,
    pub amount: u64,
    pub decimals: u8,
    pub signer_seeds: Option<Seq<Seq<u8>>>,
}

pub struct CreatePdaAccountView {
    pub payer: Seq<u8>,
    pub account: Seq<u8>,
    pub space: u64,
    pub owner: Seq<u8>,
    pub signer_seeds: Seq<Seq<u8>>,
}

pub struct CreateAssociatedTokenAccountView {
    pub payer: Seq<u8>,
    pub associated: Seq<u8>,
    pub authority: Seq<u8>,
    pub mint: Seq<u8>,
    pub token_program: Seq<u8>,
}

pub open spec fn seeds_view(s: Option<Vec<Vec<u8>>>) -> Option<Seq<Seq<u8>>> {
    match s {
        Some(v) => Some(v.deep_view()),
        None => None,
    }
}

impl View for SystemTransfer {
    type V = SystemTransferView;

    open spec fn view(&self) -> SystemTransferView {
        SystemTransferView {
            from: self.from@,
            to: self.to@,
            lamports: self.lamports,
            signer_seeds: seeds_view(self.signer_seeds),
        }
    }
}

impl View for TokenTransfer {
    type V = TokenTransferView;

    open spec fn view(&self) -> TokenTransferView {
        TokenTransferView {
            token_program: self.token_program@,
            from: self.from@,
            mint: self.mint@,
            to: self.to@,
            authority: self.authority@,
            amount: self.amount,
            decimals: self.decimals,
            signer_seeds: seeds_view(self.signer_seeds),
        }
    }
}

impl View for CreatePdaAccount {
    type V = CreatePdaAccountView;

    open spec fn view(&self) -> CreatePdaAccountView {
        CreatePdaAccountView {
            payer: self.payer@,
            account: self.account@,
            space: self.space,
            owner: self.owner@,
            signer_seeds: self.signer_seeds.deep_view(),
        }
    }
}

impl View for CreateAssociatedTokenAccount {
    type V = CreateAssociatedTokenAccountView;

    open spec fn view(&self) -> CreateAssociatedTokenAccountView {
        CreateAssociatedTokenAccountView {
            payer: self.payer@,
            associated: self.associated@,
            authority: self.authority@,
            mint: self.mint@,
            token_program: self.token_program@,
        }
    }
}

/// The first error of two checks made in turn.
pub open spec fn then_check(first: Result<(), ConstraintError>, second: Result<(), ConstraintError>) -> Result<
    (),
    ConstraintError,
> {
    match first {
        Err(e) => Err(e),
        Ok(_) => second,
    }
}

/// A program account (`Program<T>`): the given program, executable.
pub open spec fn program_check(a: AccountSnapshot, id: Seq<u8>) -> Result<(), ConstraintError> {
    if a.key@ != id {
        Err(ConstraintError::InvalidProgramId)
    } else if !a.executable {
        Err(ConstraintError::InvalidProgramExecutable)
    } else {
        Ok(())
    }
}

pub fn check_program(a: &AccountSnapshot, id: &Address) -> (r: Result<(), ConstraintError>)
    ensures
        r == program_check(*a, id@),
{
    if !same_address(&a.key, id) {
        Err(ConstraintError::InvalidProgramId)
    } else if !a.executable {
        Err(ConstraintError::InvalidProgramExecutable)
    } else {
        Ok(())
    }
}

/// One of the two token programs.
pub open spec fn is_token_program(ids: ProgramIds, key: Seq<u8>) -> bool {
    key == ids.token_program@ || key == ids.token_2022_program@
}

fn token_program_key(ids: &ProgramIds, key: &Address) -> (r: bool)
    ensures
        r == is_token_program(*ids, key@),
{
    same_address(key, &ids.token_program) || same_address(key, &ids.token_2022_program)
}

/// The token interface (`Interface<TokenInterface>`): either token program,
/// executable.
pub open spec fn interface_check(a: AccountSnapshot, ids: ProgramIds) -> Result<(), ConstraintError> {
    if !is_token_program(ids, a.key@) {
        Err(ConstraintError::InvalidProgramId)
    } else if !a.executable {
        Err(ConstraintError::InvalidProgramExecutable)
    } else {
        Ok(())
    }
}

pub fn check_interface(a: &AccountSnapshot, ids: &ProgramIds) -> (r: Result<(), ConstraintError>)
    ensures
        r == interface_check(*a, *ids),
{
    if !token_program_key(ids, &a.key) {
        Err(ConstraintError::InvalidProgramId)
    } else if !a.executable {
        Err(ConstraintError::InvalidProgramExecutable)
    } else {
        Ok(())
    }
}

/// A signer (`Signer`).
pub open spec fn signer_check(a: AccountSnapshot) -> Result<(), ConstraintError> {
    if a.is_signer {
        Ok(())
    } else {
        Err(ConstraintError::AccountNotSigner)
    }
}

pub fn check_signer(a: &AccountSnapshot) -> (r: Result<(), ConstraintError>)
    ensures
        r == signer_check(*a),
{
    if a.is_signer {
        Ok(())
    } else {
        Err(ConstraintError::AccountNotSigner)
    }
}

/// An account of the system program (`SystemAccount`).
pub open spec fn system_account_check(a: AccountSnapshot, ids: ProgramIds) -> Result<(), ConstraintError> {
    if a.owner@ == ids.system_program@ {
        Ok(())
    } else {
        Err(ConstraintError::AccountNotSystemOwned)
    }
}

pub fn check_system_account(a: &AccountSnapshot, ids: &ProgramIds) -> (r: Result<(), ConstraintError>)
    ensures
        r == system_account_check(*a, *ids),
{
    if same_address(&a.owner, &ids.system_program) {
        Ok(())
    } else {
        Err(ConstraintError::AccountNotSystemOwned)
    }
}

/// A record of a program (`Account<T>`): initialised, and owned by the
/// program.
pub open spec fn program_account_check(a: AccountSnapshot, ids: ProgramIds, owner: Seq<u8>) -> Result<(), ConstraintError> {
    if a.owner@ == ids.system_program@ && a.lamports == 0 {
        Err(ConstraintError::AccountNotInitialized)
    } else if a.owner@ != owner {
        Err(ConstraintError::AccountOwnedByWrongProgram)
    } else {
        Ok(())
    }
}

pub fn check_program_account(a: &AccountSnapshot, ids: &ProgramIds, owner: &Address) -> (r: Result<(), ConstraintError>)
    ensures
        r == program_account_check(*a, *ids, owner@),
{
    if same_address(&a.owner, &ids.system_program) && a.lamports == 0 {
        Err(ConstraintError::AccountNotInitialized)
    } else if !same_address(&a.owner, owner) {
        Err(ConstraintError::AccountOwnedByWrongProgram)
    } else {
        Ok(())
    }
}

/// A mint or token account (`InterfaceAccount<T>`): initialised, and owned
/// by either token program.
pub open spec fn token_owned_check(a: AccountSnapshot, ids: ProgramIds) -> Result<(), ConstraintError> {
    if a.owner@ == ids.system_program@ && a.lamports == 0 {
        Err(ConstraintError::AccountNotInitialized)
    } else if !is_token_program(ids, a.owner@) {
        Err(ConstraintError::AccountOwnedByWrongProgram)
    } else {
        Ok(())
    }
}

pub fn check_token_owned(a: &AccountSnapshot, ids: &ProgramIds) -> (r: Result<(), ConstraintError>)
    ensures
        r == token_owned_check(*a, *ids),
{
    if same_address(&a.owner, &ids.system_program) && a.lamports == 0 {
        Err(ConstraintError::AccountNotInitialized)
    } else if !token_program_key(ids, &a.owner) {
        Err(ConstraintError::AccountOwnedByWrongProgram)
    } else {
        Ok(())
    }
}

/// `mut`: the account must be writable.
pub open spec fn mut_check(a: AccountSnapshot) -> Result<(), ConstraintError> {
    if a.is_writable {
        Ok(())
    } else {
        Err(ConstraintError::ConstraintMut)
    }
}

pub fn check_mut(a: &AccountSnapshot) -> (r: Result<(), ConstraintError>)
    ensures
        r == mut_check(*a),
{
    if a.is_writable {
        Ok(())
    } else {
        Err(ConstraintError::ConstraintMut)
    }
}

/// `seeds = ..., bump` on an account that already exists: the account is the
/// canonical PDA of the seeds, whose bump is returned.
pub open spec fn canonical_pda_check(seeds: Seq<Seq<u8>>, program_id: Seq<u8>, key: Seq<u8>) -> Result<u8, ConstraintError> {
    if !has_canonical_pda(seeds, program_id) {
        Err(ConstraintError::NoViableBump)
    } else if the_canonical_pda(seeds, program_id).0 != key {
        Err(ConstraintError::ConstraintSeeds)
    } else {
        Ok(the_canonical_pda(seeds, program_id).1)
    }
}

pub fn check_canonical_pda(seeds: &Vec<Vec<u8>>, program_id: &Address, key: &Address) -> (r: Result<u8, ConstraintError>)
    ensures
        r == canonical_pda_check(seeds.deep_view(), program_id@, key@),
{
    match try_find_program_address(seeds, program_id) {
        Some((k, b)) => {
            proof {
                lemma_canonical_pda_chosen(seeds.deep_view(), program_id@, k@, b);
            }
            if same_address(&k, key) {
                Ok(b)
            } else {
                Err(ConstraintError::ConstraintSeeds)
            }
        },
        None => {
            proof {
                lemma_no_viable_bump(seeds.deep_view(), program_id@);
            }
            Err(ConstraintError::NoViableBump)
        },
    }
}

/// The bump that the canonical check finds re-creates the checked address.
pub proof fn lemma_canonical_bump_recreates(seeds: Seq<Seq<u8>>, program_id: Seq<u8>, key: Seq<u8>)
    requires
        canonical_pda_check(seeds, program_id, key) is Ok,
    ensures
        bump_check(seeds, canonical_pda_check(seeds, program_id, key)->Ok_0, program_id, key) is Ok,
{
    let (k, b) = the_canonical_pda(seeds, program_id);
    assert(canonical_pda(seeds, program_id, k, b));
    assert(created_program_address(with_bump(seeds, b), program_id) == Some(key));
}

/// `seeds = ..., bump = b`: the seeds with the bump `b` create the account's
/// address.
pub open spec fn bump_check(seeds: Seq<Seq<u8>>, bump: u8, program_id: Seq<u8>, key: Seq<u8>) -> Result<(), ConstraintError> {
    if created_program_address(with_bump(seeds, bump), program_id) == Some(key) {
        Ok(())
    } else {
        Err(ConstraintError::ConstraintSeeds)
    }
}

pub fn check_bump(seeds: &Vec<Vec<u8>>, bump: u8, program_id: &Address, key: &Address) -> (r: Result<(), ConstraintError>)
    ensures
        r == bump_check(seeds.deep_view(), bump, program_id@, key@),
{
    let with = push_bump(seeds, bump);
    match create_program_address(&with, program_id) {
        Some(k) => {
            if same_address(&k, key) {
                Ok(())
            } else {
                Err(ConstraintError::ConstraintSeeds)
            }
        },
        None => Err(ConstraintError::ConstraintSeeds),
    }
}

/// The seeds of an associated token account: wallet, token program, mint.
pub open spec fn associated_token_seeds(wallet: Seq<u8>, mint: Seq<u8>, token_program: Seq<u8>) -> Seq<Seq<u8>> {
    seq![wallet, token_program, mint]
}

/// The associated token address of a wallet and a mint under a token
/// program, derived under the associated token program.
pub open spec fn associated_token_address_of(
    wallet: Seq<u8>,
    mint: Seq<u8>,
    token_program: Seq<u8>,
    ata_program: Seq<u8>,
) -> Option<Seq<u8>> {
    let seeds = associated_token_seeds(wallet, mint, token_program);
    if has_canonical_pda(seeds, ata_program) {
        Some(the_canonical_pda(seeds, ata_program).0)
    } else {
        None
    }
}

/// The associated token address, or `None` where no bump gives one.
pub fn associated_token_address(wallet: &Address, mint: &Address, token_program: &Address, ata_program: &Address) -> (r: Option<Address>)
    ensures
        match r {
            Some(k) => associated_token_address_of(wallet@, mint@, token_program@, ata_program@) == Some(k@),
            None => associated_token_address_of(wallet@, mint@, token_program@, ata_program@) is None,
        },
{
    let seeds = seed_list3(address_seed(wallet), address_seed(token_program), address_seed(mint));
    match try_find_program_address(&seeds, ata_program) {
        Some((k, b)) => {
            proof {
                lemma_canonical_pda_chosen(seeds.deep_view(), ata_program@, k@, b);
            }
            Some(k)
        },
        None => {
            proof {
                lemma_no_viable_bump(seeds.deep_view(), ata_program@);
            }
            None
        },
    }
}

/// `associated_token::mint = M, associated_token::authority = W,
/// associated_token::token_program = P` on an existing account: owned by P,
/// held for W, and at the associated token address of W and M.
pub open spec fn associated_token_check(
    acct: TokenAccountSnapshot,
    wallet: Seq<u8>,
    mint: Seq<u8>,
    token_program: Seq<u8>,
    ata_program: Seq<u8>,
) -> Result<(), ConstraintError> {
    if acct.account.owner@ != token_program {
        Err(ConstraintError::ConstraintAssociatedTokenTokenProgram)
    } else if acct.data.authority@ != wallet {
        Err(ConstraintError::ConstraintTokenOwner)
    } else {
        match associated_token_address_of(wallet, mint, token_program, ata_program) {
            None => Err(ConstraintError::NoViableBump),
            Some(k) => if k == acct.account.key@ {
                Ok(())
            } else {
                Err(ConstraintError::ConstraintAssociated)
            },
        }
    }
}

pub fn check_associated_token(
    acct: &TokenAccountSnapshot,
    wallet: &Address,
    mint: &Address,
    token_program: &Address,
    ata_program: &Address,
) -> (r: Result<(), ConstraintError>)
    ensures
        r == associated_token_check(*acct, wallet@, mint@, token_program@, ata_program@),
{
    if !same_address(&acct.account.owner, token_program) {
        return Err(ConstraintError::ConstraintAssociatedTokenTokenProgram);
    }
    if !same_address(&acct.data.authority, wallet) {
        return Err(ConstraintError::ConstraintTokenOwner);
    }
    match associated_token_address(wallet, mint, token_program, ata_program) {
        None => Err(ConstraintError::NoViableBump),
        Some(k) => if same_address(&k, &acct.account.key) {
            Ok(())
        } else {
            Err(ConstraintError::ConstraintAssociated)
        },
    }
}

/// `mint::token_program = P`: the mint is owned by P.
pub open spec fn mint_program_check(mint: MintSnapshot, token_program: Seq<u8>) -> Result<(), ConstraintError> {
    if mint.account.owner@ == token_program {
        Ok(())
    } else {
        Err(ConstraintError::ConstraintMintTokenProgram)
    }
}

pub fn check_mint_program(mint: &MintSnapshot, token_program: &Address) -> (r: Result<(), ConstraintError>)
    ensures
        r == mint_program_check(*mint, token_program@),
{
    if same_address(&mint.account.owner, token_program) {
        Ok(())
    } else {
        Err(ConstraintError::ConstraintMintTokenProgram)
    }
}

/// `close = D`: the closed account is not D itself.
pub open spec fn close_check(account: Seq<u8>, destination: Seq<u8>) -> Result<(), ConstraintError> {
    if account == destination {
        Err(ConstraintError::ConstraintClose)
    } else {
        Ok(())
    }
}

pub fn check_close(account: &Address, destination: &Address) -> (r: Result<(), ConstraintError>)
    ensures
        r == close_check(account@, destination@),
{
    if same_address(account, destination) {
        Err(ConstraintError::ConstraintClose)
    } else {
        Ok(())
    }
}

/// The creation of the associated token account of W and M for payer Y.
pub open spec fn associated_token_creation(
    payer: Seq<u8>,
    associated: Seq<u8>,
    wallet: Seq<u8>,
    mint: Seq<u8>,
    token_program: Seq<u8>,
) -> CreateAssociatedTokenAccountView {
    CreateAssociatedTokenAccountView { payer, associated, authority: wallet, mint, token_program }
}

/// `init_if_needed` with `associated_token::...`: an account still owned by
/// the system program is to be created; an existing one must be owned by a
/// token program, decode as a token account of M held for W, be owned by P and sit at the associated
/// token address; then, as `init` implies `mut` and rent exemption, it must
/// be writable and rent-exempt.  `Ok(None)` means that nothing is to be
/// created.
pub open spec fn init_if_needed_associated_token_check(
    acct: MaybeTokenAccount,
    payer: Seq<u8>,
    wallet: Seq<u8>,
    mint: Seq<u8>,
    token_program: Seq<u8>,
    ids: ProgramIds,
) -> Result<Option<CreateAssociatedTokenAccountView>, ConstraintError> {
    if acct.account.owner@ == ids.system_program@ {
        Ok(Some(associated_token_creation(payer, acct.account.key@, wallet, mint, token_program)))
    } else if !is_token_program(ids, acct.account.owner@) {
        Err(ConstraintError::AccountOwnedByWrongProgram)
    } else {
        match acct.data {
            None => Err(ConstraintError::AccountDidNotDeserialize),
            Some(d) => if d.mint@ != mint {
                Err(ConstraintError::ConstraintTokenMint)
            } else if d.authority@ != wallet {
                Err(ConstraintError::ConstraintTokenOwner)
            } else if acct.account.owner@ != token_program {
                Err(ConstraintError::ConstraintAssociatedTokenTokenProgram)
            } else {
                match associated_token_address_of(wallet, mint, token_program, ids.associated_token_program@) {
                    None => Err(ConstraintError::NoViableBump),
                    Some(k) => if k != acct.account.key@ {
                        Err(ConstraintError::AccountNotAssociatedTokenAccount)
                    } else if !acct.account.is_writable {
                        Err(ConstraintError::ConstraintMut)
                    } else if !acct.rent_exempt {
                        Err(ConstraintError::ConstraintRentExempt)
                    } else {
                        Ok(None)
                    },
                }
            },
        }
    }
}

pub open spec fn creation_view(r: Result<Option<CreateAssociatedTokenAccount>, ConstraintError>) -> Result<
    Option<CreateAssociatedTokenAccountView>,
    ConstraintError,
> {
    match r {
        Ok(Some(c)) => Ok(Some(c@)),
        Ok(None) => Ok(None),
        Err(e) => Err(e),
    }
}

pub fn check_init_if_needed_associated_token(
    acct: &MaybeTokenAccount,
    payer: &Address,
    wallet: &Address,
    mint: &Address,
    token_program: &Address,
    ids: &ProgramIds,
) -> (r: Result<Option<CreateAssociatedTokenAccount>, ConstraintError>)
    ensures
        creation_view(r) == init_if_needed_associated_token_check(*acct, payer@, wallet@, mint@, token_program@, *ids),
{
    if same_address(&acct.account.owner, &ids.system_program) {
        return Ok(
            Some(
                CreateAssociatedTokenAccount {
                    payer: *payer,
                    associated: acct.account.key,
                    authority: *wallet,
                    mint: *mint,
                    token_program: *token_program,
                },
            ),
        );
    }
    if !token_program_key(ids, &acct.account.owner) {
        return Err(ConstraintError::AccountOwnedByWrongProgram);
    }
    match &acct.data {
        None => Err(ConstraintError::AccountDidNotDeserialize),
        Some(d) => {
            if !same_address(&d.mint, mint) {
                return Err(ConstraintError::ConstraintTokenMint);
            }
            if !same_address(&d.authority, wallet) {
                return Err(ConstraintError::ConstraintTokenOwner);
            }
            if !same_address(&acct.account.owner, token_program) {
                return Err(ConstraintError::ConstraintAssociatedTokenTokenProgram);
            }
            match associated_token_address(wallet, mint, token_program, &ids.associated_token_program) {
                None => Err(ConstraintError::NoViableBump),
                Some(k) => if !same_address(&k, &acct.account.key) {
                    Err(ConstraintError::AccountNotAssociatedTokenAccount)
                } else if !acct.account.is_writable {
                    Err(ConstraintError::ConstraintMut)
                } else if !acct.rent_exempt {
                    Err(ConstraintError::ConstraintRentExempt)
                } else {
                    Ok(None)
                },
            }
        },
    }
}

// ---------------------------------------------------------------------- Laws

/// What each single check accepts, in terms of the account's fields.
pub proof fn law_single_checks(a: AccountSnapshot, id: Seq<u8>, ids: ProgramIds, owner: Seq<u8>, dest: Seq<u8>)
    ensures
        mut_check(a) is Ok <==> a.is_writable,
        signer_check(a) is Ok <==> a.is_signer,
        program_check(a, id) is Ok <==> (a.key@ == id && a.executable),
        interface_check(a, ids) is Ok <==> ((a.key@ == ids.token_program@ || a.key@ == ids.token_2022_program@)
            && a.executable),
        system_account_check(a, ids) is Ok <==> a.owner@ == ids.system_program@,
        program_account_check(a, ids, owner) is Ok <==> (a.owner@ == owner && !(a.owner@ == ids.system_program@
            && a.lamports == 0)),
        token_owned_check(a, ids) is Ok <==> ((a.owner@ == ids.token_program@ || a.owner@ == ids.token_2022_program@)
            && !(a.owner@ == ids.system_program@ && a.lamports == 0)),
        close_check(a.key@, dest) is Ok <==> a.key@ != dest,
{
}

/// The error each single check fails with, in terms of the account's
/// fields: where a check tests two things, the first one that fails names
/// the error.
pub proof fn law_single_check_errors(a: AccountSnapshot, id: Seq<u8>, ids: ProgramIds, owner: Seq<u8>, dest: Seq<u8>)
    ensures
        !a.is_writable ==> mut_check(a) == Err::<(), ConstraintError>(ConstraintError::ConstraintMut),
        !a.is_signer ==> signer_check(a) == Err::<(), ConstraintError>(ConstraintError::AccountNotSigner),
        a.key@ != id ==> program_check(a, id) == Err::<(), ConstraintError>(ConstraintError::InvalidProgramId),
        a.key@ == id && !a.executable ==> program_check(a, id) == Err::<(), ConstraintError>(
            ConstraintError::InvalidProgramExecutable,
        ),
        !(a.key@ == ids.token_program@ || a.key@ == ids.token_2022_program@) ==> interface_check(a, ids) == Err::<
            (),
            ConstraintError,
        >(ConstraintError::InvalidProgramId),
        (a.key@ == ids.token_program@ || a.key@ == ids.token_2022_program@) && !a.executable ==> interface_check(
            a,
            ids,
        ) == Err::<(), ConstraintError>(ConstraintError::InvalidProgramExecutable),
        a.owner@ != ids.system_program@ ==> system_account_check(a, ids) == Err::<(), ConstraintError>(
            ConstraintError::AccountNotSystemOwned,
        ),
        a.owner@ == ids.system_program@ && a.lamports == 0 ==> program_account_check(a, ids, owner) == Err::<
            (),
            ConstraintError,
        >(ConstraintError::AccountNotInitialized),
        !(a.owner@ == ids.system_program@ && a.lamports == 0) && a.owner@ != owner ==> program_account_check(
            a,
            ids,
            owner,
        ) == Err::<(), ConstraintError>(ConstraintError::AccountOwnedByWrongProgram),
        a.owner@ == ids.system_program@ && a.lamports == 0 ==> token_owned_check(a, ids) == Err::<(), ConstraintError>(
            ConstraintError::AccountNotInitialized,
        ),
        !(a.owner@ == ids.system_program@ && a.lamports == 0) && !(a.owner@ == ids.token_program@ || a.owner@
            == ids.token_2022_program@) ==> token_owned_check(a, ids) == Err::<(), ConstraintError>(
            ConstraintError::AccountOwnedByWrongProgram,
        ),
        a.key@ == dest ==> close_check(a.key@, dest) == Err::<(), ConstraintError>(ConstraintError::ConstraintClose),
{
}

/// The errors of the seeds, mint and associated-token constraints: a bump
/// that does not recreate the address is `ConstraintSeeds`; seeds with no
/// viable bump are `NoViableBump`, and seeds that have a canonical PDA at
/// another address `ConstraintSeeds`; a mint of another token program is
/// `ConstraintMintTokenProgram`; a token account of another token program is
/// `ConstraintAssociatedTokenTokenProgram`, one held for another wallet
/// `ConstraintTokenOwner`, one at another address `ConstraintAssociated`.
pub proof fn law_constraint_errors(
    seeds: Seq<Seq<u8>>,
    bump: u8,
    program_id: Seq<u8>,
    key: Seq<u8>,
    m: MintSnapshot,
    acct: TokenAccountSnapshot,
    wallet: Seq<u8>,
    mint: Seq<u8>,
    token_program: Seq<u8>,
    ata_program: Seq<u8>,
)
    ensures
        created_program_address(seeds.push(seq![bump]), program_id) != Some(key) ==> bump_check(
            seeds,
            bump,
            program_id,
            key,
        ) == Err::<(), ConstraintError>(ConstraintError::ConstraintSeeds),
        no_viable_bump(seeds, program_id) ==> canonical_pda_check(seeds, program_id, key) == Err::<u8, ConstraintError>(
            ConstraintError::NoViableBump,
        ),
        (forall|b: u8| !canonical_pda(seeds, program_id, key, b)) && has_canonical_pda(seeds, program_id)
            ==> canonical_pda_check(seeds, program_id, key) == Err::<u8, ConstraintError>(
            ConstraintError::ConstraintSeeds,
        ),
        m.account.owner@ != token_program ==> mint_program_check(m, token_program) == Err::<(), ConstraintError>(
            ConstraintError::ConstraintMintTokenProgram,
        ),
        acct.account.owner@ != token_program ==> associated_token_check(acct, wallet, mint, token_program, ata_program)
            == Err::<(), ConstraintError>(ConstraintError::ConstraintAssociatedTokenTokenProgram),
        acct.account.owner@ == token_program && acct.data.authority@ != wallet ==> associated_token_check(
            acct,
            wallet,
            mint,
            token_program,
            ata_program,
        ) == Err::<(), ConstraintError>(ConstraintError::ConstraintTokenOwner),
        acct.account.owner@ == token_program && acct.data.authority@ == wallet && associated_token_address_of(
            wallet,
            mint,
            token_program,
            ata_program,
        ) is Some && associated_token_address_of(wallet, mint, token_program, ata_program) != Some(acct.account.key@)
            ==> associated_token_check(acct, wallet, mint, token_program, ata_program) == Err::<(), ConstraintError>(
            ConstraintError::ConstraintAssociated,
        ),
{
    if no_viable_bump(seeds, program_id) {
        lemma_no_viable_bump(seeds, program_id);
    }
    if has_canonical_pda(seeds, program_id) {
        let (k, b) = the_canonical_pda(seeds, program_id);
        assert(canonical_pda(seeds, program_id, k, b));
    }
}

/// A mint passes `mint::token_program = P` exactly when P owns it.
pub proof fn law_mint_program_check(m: MintSnapshot, token_program: Seq<u8>)
    ensures
        mint_program_check(m, token_program) is Ok <==> m.account.owner@ == token_program,
{
}

/// `seeds = ..., bump = b` accepts exactly the account whose address the
/// seeds with `b` create.
pub proof fn law_bump_check(seeds: Seq<Seq<u8>>, bump: u8, program_id: Seq<u8>, key: Seq<u8>)
    ensures
        bump_check(seeds, bump, program_id, key) is Ok <==> created_program_address(seeds.push(seq![bump]), program_id)
            == Some(key),
{
}

/// `seeds = ..., bump` accepts exactly the canonical PDA of the seeds, and
/// gives its bump.
pub proof fn law_canonical_pda_check(seeds: Seq<Seq<u8>>, program_id: Seq<u8>, key: Seq<u8>, bump: u8)
    ensures
        canonical_pda_check(seeds, program_id, key) == Ok::<u8, ConstraintError>(bump) <==> canonical_pda(
            seeds,
            program_id,
            key,
            bump,
        ),
{
    if canonical_pda(seeds, program_id, key, bump) {
        lemma_canonical_pda_chosen(seeds, program_id, key, bump);
    }
    if canonical_pda_check(seeds, program_id, key) == Ok::<u8, ConstraintError>(bump) {
        let (k, b) = the_canonical_pda(seeds, program_id);
        assert(canonical_pda(seeds, program_id, k, b));
    }
}

/// The associated token address of W and M under P is the canonical PDA of
/// the seeds W, P, M under the associated token program.
pub proof fn law_associated_token_address(wallet: Seq<u8>, mint: Seq<u8>, token_program: Seq<u8>, ata_program: Seq<u8>, key: Seq<u8>)
    ensures
        associated_token_address_of(wallet, mint, token_program, ata_program) == Some(key) <==> exists|b: u8|
            canonical_pda(seq![wallet, token_program, mint], ata_program, key, b),
{
    let seeds = seq![wallet, token_program, mint];
    assert(associated_token_seeds(wallet, mint, token_program) == seeds);
    if associated_token_address_of(wallet, mint, token_program, ata_program) == Some(key) {
        let (k, b) = the_canonical_pda(seeds, ata_program);
        assert(canonical_pda(seeds, ata_program, k, b));
    }
    if exists|b: u8| canonical_pda(seeds, ata_program, key, b) {
        let b = choose|b: u8| canonical_pda(seeds, ata_program, key, b);
        lemma_canonical_pda_chosen(seeds, ata_program, key, b);
    }
}

/// `associated_token::...` accepts exactly an account owned by the token
/// program, held for the wallet, at the wallet's associated token address.
pub proof fn law_associated_token_check(
    acct: TokenAccountSnapshot,
    wallet: Seq<u8>,
    mint: Seq<u8>,
    token_program: Seq<u8>,
    ata_program: Seq<u8>,
)
    ensures
        associated_token_check(acct, wallet, mint, token_program, ata_program) is Ok <==> {
            &&& acct.account.owner@ == token_program
            &&& acct.data.authority@ == wallet
            &&& associated_token_address_of(wallet, mint, token_program, ata_program) == Some(acct.account.key@)
        },
{
}

/// `init_if_needed` with `associated_token::...`: an account of the system
/// program is created, for the wallet and mint, paid by the payer; any other
/// account is accepted, with nothing to create, exactly when it is owned by
/// the given token program (one of the two token programs), decodes as a
/// token account of the mint held for the wallet, sits at the associated
/// token address, and is writable and rent-exempt.
pub proof fn law_init_if_needed_associated_token(
    acct: MaybeTokenAccount,
    payer: Seq<u8>,
    wallet: Seq<u8>,
    mint: Seq<u8>,
    token_program: Seq<u8>,
    ids: ProgramIds,
)
    ensures
        acct.account.owner@ == ids.system_program@ ==> init_if_needed_associated_token_check(
            acct,
            payer,
            wallet,
            mint,
            token_program,
            ids,
        ) == Ok::<Option<CreateAssociatedTokenAccountView>, ConstraintError>(
            Some(
                CreateAssociatedTokenAccountView {
                    payer,
                    associated: acct.account.key@,
                    authority: wallet,
                    mint,
                    token_program,
                },
            ),
        ),
        acct.account.owner@ != ids.system_program@ ==> (init_if_needed_associated_token_check(
            acct,
            payer,
            wallet,
            mint,
            token_program,
            ids,
        ) is Ok <==> {
            &&& (acct.account.owner@ == ids.token_program@ || acct.account.owner@ == ids.token_2022_program@)
            &&& acct.account.owner@ == token_program
            &&& acct.data matches Some(d) && d.mint@ == mint && d.authority@ == wallet
            &&& associated_token_address_of(wallet, mint, token_program, ids.associated_token_program@) == Some(
                acct.account.key@,
            )
            &&& acct.account.is_writable
            &&& acct.rent_exempt
        }),
        acct.account.owner@ != ids.system_program@ && init_if_needed_associated_token_check(
            acct,
            payer,
            wallet,
            mint,
            token_program,
            ids,
        ) is Ok ==> init_if_needed_associated_token_check(acct, payer, wallet, mint, token_program, ids)
            == Ok::<Option<CreateAssociatedTokenAccountView>, ConstraintError>(None),
{
}

} // verus!
