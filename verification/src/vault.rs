//! The lamport vault: each user has a state account at the PDA of
//! `["state", user]`, which records two bumps, and a vault account at the PDA
//! of `["vault", state]` that holds the user's lamports.  The vault program
//! signs for the vault with the vault's seeds and bump.
use vstd::prelude::*;
use crate::pda::{
    Address, created_program_address, with_bump, address_seed, push_bump, seed_list2, canonical_pda,
};
use crate::accounts::{
    AccountSnapshot, ProgramIds, ConstraintError, then_check, program_check, check_program, signer_check,
    check_signer, system_account_check, check_system_account, program_account_check, check_program_account, SystemTransfer, SystemTransferView, CreatePdaAccount,
    CreatePdaAccountView, CloseAccount, mut_check, check_mut, canonical_pda_check,
    check_canonical_pda, bump_check, check_bump, close_check, check_close,
    lemma_canonical_bump_recreates, law_canonical_pda_check,
};

verus! {

/// What the state account holds.
#[derive(PartialEq, Eq, Structural, Clone, Copy, Debug)]
pub struct VaultState {
    pub vault_bump: u8,
    pub state_bump: u8,
}

/// Bytes of a `VaultState` account: an 8-byte discriminator and two bumps.
pub const VAULT_STATE_SPACE: u64 = 10;

/// The bytes of `"state"`.
pub open spec fn state_tag() -> Seq<u8> {
    seq![115u8, 116u8, 97u8, 116u8, 101u8]
}

/// The bytes of `"vault"`.
pub open spec fn vault_tag() -> Seq<u8> {
    seq![118u8, 97u8, 117u8, 108u8, 116u8]
}

pub fn state_tag_bytes() -> (v: Vec<u8>)
    ensures
        v@ == state_tag(),
{
    let v: Vec<u8> = vec![115u8, 116u8, 97u8, 116u8, 101u8];
    assert(v@ =~= state_tag());
    v
}

pub fn vault_tag_bytes() -> (v: Vec<u8>)
    ensures
        v@ == vault_tag(),
{
    let v: Vec<u8> = vec![118u8, 97u8, 117u8, 108u8, 116u8];
    assert(v@ =~= vault_tag());
    v
}

/// The seeds of a user's state account.
pub open spec fn state_seeds(user: Seq<u8>) -> Seq<Seq<u8>> {
    seq![state_tag(), user]
}

/// The seeds of the vault that belongs to a state account.
pub open spec fn vault_seeds(state: Seq<u8>) -> Seq<Seq<u8>> {
    seq![vault_tag(), state]
}

pub fn state_seeds_of(user: &Address) -> (s: Vec<Vec<u8>>)
    ensures
        s.deep_view() == state_seeds(user@),
{
    seed_list2(state_tag_bytes(), address_seed(user))
}

pub fn vault_seeds_of(state: &Address) -> (s: Vec<Vec<u8>>)
    ensures
        s.deep_view() == vault_seeds(state@),
{
    seed_list2(vault_tag_bytes(), address_seed(state))
}

/// A state account and what it holds.
#[derive(Clone, Copy, Debug)]
pub struct VaultStateAccount {
    pub account: AccountSnapshot,
    pub data: VaultState,
}

// ---------------------------------------------------------------- Initialize

/// The accounts of `initialize`.
#[derive(Clone, Copy, Debug)]
pub struct Initialize {
    pub system_program: AccountSnapshot,
    pub user: AccountSnapshot,
    /// To be created at the PDA of `["state", user]`.
    pub vault_state: AccountSnapshot,
    pub vault: AccountSnapshot,
}

/// The canonical bumps found while checking `Initialize`.
#[derive(PartialEq, Eq, Structural, Clone, Copy, Debug)]
pub struct InitializeBumps {
    pub vault_state: u8,
    pub vault: u8,
}

/// The account types of `Initialize`: the system program, a signing user, a
/// vault owned by the system program.
pub open spec fn initialize_type_checks(a: Initialize, ids: ProgramIds) -> Result<(), ConstraintError> {
    then_check(
        program_check(a.system_program, ids.system_program@),
        then_check(signer_check(a.user), system_account_check(a.vault, ids)),
    )
}

/// The checks that run before the state account is created: the account
/// types, then the state account is the canonical PDA of `["state", user]`,
/// whose bump is returned.
pub open spec fn initialize_init_checks(a: Initialize, program_id: Seq<u8>, ids: ProgramIds) -> Result<u8, ConstraintError> {
    match initialize_type_checks(a, ids) {
        Err(e) => Err(e),
        Ok(_) => canonical_pda_check(state_seeds(a.user.key@), program_id, a.vault_state.key@),
    }
}

/// The checks that run once the state account is created: the user is
/// writable; the vault is the canonical PDA of `["vault", state]`, whose bump
/// is returned, and writable.
pub open spec fn initialize_access_checks(a: Initialize, program_id: Seq<u8>) -> Result<u8, ConstraintError> {
    match mut_check(a.user) {
        Err(e) => Err(e),
        Ok(_) => match canonical_pda_check(vault_seeds(a.vault_state.key@), program_id, a.vault.key@) {
            Err(e) => Err(e),
            Ok(vault_bump) => match mut_check(a.vault) {
                Err(e) => Err(e),
                Ok(_) => Ok(vault_bump),
            },
        },
    }
}

/// The checks of `Initialize`, in the order in which they are made: those
/// before the state account is created, then those after.
pub open spec fn initialize_checks(a: Initialize, program_id: Seq<u8>, ids: ProgramIds) -> Result<InitializeBumps, ConstraintError> {
    match initialize_init_checks(a, program_id, ids) {
        Err(e) => Err(e),
        Ok(state_bump) => match initialize_access_checks(a, program_id) {
            Err(e) => Err(e),
            Ok(vault_bump) => Ok(InitializeBumps { vault_state: state_bump, vault: vault_bump }),
        },
    }
}

/// The creation of the state account: paid by the user, `VAULT_STATE_SPACE`
/// bytes, owned by the program, signed with the state seeds and bump.
pub open spec fn vault_state_creation(a: Initialize, program_id: Seq<u8>, state_bump: u8) -> CreatePdaAccountView {
    CreatePdaAccountView {
        payer: a.user.key@,
        account: a.vault_state.key@,
        space: VAULT_STATE_SPACE,
        owner: program_id,
        signer_seeds: with_bump(state_seeds(a.user.key@), state_bump),
    }
}

/// The state that `initialize` records for the bumps it found.
pub open spec fn initialized_state(b: InitializeBumps) -> VaultState {
    VaultState { state_bump: b.vault_state, vault_bump: b.vault }
}

/// The transfer of `initialize`: `rent_exempt` lamports from the user into
/// the vault.
pub open spec fn initialize_transfer(a: Initialize, rent_exempt: u64) -> SystemTransferView {
    SystemTransferView { from: a.user.key@, to: a.vault.key@, lamports: rent_exempt, signer_seeds: None }
}

impl Initialize {
    /// The checks of `Initialize` made before the state account is created.
    pub fn try_init_accounts(&self, program_id: &Address, ids: &ProgramIds) -> (r: Result<u8, ConstraintError>)
        ensures
            r == initialize_init_checks(*self, program_id@, *ids),
    {
        check_program(&self.system_program, &ids.system_program)?;
        check_signer(&self.user)?;
        check_system_account(&self.vault, ids)?;
        let state_seeds = state_seeds_of(&self.user.key);
        check_canonical_pda(&state_seeds, program_id, &self.vault_state.key)
    }

    /// The checks of `Initialize` made once the state account is created.
    pub fn try_access_accounts(&self, program_id: &Address) -> (r: Result<u8, ConstraintError>)
        ensures
            r == initialize_access_checks(*self, program_id@),
    {
        check_mut(&self.user)?;
        let vault_seeds = vault_seeds_of(&self.vault_state.key);
        let vault_bump = check_canonical_pda(&vault_seeds, program_id, &self.vault.key)?;
        check_mut(&self.vault)?;
        Ok(vault_bump)
    }

    /// All the account checks of `Initialize`, in order.
    pub fn try_accounts(&self, program_id: &Address, ids: &ProgramIds) -> (r: Result<InitializeBumps, ConstraintError>)
        ensures
            r == initialize_checks(*self, program_id@, *ids),
    {
        let state_bump = self.try_init_accounts(program_id, ids)?;
        let vault_bump = self.try_access_accounts(program_id)?;
        Ok(InitializeBumps { vault_state: state_bump, vault: vault_bump })
    }

    /// The state account to be created.
    pub fn vault_state_creation(&self, program_id: &Address, state_bump: u8) -> (c: CreatePdaAccount)
        ensures
            c@ == vault_state_creation(*self, program_id@, state_bump),
    {
        let seeds = push_bump(&state_seeds_of(&self.user.key), state_bump);
        CreatePdaAccount {
            payer: self.user.key,
            account: self.vault_state.key,
            space: VAULT_STATE_SPACE,
            owner: *program_id,
            signer_seeds: seeds,
        }
    }

    /// Funds the vault with `rent_exempt` lamports from the user (the minimum
    /// balance of the vault, which the caller reads from the rent sysvar) and
    /// records the two bumps.
    pub fn initialize(&self, bumps: &InitializeBumps, rent_exempt: u64) -> (r: (VaultState, SystemTransfer))
        ensures
            r.0 == initialized_state(*bumps),
            r.1@ == initialize_transfer(*self, rent_exempt),
    {
        let transfer = SystemTransfer {
            from: self.user.key,
            to: self.vault.key,
            lamports: rent_exempt,
            signer_seeds: None,
        };
        (VaultState { state_bump: bumps.vault_state, vault_bump: bumps.vault }, transfer)
    }
}

/// What `initialize` does once its accounts pass.
#[derive(Debug)]
pub struct InitializeOutcome {
    pub bumps: InitializeBumps,
    pub create_vault_state: CreatePdaAccount,
    pub transfer: SystemTransfer,
    pub state: VaultState,
}

/// The first step of `initialize`: the checks made before the state account
/// is created and, when they pass, the creation.  The caller makes the
/// creation before it calls `initialize`; where the creation fails, the
/// instruction fails there.
pub fn initialize_accounts(program_id: &Address, ids: &ProgramIds, accounts: &Initialize) -> (r: Result<
    CreatePdaAccount,
    ConstraintError,
>)
    ensures
        match initialize_init_checks(*accounts, program_id@, *ids) {
            Err(e) => r == Err::<CreatePdaAccount, ConstraintError>(e),
            Ok(b) => r matches Ok(c) && c@ == vault_state_creation(*accounts, program_id@, b),
        },
{
    let state_bump = accounts.try_init_accounts(program_id, ids)?;
    Ok(accounts.vault_state_creation(program_id, state_bump))
}

/// The `initialize` instruction: checks the accounts, creates the state
/// account, funds the vault and records the bumps.  The creation is made by
/// the caller after `initialize_accounts`; the checks made before it depend
/// on nothing that it changes and are repeated here.
pub fn initialize(program_id: &Address, ids: &ProgramIds, accounts: &Initialize, rent_exempt: u64) -> (r: Result<
    InitializeOutcome,
    ConstraintError,
>)
    ensures
        match initialize_checks(*accounts, program_id@, *ids) {
            Err(e) => r == Err::<InitializeOutcome, ConstraintError>(e),
            Ok(b) => r matches Ok(o) && {
                &&& o.bumps == b
                &&& o.create_vault_state@ == vault_state_creation(*accounts, program_id@, b.vault_state)
                &&& o.transfer@ == initialize_transfer(*accounts, rent_exempt)
                &&& o.state == initialized_state(b)
            },
        },
{
    let bumps = accounts.try_accounts(program_id, ids)?;
    let create_vault_state = accounts.vault_state_creation(program_id, bumps.vault_state);
    let (state, transfer) = accounts.initialize(&bumps, rent_exempt);
    Ok(InitializeOutcome { bumps, create_vault_state, transfer, state })
}

// ------------------------------------------------------------------- Deposit

/// The accounts of `deposit`.
#[derive(Clone, Copy, Debug)]
pub struct Deposit {
    pub system_program: AccountSnapshot,
    pub user: AccountSnapshot,
    pub vault_state: VaultStateAccount,
    pub vault: AccountSnapshot,
}

/// The account types shared by `Deposit`, `Withdraw` and `Close`: the
/// system program, a signing user, a state account owned by the program, a
/// vault owned by the system program.
pub open spec fn vault_user_type_checks(
    system_program: AccountSnapshot,
    user: AccountSnapshot,
    state: VaultStateAccount,
    vault: AccountSnapshot,
    program_id: Seq<u8>,
    ids: ProgramIds,
) -> Result<(), ConstraintError> {
    then_check(
        program_check(system_program, ids.system_program@),
        then_check(
            signer_check(user),
            then_check(program_account_check(state.account, ids, program_id), system_account_check(vault, ids)),
        ),
    )
}

fn check_vault_user_types(
    system_program: &AccountSnapshot,
    user: &AccountSnapshot,
    state: &VaultStateAccount,
    vault: &AccountSnapshot,
    program_id: &Address,
    ids: &ProgramIds,
) -> (r: Result<(), ConstraintError>)
    ensures
        r == vault_user_type_checks(*system_program, *user, *state, *vault, program_id@, *ids),
{
    check_program(system_program, &ids.system_program)?;
    check_signer(user)?;
    check_program_account(&state.account, ids, program_id)?;
    check_system_account(vault, ids)
}

/// The seeds constraint of a state account with its recorded bump.
pub open spec fn state_account_check(user: Seq<u8>, state: VaultStateAccount, program_id: Seq<u8>) -> Result<(), ConstraintError> {
    bump_check(state_seeds(user), state.data.state_bump, program_id, state.account.key@)
}

/// The seeds constraint of a vault with the bump recorded in its state.
pub open spec fn vault_account_check(state: VaultStateAccount, vault: AccountSnapshot, program_id: Seq<u8>) -> Result<(), ConstraintError> {
    bump_check(vault_seeds(state.account.key@), state.data.vault_bump, program_id, vault.key@)
}

fn check_state_account(user: &Address, state: &VaultStateAccount, program_id: &Address) -> (r: Result<(), ConstraintError>)
    ensures
        r == state_account_check(user@, *state, program_id@),
{
    check_bump(&state_seeds_of(user), state.data.state_bump, program_id, &state.account.key)
}

fn check_vault_account(state: &VaultStateAccount, vault: &AccountSnapshot, program_id: &Address) -> (r: Result<(), ConstraintError>)
    ensures
        r == vault_account_check(*state, *vault, program_id@),
{
    check_bump(&vault_seeds_of(&state.account.key), state.data.vault_bump, program_id, &vault.key)
}

/// The checks of `Deposit`, in order: the account types; then the user is
/// writable; the state account is at `["state", user]` with its recorded
/// bump; the vault is at `["vault", state]` with the recorded vault bump, and
/// writable.
pub open spec fn deposit_checks(a: Deposit, program_id: Seq<u8>, ids: ProgramIds) -> Result<(), ConstraintError> {
    match vault_user_type_checks(a.system_program, a.user, a.vault_state, a.vault, program_id, ids) {
        Err(e) => Err(e),
        Ok(_) => deposit_constraint_checks(a, program_id),
    }
}

/// The constraints of `Deposit` after the account types.
pub open spec fn deposit_constraint_checks(a: Deposit, program_id: Seq<u8>) -> Result<(), ConstraintError> {
    match mut_check(a.user) {
        Err(e) => Err(e),
        Ok(_) => match state_account_check(a.user.key@, a.vault_state, program_id) {
            Err(e) => Err(e),
            Ok(_) => match vault_account_check(a.vault_state, a.vault, program_id) {
                Err(e) => Err(e),
                Ok(_) => mut_check(a.vault),
            },
        },
    }
}

/// The transfer of `deposit`: `amount` lamports from the user to the vault.
pub open spec fn deposit_transfer(a: Deposit, amount: u64) -> SystemTransferView {
    SystemTransferView { from: a.user.key@, to: a.vault.key@, lamports: amount, signer_seeds: None }
}

impl Deposit {
    /// Checks the account constraints of `Deposit`.
    pub fn try_accounts(&self, program_id: &Address, ids: &ProgramIds) -> (r: Result<(), ConstraintError>)
        ensures
            r == deposit_checks(*self, program_id@, *ids),
    {
        check_vault_user_types(&self.system_program, &self.user, &self.vault_state, &self.vault, program_id, ids)?;
        check_mut(&self.user)?;
        check_state_account(&self.user.key, &self.vault_state, program_id)?;
        check_vault_account(&self.vault_state, &self.vault, program_id)?;
        check_mut(&self.vault)
    }

    /// Moves `amount` lamports from the user into the vault.
    pub fn deposit(&self, amount: u64) -> (t: SystemTransfer)
        ensures
            t@ == deposit_transfer(*self, amount),
    {
        SystemTransfer { from: self.user.key, to: self.vault.key, lamports: amount, signer_seeds: None }
    }
}

/// The `deposit` instruction.
pub fn deposit(program_id: &Address, ids: &ProgramIds, accounts: &Deposit, amount: u64) -> (r: Result<SystemTransfer, ConstraintError>)
    ensures
        match deposit_checks(*accounts, program_id@, *ids) {
            Err(e) => r == Err::<SystemTransfer, ConstraintError>(e),
            Ok(_) => r matches Ok(t) && t@ == deposit_transfer(*accounts, amount),
        },
{
    accounts.try_accounts(program_id, ids)?;
    Ok(accounts.deposit(amount))
}

// ------------------------------------------------------------------ Withdraw

/// The accounts of `withdraw`.
#[derive(Clone, Copy, Debug)]
pub struct Withdraw {
    pub system_program: AccountSnapshot,
    pub user: AccountSnapshot,
    pub vault_state: VaultStateAccount,
    pub vault: AccountSnapshot,
}

/// The checks of `Withdraw`, in order: the account types; then the state
/// account is at `["state", user]` with its recorded bump; the vault is at
/// `["vault", state]` with the recorded vault bump, and writable.
pub open spec fn withdraw_checks(a: Withdraw, program_id: Seq<u8>, ids: ProgramIds) -> Result<(), ConstraintError> {
    match vault_user_type_checks(a.system_program, a.user, a.vault_state, a.vault, program_id, ids) {
        Err(e) => Err(e),
        Ok(_) => withdraw_constraint_checks(a, program_id),
    }
}

/// The constraints of `Withdraw` after the account types.
pub open spec fn withdraw_constraint_checks(a: Withdraw, program_id: Seq<u8>) -> Result<(), ConstraintError> {
    match state_account_check(a.user.key@, a.vault_state, program_id) {
        Err(e) => Err(e),
        Ok(_) => match vault_account_check(a.vault_state, a.vault, program_id) {
            Err(e) => Err(e),
            Ok(_) => mut_check(a.vault),
        },
    }
}

/// The seeds with which the program signs for a vault.
pub open spec fn vault_signer_seeds(state: VaultStateAccount) -> Seq<Seq<u8>> {
    with_bump(vault_seeds(state.account.key@), state.data.vault_bump)
}

fn vault_signer_seeds_of(state: &VaultStateAccount) -> (s: Vec<Vec<u8>>)
    ensures
        s.deep_view() == vault_signer_seeds(*state),
{
    push_bump(&vault_seeds_of(&state.account.key), state.data.vault_bump)
}

/// The transfer of `withdraw`: `amount` lamports from the vault to the user,
/// signed for the vault.
pub open spec fn withdraw_transfer(a: Withdraw, amount: u64) -> SystemTransferView {
    SystemTransferView {
        from: a.vault.key@,
        to: a.user.key@,
        lamports: amount,
        signer_seeds: Some(vault_signer_seeds(a.vault_state)),
    }
}

impl Withdraw {
    /// Checks the account constraints of `Withdraw`.
    pub fn try_accounts(&self, program_id: &Address, ids: &ProgramIds) -> (r: Result<(), ConstraintError>)
        ensures
            r == withdraw_checks(*self, program_id@, *ids),
    {
        check_vault_user_types(&self.system_program, &self.user, &self.vault_state, &self.vault, program_id, ids)?;
        check_state_account(&self.user.key, &self.vault_state, program_id)?;
        check_vault_account(&self.vault_state, &self.vault, program_id)?;
        check_mut(&self.vault)
    }

    /// Moves `amount` lamports from the vault back to the user.
    pub fn withdraw(&self, amount: u64) -> (t: SystemTransfer)
        ensures
            t@ == withdraw_transfer(*self, amount),
    {
        SystemTransfer {
            from: self.vault.key,
            to: self.user.key,
            lamports: amount,
            signer_seeds: Some(vault_signer_seeds_of(&self.vault_state)),
        }
    }
}

/// The `withdraw` instruction.
pub fn withdraw(program_id: &Address, ids: &ProgramIds, accounts: &Withdraw, amount: u64) -> (r: Result<SystemTransfer, ConstraintError>)
    ensures
        match withdraw_checks(*accounts, program_id@, *ids) {
            Err(e) => r == Err::<SystemTransfer, ConstraintError>(e),
            Ok(_) => r matches Ok(t) && t@ == withdraw_transfer(*accounts, amount),
        },
{
    accounts.try_accounts(program_id, ids)?;
    Ok(accounts.withdraw(amount))
}

// --------------------------------------------------------------------- Close

/// The accounts of `close`.
#[derive(Clone, Copy, Debug)]
pub struct Close {
    pub system_program: AccountSnapshot,
    pub user: AccountSnapshot,
    /// Closed to the user at the end of the instruction.
    pub vault_state: VaultStateAccount,
    pub vault: AccountSnapshot,
}

/// The checks of `Close`, in order: the account types; then the state
/// account is at `["state", user]` with its recorded bump, writable, and not
/// the user itself; the vault is at `["vault", state]` with the recorded
/// vault bump, and writable.
pub open spec fn close_checks(a: Close, program_id: Seq<u8>, ids: ProgramIds) -> Result<(), ConstraintError> {
    match vault_user_type_checks(a.system_program, a.user, a.vault_state, a.vault, program_id, ids) {
        Err(e) => Err(e),
        Ok(_) => close_constraint_checks(a, program_id),
    }
}

/// The constraints of `Close` after the account types.
pub open spec fn close_constraint_checks(a: Close, program_id: Seq<u8>) -> Result<(), ConstraintError> {
    match state_account_check(a.user.key@, a.vault_state, program_id) {
        Err(e) => Err(e),
        Ok(_) => match mut_check(a.vault_state.account) {
            Err(e) => Err(e),
            Ok(_) => match close_check(a.vault_state.account.key@, a.user.key@) {
                Err(e) => Err(e),
                Ok(_) => match vault_account_check(a.vault_state, a.vault, program_id) {
                    Err(e) => Err(e),
                    Ok(_) => mut_check(a.vault),
                },
            },
        },
    }
}

/// The transfer of `close`: the vault's whole balance to the user, signed for
/// the vault.
pub open spec fn close_transfer(a: Close) -> SystemTransferView {
    SystemTransferView {
        from: a.vault.key@,
        to: a.user.key@,
        lamports: a.vault.lamports,
        signer_seeds: Some(vault_signer_seeds(a.vault_state)),
    }
}

impl Close {
    /// Checks the account constraints of `Close`.
    pub fn try_accounts(&self, program_id: &Address, ids: &ProgramIds) -> (r: Result<(), ConstraintError>)
        ensures
            r == close_checks(*self, program_id@, *ids),
    {
        check_vault_user_types(&self.system_program, &self.user, &self.vault_state, &self.vault, program_id, ids)?;
        check_state_account(&self.user.key, &self.vault_state, program_id)?;
        check_mut(&self.vault_state.account)?;
        check_close(&self.vault_state.account.key, &self.user.key)?;
        check_vault_account(&self.vault_state, &self.vault, program_id)?;
        check_mut(&self.vault)
    }

    /// Empties the vault into the user's account.
    pub fn close(&self) -> (t: SystemTransfer)
        ensures
            t@ == close_transfer(*self),
    {
        SystemTransfer {
            from: self.vault.key,
            to: self.user.key,
            lamports: self.vault.lamports,
            signer_seeds: Some(vault_signer_seeds_of(&self.vault_state)),
        }
    }
}

/// What `close` does once its accounts pass.
#[derive(Debug)]
pub struct CloseOutcome {
    pub transfer: SystemTransfer,
    pub close_state: CloseAccount,
}

/// The `close` instruction: empties the vault into the user's account and
/// closes the state account to the user.
pub fn close(program_id: &Address, ids: &ProgramIds, accounts: &Close) -> (r: Result<CloseOutcome, ConstraintError>)
    ensures
        match close_checks(*accounts, program_id@, *ids) {
            Err(e) => r == Err::<CloseOutcome, ConstraintError>(e),
            Ok(_) => r matches Ok(o) && {
                &&& o.transfer@ == close_transfer(*accounts)
                &&& o.close_state.account == accounts.vault_state.account.key
                &&& o.close_state.destination == accounts.user.key
            },
        },
{
    accounts.try_accounts(program_id, ids)?;
    let transfer = accounts.close();
    Ok(CloseOutcome {
        transfer,
        close_state: CloseAccount { account: accounts.vault_state.account.key, destination: accounts.user.key },
    })
}

// ---------------------------------------------------------------------- Laws

/// The state that `initialize` records for accounts it accepts.
pub open spec fn recorded_state(a: Initialize, program_id: Seq<u8>, ids: ProgramIds) -> VaultState {
    initialized_state(initialize_checks(a, program_id, ids)->Ok_0)
}

/// The state and vault accounts that `initialize` accepts, with the state it
/// records, pass the seeds constraints of every later instruction: the bumps
/// recorded at creation re-derive both addresses.
pub proof fn law_recorded_bumps_rederive_accounts(a: Initialize, program_id: Seq<u8>, ids: ProgramIds)
    requires
        initialize_checks(a, program_id, ids) is Ok,
    ensures
        ({
            let st = VaultStateAccount { account: a.vault_state, data: recorded_state(a, program_id, ids) };
            &&& state_account_check(a.user.key@, st, program_id) is Ok
            &&& vault_account_check(st, a.vault, program_id) is Ok
        }),
{
    lemma_canonical_bump_recreates(state_seeds(a.user.key@), program_id, a.vault_state.key@);
    lemma_canonical_bump_recreates(vault_seeds(a.vault_state.key@), program_id, a.vault.key@);
}

/// After `initialize`, `deposit`, `withdraw` and `close` accept the same user,
/// state account and vault with the recorded state, as long as the accounts
/// have the right types, are passed writable where those instructions ask it,
/// and the state account is not the user.
pub proof fn law_initialized_vault_accepted_later(
    a: Initialize,
    program_id: Seq<u8>,
    ids: ProgramIds,
    d: Deposit,
    w: Withdraw,
    c: Close,
)
    requires
        initialize_checks(a, program_id, ids) is Ok,
        d.user.key == a.user.key,
        d.vault_state.account.key == a.vault_state.key,
        d.vault_state.data == recorded_state(a, program_id, ids),
        d.vault.key == a.vault.key,
        w.user.key == a.user.key,
        w.vault_state.account.key == a.vault_state.key,
        w.vault_state.data == recorded_state(a, program_id, ids),
        w.vault.key == a.vault.key,
        c.user.key == a.user.key,
        c.vault_state.account.key == a.vault_state.key,
        c.vault_state.data == recorded_state(a, program_id, ids),
        c.vault.key == a.vault.key,
    ensures
        vault_user_type_checks(d.system_program, d.user, d.vault_state, d.vault, program_id, ids) is Ok
            && d.user.is_writable && d.vault.is_writable ==> deposit_checks(d, program_id, ids) is Ok,
        vault_user_type_checks(w.system_program, w.user, w.vault_state, w.vault, program_id, ids) is Ok
            && w.vault.is_writable ==> withdraw_checks(w, program_id, ids) is Ok,
        vault_user_type_checks(c.system_program, c.user, c.vault_state, c.vault, program_id, ids) is Ok
            && c.vault_state.account.is_writable && c.vault.is_writable && c.vault_state.account.key@ != c.user.key@
            ==> close_checks(c, program_id, ids) is Ok,
{
    law_recorded_bumps_rederive_accounts(a, program_id, ids);
}

/// The seeds with which `withdraw` signs derive the vault's own address, so
/// the program can sign for the vault it checked.
pub proof fn law_withdraw_signs_for_vault(a: Withdraw, program_id: Seq<u8>, ids: ProgramIds, amount: u64)
    requires
        withdraw_checks(a, program_id, ids) is Ok,
    ensures
        withdraw_transfer(a, amount).signer_seeds matches Some(s)
            && created_program_address(s, program_id) == Some(withdraw_transfer(a, amount).from),
{
}

/// The seeds with which `close` signs derive the vault's own address, and
/// `close` moves the vault's whole balance.
pub proof fn law_close_signs_for_vault(a: Close, program_id: Seq<u8>, ids: ProgramIds)
    requires
        close_checks(a, program_id, ids) is Ok,
    ensures
        close_transfer(a).signer_seeds matches Some(s)
            && created_program_address(s, program_id) == Some(close_transfer(a).from),
        close_transfer(a).lamports == a.vault.lamports,
{
}

/// A withdrawal of an amount moves it back along the path a deposit of the
/// same amount took, between the same user and vault.
pub proof fn law_withdraw_reverses_deposit(d: Deposit, w: Withdraw, amount: u64)
    requires
        d.user.key == w.user.key,
        d.vault.key == w.vault.key,
    ensures
        withdraw_transfer(w, amount).from == deposit_transfer(d, amount).to,
        withdraw_transfer(w, amount).to == deposit_transfer(d, amount).from,
        withdraw_transfer(w, amount).lamports == deposit_transfer(d, amount).lamports,
{
}

/// A state account that `close` has closed (handed back to the system
/// program with no lamports left) is refused by `deposit`, `withdraw` and
/// `close`: until the state account is created again, the program moves no
/// lamports into or out of the user's vault.  Where the program and signer
/// checks before it pass, the refusal is `AccountNotInitialized`.
pub proof fn law_closed_state_refused(program_id: Seq<u8>, ids: ProgramIds, d: Deposit, w: Withdraw, c: Close)
    requires
        d.vault_state.account.owner@ == ids.system_program@,
        d.vault_state.account.lamports == 0,
        w.vault_state.account.owner@ == ids.system_program@,
        w.vault_state.account.lamports == 0,
        c.vault_state.account.owner@ == ids.system_program@,
        c.vault_state.account.lamports == 0,
    ensures
        deposit_checks(d, program_id, ids) is Err,
        withdraw_checks(w, program_id, ids) is Err,
        close_checks(c, program_id, ids) is Err,
        program_check(d.system_program, ids.system_program@) is Ok && signer_check(d.user) is Ok
            ==> deposit_checks(d, program_id, ids) == Err::<(), ConstraintError>(ConstraintError::AccountNotInitialized),
        program_check(w.system_program, ids.system_program@) is Ok && signer_check(w.user) is Ok
            ==> withdraw_checks(w, program_id, ids) == Err::<(), ConstraintError>(ConstraintError::AccountNotInitialized),
        program_check(c.system_program, ids.system_program@) is Ok && signer_check(c.user) is Ok
            ==> close_checks(c, program_id, ids) == Err::<(), ConstraintError>(ConstraintError::AccountNotInitialized),
{
}

/// `deposit` moves exactly the requested amount, from the user's account to
/// the vault, and the user signs for it: the program adds no seeds.
pub proof fn law_deposit_moves_amount_from_user_to_vault(a: Deposit, amount: u64)
    ensures
        deposit_transfer(a, amount).lamports == amount,
        deposit_transfer(a, amount).from == a.user.key@,
        deposit_transfer(a, amount).to == a.vault.key@,
        deposit_transfer(a, amount).signer_seeds is None,
{
}

/// `withdraw` moves exactly the requested amount, from the vault to the
/// user's account, signed for the vault with the vault's seeds and recorded
/// bump.
pub proof fn law_withdraw_moves_amount_from_vault_to_user(a: Withdraw, amount: u64)
    ensures
        withdraw_transfer(a, amount).lamports == amount,
        withdraw_transfer(a, amount).from == a.vault.key@,
        withdraw_transfer(a, amount).to == a.user.key@,
        withdraw_transfer(a, amount).signer_seeds == Some(
            seq![vault_tag(), a.vault_state.account.key@, seq![a.vault_state.data.vault_bump]],
        ),
{
    assert(vault_signer_seeds(a.vault_state) =~= seq![
        vault_tag(),
        a.vault_state.account.key@,
        seq![a.vault_state.data.vault_bump],
    ]);
}

/// `close` moves the vault's whole balance to the user's account, signed for
/// the vault with the vault's seeds and recorded bump.
pub proof fn law_close_moves_whole_vault_to_user(a: Close)
    ensures
        close_transfer(a).lamports == a.vault.lamports,
        close_transfer(a).from == a.vault.key@,
        close_transfer(a).to == a.user.key@,
        close_transfer(a).signer_seeds == Some(
            seq![vault_tag(), a.vault_state.account.key@, seq![a.vault_state.data.vault_bump]],
        ),
{
    assert(vault_signer_seeds(a.vault_state) =~= seq![
        vault_tag(),
        a.vault_state.account.key@,
        seq![a.vault_state.data.vault_bump],
    ]);
}

/// The account types of `deposit`, `withdraw` and `close` are the system
/// program, a signing user, a state account of the program and a vault of
/// the system program, and nothing else: when each of those holds, the type
/// checks pass, whatever the accounts' writability.
pub proof fn law_vault_user_types_are_exactly_these(
    system_program: AccountSnapshot,
    user: AccountSnapshot,
    state: VaultStateAccount,
    vault: AccountSnapshot,
    program_id: Seq<u8>,
    ids: ProgramIds,
)
    ensures
        (program_check(system_program, ids.system_program@) is Ok && signer_check(user) is Ok
            && program_account_check(state.account, ids, program_id) is Ok && system_account_check(vault, ids) is Ok)
            <==> vault_user_type_checks(system_program, user, state, vault, program_id, ids) is Ok,
{
}

/// The same accounts with the state account's writability set to `w`.
pub open spec fn with_state_writable(state: VaultStateAccount, w: bool) -> VaultStateAccount {
    VaultStateAccount {
        account: AccountSnapshot {
            key: state.account.key,
            owner: state.account.owner,
            lamports: state.account.lamports,
            is_signer: state.account.is_signer,
            is_writable: w,
            executable: state.account.executable,
        },
        data: state.data,
    }
}

/// The same account with its writability set to `w`.
pub open spec fn with_writable(a: AccountSnapshot, w: bool) -> AccountSnapshot {
    AccountSnapshot {
        key: a.key,
        owner: a.owner,
        lamports: a.lamports,
        is_signer: a.is_signer,
        is_writable: w,
        executable: a.executable,
    }
}

/// `deposit` does not ask for the state account to be writable: its answer
/// is the same whether the state account is passed writable or not.
pub proof fn law_deposit_ignores_state_writability(a: Deposit, program_id: Seq<u8>, ids: ProgramIds, w: bool)
    ensures
        deposit_checks(
            Deposit {
                system_program: a.system_program,
                user: a.user,
                vault_state: with_state_writable(a.vault_state, w),
                vault: a.vault,
            },
            program_id,
            ids,
        ) == deposit_checks(a, program_id, ids),
{
    let b = Deposit {
        system_program: a.system_program,
        user: a.user,
        vault_state: with_state_writable(a.vault_state, w),
        vault: a.vault,
    };
    assert(b.vault_state.account.key@ == a.vault_state.account.key@);
    assert(b.vault_state.account.owner@ == a.vault_state.account.owner@);
}

/// `withdraw` asks for neither the user nor the state account to be
/// writable: its answer is the same whatever their writability.
pub proof fn law_withdraw_ignores_user_and_state_writability(
    a: Withdraw,
    program_id: Seq<u8>,
    ids: ProgramIds,
    wu: bool,
    ws: bool,
)
    ensures
        withdraw_checks(
            Withdraw {
                system_program: a.system_program,
                user: with_writable(a.user, wu),
                vault_state: with_state_writable(a.vault_state, ws),
                vault: a.vault,
            },
            program_id,
            ids,
        ) == withdraw_checks(a, program_id, ids),
{
    let b = Withdraw {
        system_program: a.system_program,
        user: with_writable(a.user, wu),
        vault_state: with_state_writable(a.vault_state, ws),
        vault: a.vault,
    };
    assert(b.vault_state.account.key@ == a.vault_state.account.key@);
    assert(b.vault_state.account.owner@ == a.vault_state.account.owner@);
    assert(b.user.key@ == a.user.key@);
}

/// The address that `["state", user]` with `bump` creates is `key`.
proof fn lemma_state_address(user: Seq<u8>, bump: u8, program_id: Seq<u8>, key: Seq<u8>)
    ensures
        (bump_check(state_seeds(user), bump, program_id, key) is Ok) == (created_program_address(
            seq![state_tag(), user, seq![bump]],
            program_id,
        ) == Some(key)),
{
    assert(with_bump(state_seeds(user), bump) =~= seq![state_tag(), user, seq![bump]]);
}

/// The address that `["vault", state]` with `bump` creates is `key`.
proof fn lemma_vault_address(state: Seq<u8>, bump: u8, program_id: Seq<u8>, key: Seq<u8>)
    ensures
        (bump_check(vault_seeds(state), bump, program_id, key) is Ok) == (created_program_address(
            seq![vault_tag(), state, seq![bump]],
            program_id,
        ) == Some(key)),
{
    assert(with_bump(vault_seeds(state), bump) =~= seq![vault_tag(), state, seq![bump]]);
}

/// `deposit` accepts its accounts exactly when the system program is passed;
/// the user signs and is writable; the state account belongs to the program
/// (and is not an emptied account of the system program) and sits at the
/// address that `"state"`, the user and the recorded state bump create; the
/// vault belongs to the system program, is writable, and sits at the
/// address that `"vault"`, the state account and the recorded vault bump
/// create.  Nothing else is asked: the state account may be read-only.
pub proof fn law_deposit_accepts_exactly(a: Deposit, program_id: Seq<u8>, ids: ProgramIds)
    ensures
        deposit_checks(a, program_id, ids) is Ok <==> {
            &&& a.system_program.key@ == ids.system_program@
            &&& a.system_program.executable
            &&& a.user.is_signer
            &&& a.user.is_writable
            &&& a.vault_state.account.owner@ == program_id
            &&& !(a.vault_state.account.owner@ == ids.system_program@ && a.vault_state.account.lamports == 0)
            &&& created_program_address(
                seq![state_tag(), a.user.key@, seq![a.vault_state.data.state_bump]],
                program_id,
            ) == Some(a.vault_state.account.key@)
            &&& a.vault.owner@ == ids.system_program@
            &&& a.vault.is_writable
            &&& created_program_address(
                seq![vault_tag(), a.vault_state.account.key@, seq![a.vault_state.data.vault_bump]],
                program_id,
            ) == Some(a.vault.key@)
        },
{
    lemma_state_address(a.user.key@, a.vault_state.data.state_bump, program_id, a.vault_state.account.key@);
    lemma_vault_address(a.vault_state.account.key@, a.vault_state.data.vault_bump, program_id, a.vault.key@);
}

/// `withdraw` accepts its accounts exactly when the system program is passed;
/// the user signs; the state account belongs to the program (and is not an
/// emptied account of the system program) and sits at the address that
/// `"state"`, the user and the recorded state bump create; the vault belongs
/// to the system program, is writable, and sits at the address that
/// `"vault"`, the state account and the recorded vault bump create.  Neither
/// the user nor the state account need be writable.
pub proof fn law_withdraw_accepts_exactly(a: Withdraw, program_id: Seq<u8>, ids: ProgramIds)
    ensures
        withdraw_checks(a, program_id, ids) is Ok <==> {
            &&& a.system_program.key@ == ids.system_program@
            &&& a.system_program.executable
            &&& a.user.is_signer
            &&& a.vault_state.account.owner@ == program_id
            &&& !(a.vault_state.account.owner@ == ids.system_program@ && a.vault_state.account.lamports == 0)
            &&& created_program_address(
                seq![state_tag(), a.user.key@, seq![a.vault_state.data.state_bump]],
                program_id,
            ) == Some(a.vault_state.account.key@)
            &&& a.vault.owner@ == ids.system_program@
            &&& a.vault.is_writable
            &&& created_program_address(
                seq![vault_tag(), a.vault_state.account.key@, seq![a.vault_state.data.vault_bump]],
                program_id,
            ) == Some(a.vault.key@)
        },
{
    lemma_state_address(a.user.key@, a.vault_state.data.state_bump, program_id, a.vault_state.account.key@);
    lemma_vault_address(a.vault_state.account.key@, a.vault_state.data.vault_bump, program_id, a.vault.key@);
}

/// `close` accepts its accounts exactly when the system program is passed;
/// the user signs; the state account belongs to the program (and is not an
/// emptied account of the system program), sits at the address that
/// `"state"`, the user and the recorded state bump create, is writable and
/// is not the user's own account; the vault belongs to the system program,
/// is writable, and sits at the address that `"vault"`, the state account
/// and the recorded vault bump create.  The user need not be writable.
pub proof fn law_close_accepts_exactly(a: Close, program_id: Seq<u8>, ids: ProgramIds)
    ensures
        close_checks(a, program_id, ids) is Ok <==> {
            &&& a.system_program.key@ == ids.system_program@
            &&& a.system_program.executable
            &&& a.user.is_signer
            &&& a.vault_state.account.owner@ == program_id
            &&& !(a.vault_state.account.owner@ == ids.system_program@ && a.vault_state.account.lamports == 0)
            &&& created_program_address(
                seq![state_tag(), a.user.key@, seq![a.vault_state.data.state_bump]],
                program_id,
            ) == Some(a.vault_state.account.key@)
            &&& a.vault_state.account.is_writable
            &&& a.vault_state.account.key@ != a.user.key@
            &&& a.vault.owner@ == ids.system_program@
            &&& a.vault.is_writable
            &&& created_program_address(
                seq![vault_tag(), a.vault_state.account.key@, seq![a.vault_state.data.vault_bump]],
                program_id,
            ) == Some(a.vault.key@)
        },
{
    lemma_state_address(a.user.key@, a.vault_state.data.state_bump, program_id, a.vault_state.account.key@);
    lemma_vault_address(a.vault_state.account.key@, a.vault_state.data.vault_bump, program_id, a.vault.key@);
}

/// `initialize` accepts its accounts, with the bumps `b`, exactly when the
/// system program is passed; the user signs and is writable; the vault
/// belongs to the system program and is writable; the state account is the
/// canonical PDA of `"state"` and the user, with bump `b.vault_state`; and
/// the vault is the canonical PDA of `"vault"` and the state account, with
/// bump `b.vault`.
pub proof fn law_initialize_accepts_exactly(a: Initialize, program_id: Seq<u8>, ids: ProgramIds, b: InitializeBumps)
    ensures
        initialize_checks(a, program_id, ids) == Ok::<InitializeBumps, ConstraintError>(b) <==> {
            &&& a.system_program.key@ == ids.system_program@
            &&& a.system_program.executable
            &&& a.user.is_signer
            &&& a.user.is_writable
            &&& a.vault.owner@ == ids.system_program@
            &&& a.vault.is_writable
            &&& canonical_pda(seq![state_tag(), a.user.key@], program_id, a.vault_state.key@, b.vault_state)
            &&& canonical_pda(seq![vault_tag(), a.vault_state.key@], program_id, a.vault.key@, b.vault)
        },
{
    law_canonical_pda_check(state_seeds(a.user.key@), program_id, a.vault_state.key@, b.vault_state);
    law_canonical_pda_check(vault_seeds(a.vault_state.key@), program_id, a.vault.key@, b.vault);
}

/// The state account that `initialize` creates is paid by the user, holds
/// `VAULT_STATE_SPACE` bytes, belongs to the program, and is signed for with
/// `"state"`, the user and the state bump: the seeds that derive it.
pub proof fn law_state_creation_is_the_users(a: Initialize, program_id: Seq<u8>, ids: ProgramIds)
    requires
        initialize_init_checks(a, program_id, ids) is Ok,
    ensures
        ({
            let c = vault_state_creation(a, program_id, initialize_init_checks(a, program_id, ids)->Ok_0);
            &&& c.payer == a.user.key@
            &&& c.account == a.vault_state.key@
            &&& c.space == VAULT_STATE_SPACE
            &&& c.owner == program_id
            &&& c.signer_seeds == seq![
                state_tag(),
                a.user.key@,
                seq![initialize_init_checks(a, program_id, ids)->Ok_0],
            ]
            &&& created_program_address(c.signer_seeds, program_id) == Some(a.vault_state.key@)
        }),
{
    let bump = initialize_init_checks(a, program_id, ids)->Ok_0;
    assert(with_bump(state_seeds(a.user.key@), bump) =~= seq![state_tag(), a.user.key@, seq![bump]]);
    law_canonical_pda_check(state_seeds(a.user.key@), program_id, a.vault_state.key@, bump);
}

/// The state that `initialize` records holds the two canonical bumps it
/// found, each in its own field: the state account's and the vault's.
pub proof fn law_initialize_records_found_bumps(a: Initialize, program_id: Seq<u8>, ids: ProgramIds)
    requires
        initialize_checks(a, program_id, ids) is Ok,
    ensures
        canonical_pda(
            seq![state_tag(), a.user.key@],
            program_id,
            a.vault_state.key@,
            recorded_state(a, program_id, ids).state_bump,
        ),
        canonical_pda(
            seq![vault_tag(), a.vault_state.key@],
            program_id,
            a.vault.key@,
            recorded_state(a, program_id, ids).vault_bump,
        ),
{
    law_initialize_accepts_exactly(a, program_id, ids, initialize_checks(a, program_id, ids)->Ok_0);
}

/// `initialize` funds the vault with exactly the rent-exempt minimum it is
/// given, from the user's account, and the user signs for it: the program
/// adds no seeds.
pub proof fn law_initialize_funds_vault_from_user(a: Initialize, rent_exempt: u64)
    ensures
        initialize_transfer(a, rent_exempt).lamports == rent_exempt,
        initialize_transfer(a, rent_exempt).from == a.user.key@,
        initialize_transfer(a, rent_exempt).to == a.vault.key@,
        initialize_transfer(a, rent_exempt).signer_seeds is None,
{
}

/// The accounts of `deposit`, `withdraw` and `close` are type-checked in the
/// order in which they are declared (system program, user, state account,
/// vault), and the first that fails names the error.
pub proof fn law_vault_user_types_in_declared_order(
    system_program: AccountSnapshot,
    user: AccountSnapshot,
    state: VaultStateAccount,
    vault: AccountSnapshot,
    program_id: Seq<u8>,
    ids: ProgramIds,
)
    ensures
        program_check(system_program, ids.system_program@) is Err ==> vault_user_type_checks(
            system_program,
            user,
            state,
            vault,
            program_id,
            ids,
        ) == program_check(system_program, ids.system_program@),
        program_check(system_program, ids.system_program@) is Ok && signer_check(user) is Err
            ==> vault_user_type_checks(system_program, user, state, vault, program_id, ids) == signer_check(user),
        program_check(system_program, ids.system_program@) is Ok && signer_check(user) is Ok
            && program_account_check(state.account, ids, program_id) is Err ==> vault_user_type_checks(
            system_program,
            user,
            state,
            vault,
            program_id,
            ids,
        ) == program_account_check(state.account, ids, program_id),
        program_check(system_program, ids.system_program@) is Ok && signer_check(user) is Ok
            && program_account_check(state.account, ids, program_id) is Ok ==> vault_user_type_checks(
            system_program,
            user,
            state,
            vault,
            program_id,
            ids,
        ) == system_account_check(vault, ids),
{
}

/// A failed account type is reported before any constraint: where the
/// account types of `deposit`, `withdraw` or `close` fail, the instruction
/// fails with that error, whatever the constraints say.
pub proof fn law_vault_types_reported_first(d: Deposit, w: Withdraw, c: Close, program_id: Seq<u8>, ids: ProgramIds)
    ensures
        vault_user_type_checks(d.system_program, d.user, d.vault_state, d.vault, program_id, ids) is Err
            ==> deposit_checks(d, program_id, ids) == vault_user_type_checks(
            d.system_program,
            d.user,
            d.vault_state,
            d.vault,
            program_id,
            ids,
        ),
        vault_user_type_checks(w.system_program, w.user, w.vault_state, w.vault, program_id, ids) is Err
            ==> withdraw_checks(w, program_id, ids) == vault_user_type_checks(
            w.system_program,
            w.user,
            w.vault_state,
            w.vault,
            program_id,
            ids,
        ),
        vault_user_type_checks(c.system_program, c.user, c.vault_state, c.vault, program_id, ids) is Err
            ==> close_checks(c, program_id, ids) == vault_user_type_checks(
            c.system_program,
            c.user,
            c.vault_state,
            c.vault,
            program_id,
            ids,
        ),
{
}

} // verus!
