use anchor_lang::prelude::Pubkey;
use anchor_vault_escrow::accounts::{AccountSnapshot, ConstraintError, ProgramIds};
use anchor_vault_escrow::vault::{
    close, deposit, initialize, initialize_accounts, state_tag_bytes, vault_tag_bytes, withdraw, Close, Deposit, Initialize,
    InitializeBumps, VaultState, VaultStateAccount, Withdraw, VAULT_STATE_SPACE,
};

fn program_id() -> Pubkey {
    Pubkey::new_from_array([7u8; 32])
}

fn user_key() -> Pubkey {
    Pubkey::new_from_array([42u8; 32])
}

fn snapshot(key: Pubkey, owner: Pubkey, lamports: u64, signer: bool, writable: bool) -> AccountSnapshot {
    AccountSnapshot {
        key: key.to_bytes(),
        owner: owner.to_bytes(),
        lamports,
        is_signer: signer,
        is_writable: writable,
        executable: false,
    }
}

fn ids() -> ProgramIds {
    ProgramIds {
        system_program: anchor_lang::system_program::ID.to_bytes(),
        token_program: anchor_spl::token::ID.to_bytes(),
        token_2022_program: anchor_spl::token_2022::ID.to_bytes(),
        associated_token_program: anchor_spl::associated_token::ID.to_bytes(),
    }
}

fn system_program_account() -> AccountSnapshot {
    let mut a = snapshot(anchor_lang::system_program::ID, Pubkey::new_from_array([1u8; 32]), 1, false, false);
    a.executable = true;
    a
}

fn pdas() -> (Pubkey, u8, Pubkey, u8) {
    let user = user_key();
    let (state, state_bump) = Pubkey::find_program_address(&[b"state", user.as_ref()], &program_id());
    let (vault, vault_bump) = Pubkey::find_program_address(&[b"vault", state.as_ref()], &program_id());
    (state, state_bump, vault, vault_bump)
}

fn init_accounts() -> Initialize {
    let (state, _, vault, _) = pdas();
    let sys = anchor_lang::system_program::ID;
    Initialize {
        system_program: system_program_account(),
        user: snapshot(user_key(), sys, 5_000_000, true, true),
        vault_state: snapshot(state, sys, 0, false, true),
        vault: snapshot(vault, sys, 0, false, true),
    }
}

fn recorded() -> VaultStateAccount {
    let (state, state_bump, _, vault_bump) = pdas();
    VaultStateAccount {
        account: snapshot(state, program_id(), 1_000_000, false, true),
        data: VaultState { vault_bump, state_bump },
    }
}

fn deposit_accounts() -> Deposit {
    let (_, _, vault, _) = pdas();
    let sys = anchor_lang::system_program::ID;
    Deposit {
        system_program: system_program_account(),
        user: snapshot(user_key(), sys, 5_000_000, true, true),
        vault_state: recorded(),
        vault: snapshot(vault, sys, 890_880, false, true),
    }
}

#[test]
fn seed_tags_are_the_literal_strings() {
    assert_eq!(state_tag_bytes(), b"state".to_vec());
    assert_eq!(vault_tag_bytes(), b"vault".to_vec());
}

#[test]
fn initialize_finds_canonical_bumps() {
    let (state, state_bump, vault, vault_bump) = pdas();
    let accounts = init_accounts();
    let out = initialize(&program_id().to_bytes(), &ids(), &accounts, 890_880).unwrap();
    assert_eq!(out.bumps, InitializeBumps { vault_state: state_bump, vault: vault_bump });
    assert_eq!(out.state, VaultState { vault_bump, state_bump });
    assert_eq!(out.transfer.from, user_key().to_bytes());
    assert_eq!(out.transfer.to, vault.to_bytes());
    assert_eq!(out.transfer.lamports, 890_880);
    assert!(out.transfer.signer_seeds.is_none());
    assert_eq!(out.create_vault_state.payer, user_key().to_bytes());
    assert_eq!(out.create_vault_state.account, state.to_bytes());
    assert_eq!(out.create_vault_state.space, VAULT_STATE_SPACE);
    assert_eq!(VAULT_STATE_SPACE, 10);
    assert_eq!(out.create_vault_state.owner, program_id().to_bytes());
    assert_eq!(
        out.create_vault_state.signer_seeds,
        vec![b"state".to_vec(), user_key().to_bytes().to_vec(), vec![state_bump]]
    );
}

#[test]
fn initialize_rejects_wrong_state_address() {
    let mut accounts = init_accounts();
    accounts.vault_state.key = [9u8; 32];
    assert_eq!(
        initialize(&program_id().to_bytes(), &ids(), &accounts, 1).unwrap_err(),
        ConstraintError::ConstraintSeeds
    );
}

#[test]
fn initialize_plans_state_creation_before_user_check() {
    let (state, state_bump, _, _) = pdas();
    let mut accounts = init_accounts();
    accounts.user.is_writable = false;
    let c = initialize_accounts(&program_id().to_bytes(), &ids(), &accounts).unwrap();
    assert_eq!(c.account, state.to_bytes());
    assert_eq!(c.signer_seeds, vec![b"state".to_vec(), user_key().to_bytes().to_vec(), vec![state_bump]]);
    accounts.vault_state.key = [9u8; 32];
    assert_eq!(
        initialize_accounts(&program_id().to_bytes(), &ids(), &accounts).unwrap_err(),
        ConstraintError::ConstraintSeeds
    );
}

#[test]
fn initialize_rejects_read_only_user() {
    let mut accounts = init_accounts();
    accounts.user.is_writable = false;
    assert_eq!(initialize(&program_id().to_bytes(), &ids(), &accounts, 1).unwrap_err(), ConstraintError::ConstraintMut);
}

#[test]
fn initialize_rejects_wrong_vault_address() {
    let mut accounts = init_accounts();
    accounts.vault.key = user_key().to_bytes();
    assert_eq!(
        initialize(&program_id().to_bytes(), &ids(), &accounts, 1).unwrap_err(),
        ConstraintError::ConstraintSeeds
    );
}

#[test]
fn initialize_rejects_read_only_vault() {
    let mut accounts = init_accounts();
    accounts.vault.is_writable = false;
    assert_eq!(initialize(&program_id().to_bytes(), &ids(), &accounts, 1).unwrap_err(), ConstraintError::ConstraintMut);
}

#[test]
fn initialize_under_another_program_rejects_the_state() {
    let accounts = init_accounts();
    let other = Pubkey::new_from_array([8u8; 32]);
    assert_eq!(initialize(&other.to_bytes(), &ids(), &accounts, 1).unwrap_err(), ConstraintError::ConstraintSeeds);
}

#[test]
fn deposit_moves_amount_into_vault() {
    let accounts = deposit_accounts();
    let t = deposit(&program_id().to_bytes(), &ids(), &accounts, 250).unwrap();
    assert_eq!(t.from, user_key().to_bytes());
    assert_eq!(t.to, accounts.vault.key);
    assert_eq!(t.lamports, 250);
    assert!(t.signer_seeds.is_none());
}

#[test]
fn deposit_rejects_wrong_recorded_bump() {
    let mut accounts = deposit_accounts();
    accounts.vault_state.data.state_bump = accounts.vault_state.data.state_bump.wrapping_sub(1);
    assert_eq!(
        deposit(&program_id().to_bytes(), &ids(), &accounts, 1).unwrap_err(),
        ConstraintError::ConstraintSeeds
    );
}

#[test]
fn deposit_rejects_wrong_vault_bump() {
    let mut accounts = deposit_accounts();
    accounts.vault_state.data.vault_bump = accounts.vault_state.data.vault_bump.wrapping_add(1);
    assert_eq!(
        deposit(&program_id().to_bytes(), &ids(), &accounts, 1).unwrap_err(),
        ConstraintError::ConstraintSeeds
    );
}

#[test]
fn deposit_rejects_read_only_user_and_vault() {
    let mut accounts = deposit_accounts();
    accounts.user.is_writable = false;
    assert_eq!(deposit(&program_id().to_bytes(), &ids(), &accounts, 1).unwrap_err(), ConstraintError::ConstraintMut);
    let mut accounts = deposit_accounts();
    accounts.vault.is_writable = false;
    assert_eq!(deposit(&program_id().to_bytes(), &ids(), &accounts, 1).unwrap_err(), ConstraintError::ConstraintMut);
}

#[test]
fn deposit_rejects_another_users_state() {
    let mut accounts = deposit_accounts();
    accounts.user.key = [43u8; 32];
    assert_eq!(
        deposit(&program_id().to_bytes(), &ids(), &accounts, 1).unwrap_err(),
        ConstraintError::ConstraintSeeds
    );
}

#[test]
fn withdraw_signs_with_vault_seeds() {
    let d = deposit_accounts();
    let w = Withdraw { system_program: d.system_program, user: d.user, vault_state: d.vault_state, vault: d.vault };
    let t = withdraw(&program_id().to_bytes(), &ids(), &w, 300).unwrap();
    let (state, _, vault, vault_bump) = pdas();
    assert_eq!(t.from, vault.to_bytes());
    assert_eq!(t.to, user_key().to_bytes());
    assert_eq!(t.lamports, 300);
    let seeds = t.signer_seeds.unwrap();
    assert_eq!(seeds, vec![b"vault".to_vec(), state.to_bytes().to_vec(), vec![vault_bump]]);
    let refs: Vec<&[u8]> = seeds.iter().map(|s| s.as_slice()).collect();
    assert_eq!(Pubkey::create_program_address(&refs, &program_id()).unwrap(), vault);
}

#[test]
fn withdraw_accepts_read_only_user_but_not_read_only_vault() {
    let d = deposit_accounts();
    let mut w = Withdraw { system_program: d.system_program, user: d.user, vault_state: d.vault_state, vault: d.vault };
    w.user.is_writable = false;
    assert!(withdraw(&program_id().to_bytes(), &ids(), &w, 1).is_ok());
    w.vault.is_writable = false;
    assert_eq!(withdraw(&program_id().to_bytes(), &ids(), &w, 1).unwrap_err(), ConstraintError::ConstraintMut);
}

#[test]
fn close_empties_vault_and_closes_state() {
    let d = deposit_accounts();
    let c = Close { system_program: d.system_program, user: d.user, vault_state: d.vault_state, vault: d.vault };
    let out = close(&program_id().to_bytes(), &ids(), &c).unwrap();
    assert_eq!(out.transfer.lamports, 890_880);
    assert_eq!(out.transfer.from, c.vault.key);
    assert_eq!(out.transfer.to, user_key().to_bytes());
    assert_eq!(out.close_state.account, c.vault_state.account.key);
    assert_eq!(out.close_state.destination, user_key().to_bytes());
    let seeds = out.transfer.signer_seeds.unwrap();
    let refs: Vec<&[u8]> = seeds.iter().map(|s| s.as_slice()).collect();
    assert_eq!(Pubkey::create_program_address(&refs, &program_id()).unwrap().to_bytes(), c.vault.key);
}

#[test]
fn close_rejects_read_only_state() {
    let d = deposit_accounts();
    let mut c = Close { system_program: d.system_program, user: d.user, vault_state: d.vault_state, vault: d.vault };
    c.vault_state.account.is_writable = false;
    assert_eq!(close(&program_id().to_bytes(), &ids(), &c).unwrap_err(), ConstraintError::ConstraintMut);
}

#[test]
fn initialized_vault_is_accepted_by_later_instructions() {
    let accounts = init_accounts();
    let out = initialize(&program_id().to_bytes(), &ids(), &accounts, 1).unwrap();
    let mut created = accounts.vault_state;
    created.owner = program_id().to_bytes();
    created.lamports = 1_000;
    let d = Deposit {
        system_program: accounts.system_program,
        user: accounts.user,
        vault_state: VaultStateAccount { account: created, data: out.state },
        vault: accounts.vault,
    };
    assert!(deposit(&program_id().to_bytes(), &ids(), &d, 10).is_ok());
    let w = Withdraw { system_program: d.system_program, user: d.user, vault_state: d.vault_state, vault: d.vault };
    assert!(withdraw(&program_id().to_bytes(), &ids(), &w, 10).is_ok());
    let c = Close { system_program: d.system_program, user: d.user, vault_state: d.vault_state, vault: d.vault };
    assert!(close(&program_id().to_bytes(), &ids(), &c).is_ok());
}

#[test]
fn type_checks_come_first() {
    let mut accounts = init_accounts();
    accounts.system_program.executable = false;
    accounts.vault_state.key = [9u8; 32];
    assert_eq!(
        initialize(&program_id().to_bytes(), &ids(), &accounts, 1).unwrap_err(),
        ConstraintError::InvalidProgramExecutable
    );
    let mut accounts = init_accounts();
    accounts.system_program.key = [2u8; 32];
    assert_eq!(
        initialize(&program_id().to_bytes(), &ids(), &accounts, 1).unwrap_err(),
        ConstraintError::InvalidProgramId
    );
    let mut accounts = init_accounts();
    accounts.user.is_signer = false;
    assert_eq!(
        initialize(&program_id().to_bytes(), &ids(), &accounts, 1).unwrap_err(),
        ConstraintError::AccountNotSigner
    );
    let mut accounts = init_accounts();
    accounts.vault.owner = program_id().to_bytes();
    assert_eq!(
        initialize(&program_id().to_bytes(), &ids(), &accounts, 1).unwrap_err(),
        ConstraintError::AccountNotSystemOwned
    );
}

#[test]
fn state_account_must_be_the_programs() {
    let mut d = deposit_accounts();
    d.vault_state.account.owner = anchor_lang::system_program::ID.to_bytes();
    d.vault_state.account.lamports = 0;
    assert_eq!(
        deposit(&program_id().to_bytes(), &ids(), &d, 1).unwrap_err(),
        ConstraintError::AccountNotInitialized
    );
    d.vault_state.account.lamports = 5;
    assert_eq!(
        deposit(&program_id().to_bytes(), &ids(), &d, 1).unwrap_err(),
        ConstraintError::AccountOwnedByWrongProgram
    );
}

#[test]
fn closed_state_is_refused_later() {
    let mut d = deposit_accounts();
    d.vault_state.account.owner = anchor_lang::system_program::ID.to_bytes();
    d.vault_state.account.lamports = 0;
    let w = Withdraw { system_program: d.system_program, user: d.user, vault_state: d.vault_state, vault: d.vault };
    let c = Close { system_program: d.system_program, user: d.user, vault_state: d.vault_state, vault: d.vault };
    assert_eq!(
        deposit(&program_id().to_bytes(), &ids(), &d, 1).unwrap_err(),
        ConstraintError::AccountNotInitialized
    );
    assert_eq!(
        withdraw(&program_id().to_bytes(), &ids(), &w, 1).unwrap_err(),
        ConstraintError::AccountNotInitialized
    );
    assert_eq!(close(&program_id().to_bytes(), &ids(), &c).unwrap_err(), ConstraintError::AccountNotInitialized);
}

#[test]
fn withdraw_reverses_deposit() {
    let d = deposit_accounts();
    let w = Withdraw { system_program: d.system_program, user: d.user, vault_state: d.vault_state, vault: d.vault };
    let td = deposit(&program_id().to_bytes(), &ids(), &d, 77).unwrap();
    let tw = withdraw(&program_id().to_bytes(), &ids(), &w, 77).unwrap();
    assert_eq!(td.from, tw.to);
    assert_eq!(td.to, tw.from);
    assert_eq!(td.lamports, tw.lamports);
}
