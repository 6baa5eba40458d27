use anchor_lang::prelude::Pubkey;
use anchor_spl::associated_token::get_associated_token_address_with_program_id;
use anchor_vault_escrow::accounts::{
    associated_token_address, AccountSnapshot, ConstraintError, ProgramIds, MaybeTokenAccount, MintSnapshot, TokenAccountData,
    TokenAccountSnapshot,
};
use anchor_vault_escrow::escrow::make::{make, make_accounts, Make, MakeBumps};
use anchor_vault_escrow::escrow::refund::{refund, Refund};
use anchor_vault_escrow::escrow::state::{escrow_seeds_of, escrow_tag_bytes, Escrow, EscrowAccount, ESCROW_SPACE};
use anchor_vault_escrow::escrow::take::{take, Take};

fn program_id() -> Pubkey {
    Pubkey::new_from_array([3u8; 32])
}
fn maker() -> Pubkey {
    Pubkey::new_from_array([11u8; 32])
}
fn taker() -> Pubkey {
    Pubkey::new_from_array([12u8; 32])
}
fn mint_x() -> Pubkey {
    Pubkey::new_from_array([21u8; 32])
}
fn mint_y() -> Pubkey {
    Pubkey::new_from_array([22u8; 32])
}
fn token_program() -> Pubkey {
    anchor_spl::token::ID
}
fn ata_program() -> Pubkey {
    anchor_spl::associated_token::ID
}
fn system() -> Pubkey {
    anchor_lang::system_program::ID
}
const SEED: u64 = 0x0102_0304_0506_0708;

fn snap(key: Pubkey, owner: Pubkey, lamports: u64, writable: bool) -> AccountSnapshot {
    AccountSnapshot {
        key: key.to_bytes(),
        owner: owner.to_bytes(),
        lamports,
        is_signer: false,
        is_writable: writable,
        executable: false,
    }
}
fn program_account(key: Pubkey) -> AccountSnapshot {
    let mut a = snap(key, Pubkey::new_from_array([1u8; 32]), 1, false);
    a.executable = true;
    a
}
fn signer(key: Pubkey, lamports: u64) -> AccountSnapshot {
    let mut a = snap(key, system(), lamports, true);
    a.is_signer = true;
    a
}
fn ids() -> ProgramIds {
    ProgramIds {
        system_program: system().to_bytes(),
        token_program: token_program().to_bytes(),
        token_2022_program: anchor_spl::token_2022::ID.to_bytes(),
        associated_token_program: ata_program().to_bytes(),
    }
}
fn ata(wallet: Pubkey, mint: Pubkey) -> Pubkey {
    get_associated_token_address_with_program_id(&wallet, &mint, &token_program())
}
fn token_acct(wallet: Pubkey, mint: Pubkey, lamports: u64) -> TokenAccountSnapshot {
    TokenAccountSnapshot {
        account: snap(ata(wallet, mint), token_program(), lamports, true),
        data: TokenAccountData { mint: mint.to_bytes(), authority: wallet.to_bytes() },
    }
}
fn mint(key: Pubkey, decimals: u8) -> MintSnapshot {
    MintSnapshot { account: snap(key, token_program(), 1, false), decimals }
}
fn escrow_pda(seed: u64) -> (Pubkey, u8) {
    Pubkey::find_program_address(&[b"escrow", maker().as_ref(), &seed.to_le_bytes()], &program_id())
}

fn make_ctx() -> Make {
    let (escrow, _) = escrow_pda(SEED);
    let maker_acct = signer(maker(), 10_000_000);
    Make {
        system_program: program_account(system()),
        token_program: program_account(token_program()),
        associated_token_program: program_account(ata_program()),
        maker: maker_acct,
        mint_x: mint(mint_x(), 6),
        mint_y: mint(mint_y(), 9),
        maker_ata_x: token_acct(maker(), mint_x(), 2_039_280),
        escrow: snap(escrow, system(), 0, true),
        vault: snap(ata(maker(), mint_x()), system(), 0, true),
    }
}

fn recorded_escrow() -> EscrowAccount {
    let (escrow, bump) = escrow_pda(SEED);
    EscrowAccount {
        account: snap(escrow, program_id(), 1_000_000, true),
        data: Escrow {
            seed: SEED,
            maker: maker().to_bytes(),
            mint_x: mint_x().to_bytes(),
            mint_y: mint_y().to_bytes(),
            receive: 40,
            bump,
        },
    }
}

fn refund_accounts() -> Refund {
    let m = make_ctx();
    let e = recorded_escrow();
    Refund {
        system_program: m.system_program,
        token_program: m.token_program,
        associated_token_program: m.associated_token_program,
        maker: m.maker,
        mint_x: m.mint_x,
        mint_y: m.mint_y,
        maker_ata_x: m.maker_ata_x,
        escrow: e,
        vault: token_acct(Pubkey::new_from_array(e.account.key), mint_x(), 2_039_280),
    }
}

fn take_accounts() -> Take {
    let r = refund_accounts();
    let taker_acct = signer(taker(), 9_000_000);
    Take {
        system_program: r.system_program,
        associated_token_program: r.associated_token_program,
        token_program: r.token_program,
        taker: taker_acct,
        maker: snap(maker(), system(), 10_000_000, false),
        mint_x: r.mint_x,
        mint_y: r.mint_y,
        maker_ata_x: r.maker_ata_x,
        taker_ata_x: MaybeTokenAccount { account: snap(ata(taker(), mint_x()), system(), 0, true), data: None, rent_exempt: false },
        maker_ata_y: MaybeTokenAccount { account: snap(ata(maker(), mint_y()), system(), 0, true), data: None, rent_exempt: false },
        taker_ata_y: token_acct(maker(), mint_x(), 2_039_280),
        escrow: r.escrow,
        vault: r.vault,
    }
}

#[test]
fn escrow_seeds_use_little_endian_seed() {
    assert_eq!(escrow_tag_bytes(), b"escrow".to_vec());
    let seeds = escrow_seeds_of(&maker().to_bytes(), SEED);
    assert_eq!(seeds, vec![b"escrow".to_vec(), maker().to_bytes().to_vec(), SEED.to_le_bytes().to_vec()]);
    assert_eq!(seeds[2], vec![8, 7, 6, 5, 4, 3, 2, 1]);
}

#[test]
fn associated_token_address_matches_anchor_spl() {
    let got = associated_token_address(
        &maker().to_bytes(),
        &mint_x().to_bytes(),
        &token_program().to_bytes(),
        &ata_program().to_bytes(),
    );
    assert_eq!(got, Some(ata(maker(), mint_x()).to_bytes()));
    let other = associated_token_address(
        &taker().to_bytes(),
        &mint_x().to_bytes(),
        &token_program().to_bytes(),
        &ata_program().to_bytes(),
    );
    assert_eq!(other, Some(ata(taker(), mint_x()).to_bytes()));
    assert_ne!(got, other);
}

#[test]
fn make_records_escrow_and_deposits() {
    let accounts = make_ctx();
    let (escrow, bump) = escrow_pda(SEED);
    let out = make(&program_id().to_bytes(), &ids(), &accounts, SEED, 1_000, 40).unwrap();
    assert_eq!(out.bumps, MakeBumps { escrow: bump });
    assert_eq!(
        out.escrow,
        Escrow {
            seed: SEED,
            maker: maker().to_bytes(),
            mint_x: mint_x().to_bytes(),
            mint_y: mint_y().to_bytes(),
            receive: 40,
            bump
        }
    );
    assert_eq!(out.create_escrow.account, escrow.to_bytes());
    assert_eq!(out.create_escrow.space, ESCROW_SPACE);
    assert_eq!(ESCROW_SPACE, 121);
    assert_eq!(out.create_escrow.owner, program_id().to_bytes());
    assert_eq!(
        out.create_escrow.signer_seeds,
        vec![b"escrow".to_vec(), maker().to_bytes().to_vec(), SEED.to_le_bytes().to_vec(), vec![bump]]
    );
    assert_eq!(out.create_vault.associated, ata(maker(), mint_x()).to_bytes());
    assert_eq!(out.create_vault.authority, maker().to_bytes());
    assert_eq!(out.create_vault.mint, mint_x().to_bytes());
    assert_eq!(out.transfer.from, ata(maker(), mint_x()).to_bytes());
    assert_eq!(out.transfer.to, ata(maker(), mint_x()).to_bytes());
    assert_eq!(out.transfer.authority, maker().to_bytes());
    assert_eq!(out.transfer.amount, 1_000);
    assert_eq!(out.transfer.decimals, 6);
    assert_eq!(out.transfer.token_program, token_program().to_bytes());
    assert!(out.transfer.signer_seeds.is_none());
}

#[test]
fn make_rejects_escrow_of_another_seed() {
    let accounts = make_ctx();
    assert_eq!(
        make(&program_id().to_bytes(), &ids(), &accounts, SEED + 1, 1, 1).unwrap_err(),
        ConstraintError::ConstraintSeeds
    );
}

#[test]
fn make_rejects_read_only_maker() {
    let mut accounts = make_ctx();
    accounts.maker.is_writable = false;
    assert_eq!(make(&program_id().to_bytes(), &ids(), &accounts, SEED, 1, 1).unwrap_err(), ConstraintError::ConstraintMut);
}

#[test]
fn make_rejects_mint_of_another_program() {
    let mut accounts = make_ctx();
    accounts.mint_y.account.owner = anchor_spl::token_2022::ID.to_bytes();
    assert_eq!(
        make(&program_id().to_bytes(), &ids(), &accounts, SEED, 1, 1).unwrap_err(),
        ConstraintError::ConstraintMintTokenProgram
    );
}

#[test]
fn make_rejects_bad_maker_token_account() {
    let mut accounts = make_ctx();
    accounts.maker_ata_x.account.owner = anchor_spl::token_2022::ID.to_bytes();
    assert_eq!(
        make(&program_id().to_bytes(), &ids(), &accounts, SEED, 1, 1).unwrap_err(),
        ConstraintError::ConstraintAssociatedTokenTokenProgram
    );
    let mut accounts = make_ctx();
    accounts.maker_ata_x.data.authority = taker().to_bytes();
    assert_eq!(
        make(&program_id().to_bytes(), &ids(), &accounts, SEED, 1, 1).unwrap_err(),
        ConstraintError::ConstraintTokenOwner
    );
    let mut accounts = make_ctx();
    accounts.maker_ata_x.account.key = ata(maker(), mint_y()).to_bytes();
    assert_eq!(
        make(&program_id().to_bytes(), &ids(), &accounts, SEED, 1, 1).unwrap_err(),
        ConstraintError::ConstraintAssociated
    );
    let mut accounts = make_ctx();
    accounts.maker_ata_x.account.is_writable = false;
    assert_eq!(make(&program_id().to_bytes(), &ids(), &accounts, SEED, 1, 1).unwrap_err(), ConstraintError::ConstraintMut);
}

#[test]
fn refund_signs_without_bump_and_sends_maker_account_lamports() {
    let accounts = refund_accounts();
    let out = refund(&program_id().to_bytes(), &ids(), &accounts, SEED).unwrap();
    assert_eq!(out.transfer.from, accounts.vault.account.key);
    assert_eq!(out.transfer.to, maker().to_bytes());
    assert_eq!(out.transfer.authority, accounts.escrow.account.key);
    assert_eq!(out.transfer.amount, 2_039_280);
    assert_eq!(out.transfer.decimals, 6);
    assert_eq!(
        out.transfer.signer_seeds,
        Some(vec![b"escrow".to_vec(), maker().to_bytes().to_vec(), SEED.to_le_bytes().to_vec()])
    );
    assert_eq!(out.close_escrow.account, accounts.escrow.account.key);
    assert_eq!(out.close_escrow.destination, maker().to_bytes());
}

#[test]
fn refund_rejects_wrong_seed_and_read_only_escrow() {
    let accounts = refund_accounts();
    assert_eq!(
        refund(&program_id().to_bytes(), &ids(), &accounts, SEED + 1).unwrap_err(),
        ConstraintError::ConstraintSeeds
    );
    let mut accounts = refund_accounts();
    accounts.escrow.account.is_writable = false;
    assert_eq!(refund(&program_id().to_bytes(), &ids(), &accounts, SEED).unwrap_err(), ConstraintError::ConstraintMut);
}

#[test]
fn refund_rejects_vault_not_held_for_escrow() {
    let mut accounts = refund_accounts();
    accounts.vault = token_acct(maker(), mint_x(), 1);
    assert_eq!(
        refund(&program_id().to_bytes(), &ids(), &accounts, SEED).unwrap_err(),
        ConstraintError::ConstraintTokenOwner
    );
}

#[test]
fn take_creates_missing_accounts_and_pays_maker() {
    let accounts = take_accounts();
    let out = take(&program_id().to_bytes(), &ids(), &accounts, SEED).unwrap();
    let cx = out.creations.taker_ata_x.unwrap();
    assert_eq!(cx.associated, ata(taker(), mint_x()).to_bytes());
    assert_eq!(cx.payer, taker().to_bytes());
    assert_eq!(cx.authority, taker().to_bytes());
    let cy = out.creations.maker_ata_y.unwrap();
    assert_eq!(cy.associated, ata(maker(), mint_y()).to_bytes());
    assert_eq!(cy.authority, maker().to_bytes());
    assert_eq!(cy.mint, mint_y().to_bytes());
    assert_eq!(out.payment.amount, 40);
    assert_eq!(out.payment.from, ata(maker(), mint_x()).to_bytes());
    assert_eq!(out.payment.to, ata(maker(), mint_y()).to_bytes());
    assert_eq!(out.payment.authority, taker().to_bytes());
    assert_eq!(out.payment.decimals, 9);
    assert_eq!(out.release.from, accounts.vault.account.key);
    assert_eq!(out.release.to, ata(taker(), mint_x()).to_bytes());
    assert_eq!(out.release.amount, 2_039_280);
    assert!(out.release.signer_seeds.is_none());
}

#[test]
fn take_checks_existing_token_accounts() {
    let mut accounts = take_accounts();
    accounts.taker_ata_x.account.owner = token_program().to_bytes();
    assert_eq!(
        take(&program_id().to_bytes(), &ids(), &accounts, SEED).unwrap_err(),
        ConstraintError::AccountDidNotDeserialize
    );
    accounts.taker_ata_x.data =
        Some(TokenAccountData { mint: mint_y().to_bytes(), authority: taker().to_bytes() });
    assert_eq!(
        take(&program_id().to_bytes(), &ids(), &accounts, SEED).unwrap_err(),
        ConstraintError::ConstraintTokenMint
    );
    accounts.taker_ata_x.data =
        Some(TokenAccountData { mint: mint_x().to_bytes(), authority: maker().to_bytes() });
    assert_eq!(
        take(&program_id().to_bytes(), &ids(), &accounts, SEED).unwrap_err(),
        ConstraintError::ConstraintTokenOwner
    );
    accounts.taker_ata_x.data =
        Some(TokenAccountData { mint: mint_x().to_bytes(), authority: taker().to_bytes() });
    assert_eq!(
        take(&program_id().to_bytes(), &ids(), &accounts, SEED).unwrap_err(),
        ConstraintError::ConstraintRentExempt
    );
    accounts.taker_ata_x.rent_exempt = true;
    accounts.taker_ata_x.account.is_writable = false;
    assert_eq!(
        take(&program_id().to_bytes(), &ids(), &accounts, SEED).unwrap_err(),
        ConstraintError::ConstraintMut
    );
    accounts.taker_ata_x.account.is_writable = true;
    let out = take(&program_id().to_bytes(), &ids(), &accounts, SEED).unwrap();
    assert!(out.creations.taker_ata_x.is_none());
    accounts.taker_ata_x.account.key = [77u8; 32];
    assert_eq!(
        take(&program_id().to_bytes(), &ids(), &accounts, SEED).unwrap_err(),
        ConstraintError::AccountNotAssociatedTokenAccount
    );
    accounts.taker_ata_x.account.key = ata(taker(), mint_x()).to_bytes();
    accounts.taker_ata_x.account.owner = [5u8; 32];
    assert_eq!(
        take(&program_id().to_bytes(), &ids(), &accounts, SEED).unwrap_err(),
        ConstraintError::AccountOwnedByWrongProgram
    );
    accounts.taker_ata_x.account.owner = anchor_spl::token_2022::ID.to_bytes();
    assert_eq!(
        take(&program_id().to_bytes(), &ids(), &accounts, SEED).unwrap_err(),
        ConstraintError::ConstraintAssociatedTokenTokenProgram
    );
}

#[test]
fn take_rejects_read_only_taker() {
    let mut accounts = take_accounts();
    accounts.taker.is_writable = false;
    assert_eq!(take(&program_id().to_bytes(), &ids(), &accounts, SEED).unwrap_err(), ConstraintError::ConstraintMut);
}

#[test]
fn take_rejects_wrong_escrow_bump() {
    let mut accounts = take_accounts();
    accounts.escrow.data.bump = accounts.escrow.data.bump.wrapping_sub(1);
    assert_eq!(take(&program_id().to_bytes(), &ids(), &accounts, SEED).unwrap_err(), ConstraintError::ConstraintSeeds);
}

#[test]
fn made_escrow_is_accepted_by_refund_and_take() {
    let m = make_ctx();
    let out = make(&program_id().to_bytes(), &ids(), &m, SEED, 1, 40).unwrap();
    let mut r = refund_accounts();
    r.escrow.data = out.escrow;
    assert!(refund(&program_id().to_bytes(), &ids(), &r, SEED).is_ok());
    let mut t = take_accounts();
    t.escrow.data = out.escrow;
    let paid = take(&program_id().to_bytes(), &ids(), &t, SEED).unwrap();
    assert_eq!(paid.payment.amount, 40);
}

#[test]
fn escrow_type_checks() {
    let mut accounts = make_ctx();
    accounts.token_program = program_account(Pubkey::new_from_array([4u8; 32]));
    assert_eq!(
        make(&program_id().to_bytes(), &ids(), &accounts, SEED, 1, 1).unwrap_err(),
        ConstraintError::InvalidProgramId
    );
    let mut accounts = make_ctx();
    accounts.token_program = program_account(anchor_spl::token_2022::ID);
    assert_eq!(
        make(&program_id().to_bytes(), &ids(), &accounts, SEED, 1, 1).unwrap_err(),
        ConstraintError::ConstraintMintTokenProgram
    );
    let mut accounts = make_ctx();
    accounts.maker.is_signer = false;
    assert_eq!(
        make(&program_id().to_bytes(), &ids(), &accounts, SEED, 1, 1).unwrap_err(),
        ConstraintError::AccountNotSigner
    );
    let mut accounts = make_ctx();
    accounts.mint_x.account.owner = system().to_bytes();
    assert_eq!(
        make(&program_id().to_bytes(), &ids(), &accounts, SEED, 1, 1).unwrap_err(),
        ConstraintError::AccountOwnedByWrongProgram
    );
    let mut t = take_accounts();
    t.maker.owner = program_id().to_bytes();
    assert_eq!(
        take(&program_id().to_bytes(), &ids(), &t, SEED).unwrap_err(),
        ConstraintError::AccountNotSystemOwned
    );
    let mut r = refund_accounts();
    r.escrow.account.owner = Pubkey::new_from_array([6u8; 32]).to_bytes();
    assert_eq!(
        refund(&program_id().to_bytes(), &ids(), &r, SEED).unwrap_err(),
        ConstraintError::AccountOwnedByWrongProgram
    );
}

#[test]
fn refunded_escrow_is_refused_later() {
    let mut r = refund_accounts();
    r.escrow.account.owner = system().to_bytes();
    r.escrow.account.lamports = 0;
    assert_eq!(
        refund(&program_id().to_bytes(), &ids(), &r, SEED).unwrap_err(),
        ConstraintError::AccountNotInitialized
    );
    let mut t = take_accounts();
    t.escrow.account.owner = system().to_bytes();
    t.escrow.account.lamports = 0;
    assert_eq!(
        take(&program_id().to_bytes(), &ids(), &t, SEED).unwrap_err(),
        ConstraintError::AccountNotInitialized
    );
}

#[test]
fn creations_come_before_the_remaining_checks() {
    let mut accounts = make_ctx();
    accounts.maker_ata_x.account.is_writable = false;
    let (escrow, bump) = escrow_pda(SEED);
    let c = make_accounts(&program_id().to_bytes(), &ids(), &accounts, SEED).unwrap();
    assert_eq!(c.create_escrow.account, escrow.to_bytes());
    assert_eq!(c.create_escrow.signer_seeds.last().unwrap(), &vec![bump]);
    assert_eq!(c.create_vault.associated, ata(maker(), mint_x()).to_bytes());
    assert_eq!(make(&program_id().to_bytes(), &ids(), &accounts, SEED, 1, 1).unwrap_err(), ConstraintError::ConstraintMut);
    let mut t = take_accounts();
    t.taker.is_writable = false;
    let first = t.try_taker_ata_x(&program_id().to_bytes(), &ids()).unwrap().unwrap();
    assert_eq!(first.associated, ata(taker(), mint_x()).to_bytes());
    let second = t.try_maker_ata_y(&ids()).unwrap().unwrap();
    assert_eq!(second.associated, ata(maker(), mint_y()).to_bytes());
    assert_eq!(take(&program_id().to_bytes(), &ids(), &t, SEED).unwrap_err(), ConstraintError::ConstraintMut);
}

#[test]
fn take_checks_a_created_account_as_existing() {
    let mut t = take_accounts();
    t.taker_ata_x.account.owner = token_program().to_bytes();
    t.taker_ata_x.data = Some(TokenAccountData { mint: mint_x().to_bytes(), authority: taker().to_bytes() });
    t.taker_ata_x.rent_exempt = true;
    t.maker_ata_y.account.owner = token_program().to_bytes();
    t.maker_ata_y.data = Some(TokenAccountData { mint: mint_y().to_bytes(), authority: maker().to_bytes() });
    t.maker_ata_y.rent_exempt = true;
    let out = take(&program_id().to_bytes(), &ids(), &t, SEED).unwrap();
    assert!(out.creations.taker_ata_x.is_none());
    assert!(out.creations.maker_ata_y.is_none());
    t.maker_ata_y.data = Some(TokenAccountData { mint: mint_x().to_bytes(), authority: maker().to_bytes() });
    assert_eq!(t.try_maker_ata_y(&ids()).unwrap_err(), ConstraintError::ConstraintTokenMint);
}

#[test]
fn distinct_seeds_give_distinct_escrows() {
    let a = escrow_seeds_of(&maker().to_bytes(), 1);
    let b = escrow_seeds_of(&maker().to_bytes(), 256);
    assert_ne!(a, b);
    assert_ne!(escrow_pda(1).0, escrow_pda(256).0);
}
