//! Properties that span the escrow's instructions.
use vstd::prelude::*;
use crate::pda::{created_program_address, canonical_pda, with_bump, le_bytes};
use crate::accounts::{
    ProgramIds, ConstraintError, lemma_canonical_bump_recreates, law_canonical_pda_check, associated_token_address_of,
    law_init_if_needed_associated_token, CreateAssociatedTokenAccountView,
};
use crate::escrow::state::{EscrowAccount, ESCROW_SPACE, escrow_seeds, escrow_tag};
use crate::escrow::make::{
    Make, MakeBumps, make_type_checks, make_checks, make_init_checks, escrow_record, make_deposit_transfer, escrow_creation, vault_creation,
};
use crate::escrow::refund::{Refund, escrow_account_check, refund_type_checks, refund_checks, refund_transfer};
use crate::escrow::take::{Take, TakeCreationsView, take_type_checks, take_payment, take_release, take_checks};

verus! {

/// The escrow that `make` accepts for a seed, holding the record that `make`
/// writes, passes the seeds constraint of `refund` and `take` for the same
/// maker and seed: the recorded bump re-derives the escrow's address.
pub proof fn law_made_escrow_accepted_later(a: Make, program_id: Seq<u8>, ids: ProgramIds, seed: u64, receive: u64, e: EscrowAccount)
    requires
        make_checks(a, program_id, ids, seed) is Ok,
        e.account.key == a.escrow.key,
        e.data == escrow_record(a, seed, receive, make_checks(a, program_id, ids, seed)->Ok_0),
    ensures
        escrow_account_check(a.maker.key@, seed, e, program_id) is Ok,
{
    lemma_canonical_bump_recreates(escrow_seeds(a.maker.key@, seed), program_id, a.escrow.key@);
}

/// The taker pays the maker exactly the amount that `make` recorded.
pub proof fn law_take_pays_recorded_amount(a: Make, program_id: Seq<u8>, ids: ProgramIds, seed: u64, receive: u64, t: Take)
    requires
        make_checks(a, program_id, ids, seed) is Ok,
        t.escrow.data == escrow_record(a, seed, receive, make_checks(a, program_id, ids, seed)->Ok_0),
    ensures
        take_payment(t).amount == receive,
        take_payment(t).authority == t.taker.key@,
{
}

/// An escrow that `refund` has closed (handed back to the system program
/// with no lamports left) is refused by later `refund` and `take`: the
/// escrowed tokens are released through it at most once.
pub proof fn law_closed_escrow_refused(program_id: Seq<u8>, ids: ProgramIds, seed: u64, r: Refund, t: Take)
    requires
        r.escrow.account.owner@ == ids.system_program@,
        r.escrow.account.lamports == 0,
        t.escrow.account.owner@ == ids.system_program@,
        t.escrow.account.lamports == 0,
    ensures
        refund_checks(r, program_id, ids, seed) is Err,
        take_checks(t, program_id, ids, seed) matches Err(_),
{
}

/// `make` deposits exactly the given amount of the offered mint (`mint_x`,
/// with its decimals) out of the maker's `mint_x` account into the vault,
/// under the maker's authority and without program seeds.  Where the checks
/// pass, that authority is the one the source account is held for.
pub proof fn law_make_deposits_offered_mint(a: Make, program_id: Seq<u8>, ids: ProgramIds, seed: u64, amount: u64)
    ensures
        make_deposit_transfer(a, amount).mint == a.mint_x.account.key@,
        make_deposit_transfer(a, amount).decimals == a.mint_x.decimals,
        make_deposit_transfer(a, amount).amount == amount,
        make_deposit_transfer(a, amount).from == a.maker_ata_x.account.key@,
        make_deposit_transfer(a, amount).to == a.vault.key@,
        make_deposit_transfer(a, amount).authority == a.maker.key@,
        make_deposit_transfer(a, amount).token_program == a.token_program.key@,
        make_deposit_transfer(a, amount).signer_seeds is None,
        make_checks(a, program_id, ids, seed) is Ok
            ==> make_deposit_transfer(a, amount).authority == a.maker_ata_x.data.authority@,
{
}

/// `refund` moves tokens of the escrowed mint (`mint_x`, with its decimals)
/// out of the vault to the maker, under the escrow's authority, signed with
/// the escrow's seeds for the maker and seed.  Where the checks pass, that
/// authority is the one the vault is held for.
pub proof fn law_refund_returns_escrowed_mint(a: Refund, program_id: Seq<u8>, ids: ProgramIds, seed: u64)
    ensures
        refund_transfer(a, seed).mint == a.mint_x.account.key@,
        refund_transfer(a, seed).decimals == a.mint_x.decimals,
        refund_transfer(a, seed).from == a.vault.account.key@,
        refund_transfer(a, seed).to == a.maker.key@,
        refund_transfer(a, seed).authority == a.escrow.account.key@,
        refund_transfer(a, seed).amount == a.maker_ata_x.account.lamports,
        refund_transfer(a, seed).token_program == a.token_program.key@,
        refund_transfer(a, seed).signer_seeds == Some(escrow_seeds(a.maker.key@, seed)),
        refund_checks(a, program_id, ids, seed) is Ok
            ==> refund_transfer(a, seed).authority == a.vault.data.authority@,
{
}

/// `take` releases tokens of the offered mint (`mint_x`, with its decimals)
/// out of the vault to the taker's `mint_x` account only under the escrow's
/// authority; where the checks pass, that is the authority the vault is held
/// for, never the taker's unless the taker is the escrow.
pub proof fn law_take_releases_under_escrow_authority(a: Take, program_id: Seq<u8>, ids: ProgramIds, seed: u64)
    ensures
        take_release(a).authority == a.escrow.account.key@,
        take_release(a).mint == a.mint_x.account.key@,
        take_release(a).decimals == a.mint_x.decimals,
        take_release(a).from == a.vault.account.key@,
        take_release(a).to == a.taker_ata_x.account.key@,
        take_release(a).amount == a.vault.account.lamports,
        take_release(a).token_program == a.token_program.key@,
        take_release(a).signer_seeds is None,
        take_checks(a, program_id, ids, seed) is Ok ==> take_release(a).authority == a.vault.data.authority@,
        a.taker.key@ != a.escrow.account.key@ ==> take_release(a).authority != a.taker.key@,
{
}

/// `take` pays the maker's `mint_y` account the escrow's `receive` amount of
/// the asked-for mint (`mint_y`, with its decimals), out of `taker_ata_y`,
/// under the taker's authority.
pub proof fn law_take_pays_asked_mint(a: Take)
    ensures
        take_payment(a).mint == a.mint_y.account.key@,
        take_payment(a).decimals == a.mint_y.decimals,
        take_payment(a).amount == a.escrow.data.receive,
        take_payment(a).from == a.taker_ata_y.account.key@,
        take_payment(a).to == a.maker_ata_y.account.key@,
        take_payment(a).authority == a.taker.key@,
        take_payment(a).token_program == a.token_program.key@,
        take_payment(a).signer_seeds is None,
{
}

/// `make` accepts its accounts for `seed`, with the bump `b`, exactly when
/// the system program, a token program and the associated token program are
/// passed; the maker signs and is writable; both mints and the maker's
/// `mint_x` account belong to that token program (and are not emptied
/// accounts of the system program); the maker's `mint_x` account is held
/// for the maker at the maker's associated token address for `mint_x`, and
/// is writable; and the escrow is the canonical PDA of `"escrow"`, the maker
/// and the seed's little-endian bytes, with bump `b.escrow`.
pub proof fn law_make_accepts_exactly(a: Make, program_id: Seq<u8>, ids: ProgramIds, seed: u64, b: MakeBumps)
    ensures
        make_checks(a, program_id, ids, seed) == Ok::<MakeBumps, ConstraintError>(b) <==> {
            &&& a.system_program.key@ == ids.system_program@
            &&& a.system_program.executable
            &&& (a.token_program.key@ == ids.token_program@ || a.token_program.key@ == ids.token_2022_program@)
            &&& a.token_program.executable
            &&& a.associated_token_program.key@ == ids.associated_token_program@
            &&& a.associated_token_program.executable
            &&& a.maker.is_signer
            &&& a.maker.is_writable
            &&& !(a.mint_x.account.owner@ == ids.system_program@ && a.mint_x.account.lamports == 0)
            &&& (a.mint_x.account.owner@ == ids.token_program@ || a.mint_x.account.owner@ == ids.token_2022_program@)
            &&& a.mint_x.account.owner@ == a.token_program.key@
            &&& !(a.mint_y.account.owner@ == ids.system_program@ && a.mint_y.account.lamports == 0)
            &&& (a.mint_y.account.owner@ == ids.token_program@ || a.mint_y.account.owner@ == ids.token_2022_program@)
            &&& a.mint_y.account.owner@ == a.token_program.key@
            &&& !(a.maker_ata_x.account.owner@ == ids.system_program@ && a.maker_ata_x.account.lamports == 0)
            &&& (a.maker_ata_x.account.owner@ == ids.token_program@ || a.maker_ata_x.account.owner@
                == ids.token_2022_program@)
            &&& a.maker_ata_x.account.owner@ == a.token_program.key@
            &&& a.maker_ata_x.data.authority@ == a.maker.key@
            &&& associated_token_address_of(
                a.maker.key@,
                a.mint_x.account.key@,
                a.token_program.key@,
                ids.associated_token_program@,
            ) == Some(a.maker_ata_x.account.key@)
            &&& a.maker_ata_x.account.is_writable
            &&& canonical_pda(seq![escrow_tag(), a.maker.key@, le_bytes(seed)], program_id, a.escrow.key@, b.escrow)
        },
{
    law_canonical_pda_check(escrow_seeds(a.maker.key@, seed), program_id, a.escrow.key@, b.escrow);
}

/// `refund` accepts its accounts for `seed` exactly when the system program,
/// a token program and the associated token program are passed; the maker
/// signs; both mints, the maker's `mint_x` account and the vault belong to
/// that token program (and are not emptied accounts of the system program);
/// the maker's `mint_x` account is held for the maker at the maker's
/// associated token address for `mint_x`; the escrow belongs to the program,
/// sits at the address that `"escrow"`, the maker, the seed's bytes and the
/// recorded bump create, is writable and is not the maker's own account; and
/// the vault is held for the escrow at the escrow's associated token address
/// for `mint_x`.  The maker need not be writable.
pub proof fn law_refund_accepts_exactly(a: Refund, program_id: Seq<u8>, ids: ProgramIds, seed: u64)
    ensures
        refund_checks(a, program_id, ids, seed) is Ok <==> {
            &&& a.system_program.key@ == ids.system_program@
            &&& a.system_program.executable
            &&& (a.token_program.key@ == ids.token_program@ || a.token_program.key@ == ids.token_2022_program@)
            &&& a.token_program.executable
            &&& a.associated_token_program.key@ == ids.associated_token_program@
            &&& a.associated_token_program.executable
            &&& a.maker.is_signer
            &&& !(a.mint_x.account.owner@ == ids.system_program@ && a.mint_x.account.lamports == 0)
            &&& (a.mint_x.account.owner@ == ids.token_program@ || a.mint_x.account.owner@ == ids.token_2022_program@)
            &&& a.mint_x.account.owner@ == a.token_program.key@
            &&& !(a.mint_y.account.owner@ == ids.system_program@ && a.mint_y.account.lamports == 0)
            &&& (a.mint_y.account.owner@ == ids.token_program@ || a.mint_y.account.owner@ == ids.token_2022_program@)
            &&& a.mint_y.account.owner@ == a.token_program.key@
            &&& !(a.maker_ata_x.account.owner@ == ids.system_program@ && a.maker_ata_x.account.lamports == 0)
            &&& (a.maker_ata_x.account.owner@ == ids.token_program@ || a.maker_ata_x.account.owner@
                == ids.token_2022_program@)
            &&& a.maker_ata_x.account.owner@ == a.token_program.key@
            &&& a.maker_ata_x.data.authority@ == a.maker.key@
            &&& associated_token_address_of(
                a.maker.key@,
                a.mint_x.account.key@,
                a.token_program.key@,
                ids.associated_token_program@,
            ) == Some(a.maker_ata_x.account.key@)
            &&& !(a.escrow.account.owner@ == ids.system_program@ && a.escrow.account.lamports == 0)
            &&& a.escrow.account.owner@ == program_id
            &&& created_program_address(
                seq![escrow_tag(), a.maker.key@, le_bytes(seed), seq![a.escrow.data.bump]],
                program_id,
            ) == Some(a.escrow.account.key@)
            &&& a.escrow.account.is_writable
            &&& a.escrow.account.key@ != a.maker.key@
            &&& !(a.vault.account.owner@ == ids.system_program@ && a.vault.account.lamports == 0)
            &&& (a.vault.account.owner@ == ids.token_program@ || a.vault.account.owner@ == ids.token_2022_program@)
            &&& a.vault.account.owner@ == a.token_program.key@
            &&& a.vault.data.authority@ == a.escrow.account.key@
            &&& associated_token_address_of(
                a.escrow.account.key@,
                a.mint_x.account.key@,
                a.token_program.key@,
                ids.associated_token_program@,
            ) == Some(a.vault.account.key@)
        },
{
    assert(with_bump(escrow_seeds(a.maker.key@, seed), a.escrow.data.bump) =~= seq![
        escrow_tag(),
        a.maker.key@,
        le_bytes(seed),
        seq![a.escrow.data.bump],
    ]);
}

/// `take` accepts its accounts for `seed` exactly when the system program,
/// the associated token program and a token program are passed; the taker
/// signs and is writable; the maker belongs to the system program; both
/// mints, the maker's `mint_x` account, `taker_ata_y` and the vault belong to
/// that token program (and are not emptied accounts of the system program);
/// the taker's `mint_x` account and the maker's `mint_y` account are each
/// either still the system program's (to be created) or an existing,
/// writable, rent-exempt token account of that token program, of the right
/// mint, held for the right wallet at its associated token address; the
/// maker's `mint_x` account and `taker_ata_y` are both held for the maker at
/// the maker's associated token address for `mint_x`, and writable; the
/// escrow belongs to the program and sits at the address that `"escrow"`,
/// the maker, the seed's bytes and the recorded bump create; and the vault
/// is held for the escrow at the escrow's associated token address for
/// `mint_x`.
#[verifier::rlimit(50)]
pub proof fn law_take_accepts_exactly(a: Take, program_id: Seq<u8>, ids: ProgramIds, seed: u64)
    ensures
        take_checks(a, program_id, ids, seed) is Ok <==> {
            &&& a.system_program.key@ == ids.system_program@
            &&& a.system_program.executable
            &&& a.associated_token_program.key@ == ids.associated_token_program@
            &&& a.associated_token_program.executable
            &&& (a.token_program.key@ == ids.token_program@ || a.token_program.key@ == ids.token_2022_program@)
            &&& a.token_program.executable
            &&& a.taker.is_signer
            &&& a.taker.is_writable
            &&& a.maker.owner@ == ids.system_program@
            &&& !(a.mint_x.account.owner@ == ids.system_program@ && a.mint_x.account.lamports == 0)
            &&& (a.mint_x.account.owner@ == ids.token_program@ || a.mint_x.account.owner@ == ids.token_2022_program@)
            &&& a.mint_x.account.owner@ == a.token_program.key@
            &&& !(a.mint_y.account.owner@ == ids.system_program@ && a.mint_y.account.lamports == 0)
            &&& (a.mint_y.account.owner@ == ids.token_program@ || a.mint_y.account.owner@ == ids.token_2022_program@)
            &&& a.mint_y.account.owner@ == a.token_program.key@
            &&& (a.taker_ata_x.account.owner@ == ids.system_program@ || {
                &&& (a.taker_ata_x.account.owner@ == ids.token_program@ || a.taker_ata_x.account.owner@
                    == ids.token_2022_program@)
                &&& a.taker_ata_x.account.owner@ == a.token_program.key@
                &&& a.taker_ata_x.data matches Some(d) && d.mint@ == a.mint_x.account.key@ && d.authority@
                    == a.taker.key@
                &&& associated_token_address_of(
                    a.taker.key@,
                    a.mint_x.account.key@,
                    a.token_program.key@,
                    ids.associated_token_program@,
                ) == Some(a.taker_ata_x.account.key@)
                &&& a.taker_ata_x.account.is_writable
                &&& a.taker_ata_x.rent_exempt
            })
            &&& (a.maker_ata_y.account.owner@ == ids.system_program@ || {
                &&& (a.maker_ata_y.account.owner@ == ids.token_program@ || a.maker_ata_y.account.owner@
                    == ids.token_2022_program@)
                &&& a.maker_ata_y.account.owner@ == a.token_program.key@
                &&& a.maker_ata_y.data matches Some(d) && d.mint@ == a.mint_y.account.key@ && d.authority@
                    == a.maker.key@
                &&& associated_token_address_of(
                    a.maker.key@,
                    a.mint_y.account.key@,
                    a.token_program.key@,
                    ids.associated_token_program@,
                ) == Some(a.maker_ata_y.account.key@)
                &&& a.maker_ata_y.account.is_writable
                &&& a.maker_ata_y.rent_exempt
            })
            &&& !(a.maker_ata_x.account.owner@ == ids.system_program@ && a.maker_ata_x.account.lamports == 0)
            &&& (a.maker_ata_x.account.owner@ == ids.token_program@ || a.maker_ata_x.account.owner@
                == ids.token_2022_program@)
            &&& a.maker_ata_x.account.owner@ == a.token_program.key@
            &&& a.maker_ata_x.data.authority@ == a.maker.key@
            &&& associated_token_address_of(
                a.maker.key@,
                a.mint_x.account.key@,
                a.token_program.key@,
                ids.associated_token_program@,
            ) == Some(a.maker_ata_x.account.key@)
            &&& a.maker_ata_x.account.is_writable
            &&& !(a.taker_ata_y.account.owner@ == ids.system_program@ && a.taker_ata_y.account.lamports == 0)
            &&& (a.taker_ata_y.account.owner@ == ids.token_program@ || a.taker_ata_y.account.owner@
                == ids.token_2022_program@)
            &&& a.taker_ata_y.account.owner@ == a.token_program.key@
            &&& a.taker_ata_y.data.authority@ == a.maker.key@
            &&& associated_token_address_of(
                a.maker.key@,
                a.mint_x.account.key@,
                a.token_program.key@,
                ids.associated_token_program@,
            ) == Some(a.taker_ata_y.account.key@)
            &&& a.taker_ata_y.account.is_writable
            &&& !(a.escrow.account.owner@ == ids.system_program@ && a.escrow.account.lamports == 0)
            &&& a.escrow.account.owner@ == program_id
            &&& created_program_address(
                seq![escrow_tag(), a.maker.key@, le_bytes(seed), seq![a.escrow.data.bump]],
                program_id,
            ) == Some(a.escrow.account.key@)
            &&& !(a.vault.account.owner@ == ids.system_program@ && a.vault.account.lamports == 0)
            &&& (a.vault.account.owner@ == ids.token_program@ || a.vault.account.owner@ == ids.token_2022_program@)
            &&& a.vault.account.owner@ == a.token_program.key@
            &&& a.vault.data.authority@ == a.escrow.account.key@
            &&& associated_token_address_of(
                a.escrow.account.key@,
                a.mint_x.account.key@,
                a.token_program.key@,
                ids.associated_token_program@,
            ) == Some(a.vault.account.key@)
        },
{
    assert(with_bump(escrow_seeds(a.maker.key@, seed), a.escrow.data.bump) =~= seq![
        escrow_tag(),
        a.maker.key@,
        le_bytes(seed),
        seq![a.escrow.data.bump],
    ]);
    law_init_if_needed_associated_token(
        a.taker_ata_x,
        a.taker.key@,
        a.taker.key@,
        a.mint_x.account.key@,
        a.token_program.key@,
        ids,
    );
    law_init_if_needed_associated_token(
        a.maker_ata_y,
        a.taker.key@,
        a.maker.key@,
        a.mint_y.account.key@,
        a.token_program.key@,
        ids,
    );
}

/// The record that `make` writes holds the seed and the amount asked for as
/// given, the maker who authorises the deposit, the mint deposited as
/// `mint_x`, the mint passed as `mint_y`, and the bump with which the seeds
/// create the escrow's own address as its canonical PDA.
pub proof fn law_make_records_its_offer(
    a: Make,
    program_id: Seq<u8>,
    ids: ProgramIds,
    seed: u64,
    deposit: u64,
    receive: u64,
)
    requires
        make_checks(a, program_id, ids, seed) is Ok,
    ensures
        ({
            let r = escrow_record(a, seed, receive, make_checks(a, program_id, ids, seed)->Ok_0);
            &&& r.seed == seed
            &&& r.receive == receive
            &&& r.maker@ == make_deposit_transfer(a, deposit).authority
            &&& r.mint_x@ == make_deposit_transfer(a, deposit).mint
            &&& r.mint_y@ == a.mint_y.account.key@
            &&& canonical_pda(seq![escrow_tag(), r.maker@, le_bytes(r.seed)], program_id, a.escrow.key@, r.bump)
        }),
{
    law_make_accepts_exactly(a, program_id, ids, seed, make_checks(a, program_id, ids, seed)->Ok_0);
}

/// The escrow that `make` creates is paid by the maker, holds `ESCROW_SPACE`
/// bytes, belongs to the program, and is signed for with seeds that create
/// its own address; the vault it creates is the maker's associated token
/// account for `mint_x` under the token program passed, paid by the maker.
pub proof fn law_make_creates_escrow_and_vault(a: Make, program_id: Seq<u8>, ids: ProgramIds, seed: u64)
    requires
        make_init_checks(a, program_id, ids, seed) is Ok,
    ensures
        ({
            let c = escrow_creation(a, program_id, seed, make_init_checks(a, program_id, ids, seed)->Ok_0);
            &&& c.payer == a.maker.key@
            &&& c.account == a.escrow.key@
            &&& c.space == ESCROW_SPACE
            &&& c.owner == program_id
            &&& c.signer_seeds == seq![
                escrow_tag(),
                a.maker.key@,
                le_bytes(seed),
                seq![make_init_checks(a, program_id, ids, seed)->Ok_0],
            ]
            &&& created_program_address(c.signer_seeds, program_id) == Some(a.escrow.key@)
        }),
        vault_creation(a).payer == a.maker.key@,
        vault_creation(a).associated == a.vault.key@,
        vault_creation(a).authority == a.maker.key@,
        vault_creation(a).mint == a.mint_x.account.key@,
        vault_creation(a).token_program == a.token_program.key@,
{
    let bump = make_init_checks(a, program_id, ids, seed)->Ok_0;
    assert(with_bump(escrow_seeds(a.maker.key@, seed), bump) =~= seq![
        escrow_tag(),
        a.maker.key@,
        le_bytes(seed),
        seq![bump],
    ]);
    law_canonical_pda_check(escrow_seeds(a.maker.key@, seed), program_id, a.escrow.key@, bump);
}

/// Where `take` accepts its accounts, it creates the taker's `mint_x`
/// account exactly when that account is still the system program's: at its
/// address, for the taker and `mint_x`, paid by the taker; and the maker's
/// `mint_y` account exactly when that one is: at its address, for the maker
/// and `mint_y`, paid by the taker.  Both are made under the token program
/// passed.
pub proof fn law_take_creates_missing_token_accounts(a: Take, program_id: Seq<u8>, ids: ProgramIds, seed: u64)
    requires
        take_checks(a, program_id, ids, seed) is Ok,
    ensures
        take_checks(a, program_id, ids, seed)->Ok_0.taker_ata_x == (if a.taker_ata_x.account.owner@
            == ids.system_program@ {
            Some(
                CreateAssociatedTokenAccountView {
                    payer: a.taker.key@,
                    associated: a.taker_ata_x.account.key@,
                    authority: a.taker.key@,
                    mint: a.mint_x.account.key@,
                    token_program: a.token_program.key@,
                },
            )
        } else {
            None
        }),
        take_checks(a, program_id, ids, seed)->Ok_0.maker_ata_y == (if a.maker_ata_y.account.owner@
            == ids.system_program@ {
            Some(
                CreateAssociatedTokenAccountView {
                    payer: a.taker.key@,
                    associated: a.maker_ata_y.account.key@,
                    authority: a.maker.key@,
                    mint: a.mint_y.account.key@,
                    token_program: a.token_program.key@,
                },
            )
        } else {
            None
        }),
{
    law_init_if_needed_associated_token(
        a.taker_ata_x,
        a.taker.key@,
        a.taker.key@,
        a.mint_x.account.key@,
        a.token_program.key@,
        ids,
    );
    law_init_if_needed_associated_token(
        a.maker_ata_y,
        a.taker.key@,
        a.maker.key@,
        a.mint_y.account.key@,
        a.token_program.key@,
        ids,
    );
}

/// A failed account type is reported before any constraint: where the
/// account types of `make`, `refund` or `take` fail, the instruction fails
/// with that error, whatever the constraints say.
pub proof fn law_escrow_types_reported_first(
    m: Make,
    r: Refund,
    t: Take,
    program_id: Seq<u8>,
    ids: ProgramIds,
    seed: u64,
)
    ensures
        make_type_checks(m, ids) matches Err(e) ==> make_checks(m, program_id, ids, seed) == Err::<
            MakeBumps,
            ConstraintError,
        >(e),
        refund_type_checks(r, program_id, ids) matches Err(e) ==> refund_checks(r, program_id, ids, seed) == Err::<
            (),
            ConstraintError,
        >(e),
        take_type_checks(t, program_id, ids) matches Err(e) ==> take_checks(t, program_id, ids, seed) == Err::<
            TakeCreationsView,
            ConstraintError,
        >(e),
{
}

} // verus!
