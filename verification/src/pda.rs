//! Addresses and program derived addresses (PDAs).
//!
//! An address is the 32 bytes of an ed25519 public key.  A program derived
//! address is computed from a list of seeds and a program id; the hashing and
//! the off-curve test are done by the `Pubkey` functions that `anchor_lang`
//! re-exports, behind the two trusted wrappers of this module.
use vstd::prelude::*;

verus! {

/// The 32 bytes of an account address.
pub type Address = [u8; 32];

/// Most seeds that `create_program_address` accepts.
pub const MAX_SEEDS: usize = 16;

/// Longest seed that `create_program_address` accepts.
pub const MAX_SEED_LEN: usize = 32;

/// What `Pubkey::create_program_address(seeds, program_id)` gives: the derived
/// address, or `None` when the seeds are refused or the hash lies on the curve.
pub uninterp spec fn created_program_address(seeds: Seq<Seq<u8>>, program_id: Seq<u8>) -> Option<Seq<u8>>;

/// Whether the seeds break the documented limits of `create_program_address`.
pub open spec fn seeds_over_limits(seeds: Seq<Seq<u8>>) -> bool {
    ||| seeds.len() > MAX_SEEDS
    ||| exists|i: int| 0 <= i < seeds.len() && #[trigger] seeds[i].len() > MAX_SEED_LEN
}

/// The seeds followed by the one-byte bump seed.
pub open spec fn with_bump(seeds: Seq<Seq<u8>>, bump: u8) -> Seq<Seq<u8>> {
    seeds.push(seq![bump])
}

/// `key` with `bump` is the canonical PDA of `seeds` under `program_id`:
/// the bump is the highest of 255 down to 1 for which an address can be
/// created, and `key` is that address.
pub open spec fn canonical_pda(seeds: Seq<Seq<u8>>, program_id: Seq<u8>, key: Seq<u8>, bump: u8) -> bool {
    &&& 1 <= bump
    &&& created_program_address(with_bump(seeds, bump), program_id) == Some(key)
    &&& forall|b: u8| bump < b ==> (#[trigger] created_program_address(with_bump(seeds, b), program_id)) is None
}

/// No bump from 255 down to 1 gives an address.
pub open spec fn no_viable_bump(seeds: Seq<Seq<u8>>, program_id: Seq<u8>) -> bool {
    forall|b: u8| 1 <= b ==> (#[trigger] created_program_address(with_bump(seeds, b), program_id)) is None
}

/// Some canonical PDA exists.
pub open spec fn has_canonical_pda(seeds: Seq<Seq<u8>>, program_id: Seq<u8>) -> bool {
    exists|k: Seq<u8>, b: u8| canonical_pda(seeds, program_id, k, b)
}

/// The canonical PDA (address and bump), where one exists.
pub open spec fn the_canonical_pda(seeds: Seq<Seq<u8>>, program_id: Seq<u8>) -> (Seq<u8>, u8)
    recommends
        has_canonical_pda(seeds, program_id),
{
    choose|k: Seq<u8>, b: u8| canonical_pda(seeds, program_id, k, b)
}

/// The canonical PDA is unique.
pub proof fn lemma_canonical_pda_unique(seeds: Seq<Seq<u8>>, program_id: Seq<u8>, k1: Seq<u8>, b1: u8, k2: Seq<u8>, b2: u8)
    requires
        canonical_pda(seeds, program_id, k1, b1),
        canonical_pda(seeds, program_id, k2, b2),
    ensures
        k1 == k2,
        b1 == b2,
{
    if b1 < b2 {
        assert(created_program_address(with_bump(seeds, b2), program_id) is None);
    } else if b2 < b1 {
        assert(created_program_address(with_bump(seeds, b1), program_id) is None);
    }
}

/// A canonical PDA rules out the absence of a viable bump, and the chosen one
/// is the given one.
pub proof fn lemma_canonical_pda_chosen(seeds: Seq<Seq<u8>>, program_id: Seq<u8>, k: Seq<u8>, b: u8)
    requires
        canonical_pda(seeds, program_id, k, b),
    ensures
        has_canonical_pda(seeds, program_id),
        !no_viable_bump(seeds, program_id),
        the_canonical_pda(seeds, program_id) == (k, b),
{
    assert(has_canonical_pda(seeds, program_id));
    let (k2, b2) = the_canonical_pda(seeds, program_id);
    lemma_canonical_pda_unique(seeds, program_id, k, b, k2, b2);
    assert(created_program_address(with_bump(seeds, b), program_id) is Some);
}

/// With no viable bump there is no canonical PDA.
pub proof fn lemma_no_viable_bump(seeds: Seq<Seq<u8>>, program_id: Seq<u8>)
    requires
        no_viable_bump(seeds, program_id),
    ensures
        !has_canonical_pda(seeds, program_id),
{
    if has_canonical_pda(seeds, program_id) {
        let (k, b) = choose|k: Seq<u8>, b: u8| canonical_pda(seeds, program_id, k, b);
        assert(created_program_address(with_bump(seeds, b), program_id) is None);
    }
}

/// `Pubkey::create_program_address` (solana-pubkey, re-exported by
/// `anchor_lang::prelude`).  The result is the named value
/// `created_program_address` of the seeds and the program id; the function
/// refuses more than `MAX_SEEDS` seeds or a seed longer than `MAX_SEED_LEN`
/// bytes.  The hash and the off-curve test themselves are not stated.
#[verifier::external_body]
pub(crate) fn create_program_address(seeds: &Vec<Vec<u8>>, program_id: &Address) -> (res: Option<Address>)
    ensures
        match res {
            Some(k) => created_program_address(seeds.deep_view(), program_id@) == Some(k@),
            None => created_program_address(seeds.deep_view(), program_id@) is None,
        },
        seeds_over_limits(seeds.deep_view()) ==> res is None,
{
    let refs: Vec<&[u8]> = seeds.iter().map(|s| s.as_slice()).collect();
    let pid = anchor_lang::prelude::Pubkey::new_from_array(*program_id);
    anchor_lang::prelude::Pubkey::create_program_address(&refs, &pid).ok().map(|k| k.to_bytes())
}

/// `Pubkey::try_find_program_address` (solana-pubkey, re-exported by
/// `anchor_lang::prelude`).  Its source tries the bumps 255 down to 1, each
/// appended to the seeds as a one-byte seed, and returns the first address
/// that `create_program_address` gives with that bump; `None` when none does.
#[verifier::external_body]
pub(crate) fn try_find_program_address(seeds: &Vec<Vec<u8>>, program_id: &Address) -> (res: Option<(Address, u8)>)
    ensures
        match res {
            Some((k, b)) => canonical_pda(seeds.deep_view(), program_id@, k@, b),
            None => no_viable_bump(seeds.deep_view(), program_id@),
        },
{
    let refs: Vec<&[u8]> = seeds.iter().map(|s| s.as_slice()).collect();
    let pid = anchor_lang::prelude::Pubkey::new_from_array(*program_id);
    anchor_lang::prelude::Pubkey::try_find_program_address(&refs, &pid).map(|(k, b)| (k.to_bytes(), b))
}

/// Whether two addresses are equal.
pub fn same_address(a: &Address, b: &Address) -> (r: bool)
    ensures
        r == (a@ == b@),
{
    let mut i: usize = 0;
    while i < 32
        invariant
            i <= 32,
            a@.len() == 32,
            b@.len() == 32,
            forall|j: int| 0 <= j < i ==> a@[j] == b@[j],
        decreases 32 - i,
    {
        if a[i] != b[i] {
            return false;
        }
        i = i + 1;
    }
    assert(a@ =~= b@);
    true
}

/// The bytes of an address, as a seed.
pub fn address_seed(a: &Address) -> (v: Vec<u8>)
    ensures
        v@ == a@,
        v.deep_view() == a@,
{
    let mut v: Vec<u8> = Vec::new();
    let mut i: usize = 0;
    while i < 32
        invariant
            i <= 32,
            a@.len() == 32,
            v@ == a@.subrange(0, i as int),
        decreases 32 - i,
    {
        v.push(a[i]);
        i = i + 1;
        assert(v@ =~= a@.subrange(0, i as int));
    }
    assert(a@.subrange(0, 32) =~= a@);
    assert(v.deep_view() =~= a@);
    v
}

/// A list of two seeds.
pub fn seed_list2(a: Vec<u8>, b: Vec<u8>) -> (r: Vec<Vec<u8>>)
    ensures
        r.deep_view() == seq![a@, b@],
{
    let ghost (av, bv) = (a@, b@);
    let mut r: Vec<Vec<u8>> = Vec::new();
    r.push(a);
    r.push(b);
    assert(r@[0].deep_view() =~= av);
    assert(r@[1].deep_view() =~= bv);
    assert(r.deep_view() =~= seq![av, bv]);
    r
}

/// A list of three seeds.
pub fn seed_list3(a: Vec<u8>, b: Vec<u8>, c: Vec<u8>) -> (r: Vec<Vec<u8>>)
    ensures
        r.deep_view() == seq![a@, b@, c@],
{
    let ghost (av, bv, cv) = (a@, b@, c@);
    let mut r: Vec<Vec<u8>> = Vec::new();
    r.push(a);
    r.push(b);
    r.push(c);
    assert(r@[0].deep_view() =~= av);
    assert(r@[1].deep_view() =~= bv);
    assert(r@[2].deep_view() =~= cv);
    assert(r.deep_view() =~= seq![av, bv, cv]);
    r
}

/// A copy of a byte string.
pub fn copy_bytes(s: &Vec<u8>) -> (c: Vec<u8>)
    ensures
        c@ == s@,
        c.deep_view() == s.deep_view(),
{
    let mut c: Vec<u8> = Vec::new();
    let mut i: usize = 0;
    while i < s.len()
        invariant
            i <= s.len(),
            c@ == s@.subrange(0, i as int),
        decreases s.len() - i,
    {
        c.push(s[i]);
        i = i + 1;
        assert(c@ =~= s@.subrange(0, i as int));
    }
    assert(s@.subrange(0, s.len() as int) =~= s@);
    assert(c.deep_view() =~= s.deep_view());
    c
}

/// The seeds followed by the one-byte bump seed.
pub fn push_bump(seeds: &Vec<Vec<u8>>, bump: u8) -> (r: Vec<Vec<u8>>)
    ensures
        r.deep_view() == with_bump(seeds.deep_view(), bump),
{
    let mut r: Vec<Vec<u8>> = Vec::new();
    let mut i: usize = 0;
    while i < seeds.len()
        invariant
            i <= seeds.len(),
            r.deep_view() == seeds.deep_view().subrange(0, i as int),
        decreases seeds.len() - i,
    {
        let c = copy_bytes(&seeds[i]);
        let ghost prev = r.deep_view();
        r.push(c);
        assert(r.deep_view() =~= prev.push(c.deep_view()));
        i = i + 1;
        assert(r.deep_view() =~= seeds.deep_view().subrange(0, i as int));
    }
    let mut last: Vec<u8> = Vec::new();
    last.push(bump);
    assert(last.deep_view() =~= seq![bump]);
    let ghost prev = r.deep_view();
    r.push(last);
    assert(r.deep_view() =~= prev.push(seq![bump]));
    assert(seeds.deep_view().subrange(0, seeds.len() as int) =~= seeds.deep_view());
    r
}

/// The little-endian bytes of a `u64`, as `u64::to_le_bytes` gives them.
pub open spec fn le_bytes(x: u64) -> Seq<u8> {
    seq![
        (x & 0xff) as u8,
        ((x >> 8u64) & 0xff) as u8,
        ((x >> 16u64) & 0xff) as u8,
        ((x >> 24u64) & 0xff) as u8,
        ((x >> 32u64) & 0xff) as u8,
        ((x >> 40u64) & 0xff) as u8,
        ((x >> 48u64) & 0xff) as u8,
        ((x >> 56u64) & 0xff) as u8,
    ]
}

/// The little-endian bytes of a `u64`.
pub fn u64_le_bytes(x: u64) -> (v: Vec<u8>)
    ensures
        v@ == le_bytes(x),
{
    let mut v: Vec<u8> = Vec::new();
    v.push((x & 0xff) as u8);
    v.push(((x >> 8u64) & 0xff) as u8);
    v.push(((x >> 16u64) & 0xff) as u8);
    v.push(((x >> 24u64) & 0xff) as u8);
    v.push(((x >> 32u64) & 0xff) as u8);
    v.push(((x >> 40u64) & 0xff) as u8);
    v.push(((x >> 48u64) & 0xff) as u8);
    v.push(((x >> 56u64) & 0xff) as u8);
    assert(v@ =~= le_bytes(x));
    v
}

/// Distinct numbers have distinct little-endian bytes.
pub proof fn lemma_le_bytes_injective(x: u64, y: u64)
    requires
        le_bytes(x) == le_bytes(y),
    ensures
        x == y,
{
    let bx = le_bytes(x);
    let by = le_bytes(y);
    assert(bx[0] == by[0] && bx[1] == by[1] && bx[2] == by[2] && bx[3] == by[3]);
    assert(bx[4] == by[4] && bx[5] == by[5] && bx[6] == by[6] && bx[7] == by[7]);
    assert(x == y) by (bit_vector)
        requires
            (x & 0xff) as u8 == (y & 0xff) as u8,
            ((x >> 8u64) & 0xff) as u8 == ((y >> 8u64) & 0xff) as u8,
            ((x >> 16u64) & 0xff) as u8 == ((y >> 16u64) & 0xff) as u8,
            ((x >> 24u64) & 0xff) as u8 == ((y >> 24u64) & 0xff) as u8,
            ((x >> 32u64) & 0xff) as u8 == ((y >> 32u64) & 0xff) as u8,
            ((x >> 40u64) & 0xff) as u8 == ((y >> 40u64) & 0xff) as u8,
            ((x >> 48u64) & 0xff) as u8 == ((y >> 48u64) & 0xff) as u8,
            ((x >> 56u64) & 0xff) as u8 == ((y >> 56u64) & 0xff) as u8,
    ;
}

} // verus!
