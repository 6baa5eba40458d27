//! The escrow record and its address.
use vstd::prelude::*;
use crate::pda::{Address, le_bytes, u64_le_bytes, address_seed, seed_list3, lemma_le_bytes_injective};
use crate::accounts::AccountSnapshot;

verus! {

/// What an escrow account holds: the maker's offer of `mint_x` tokens for
/// `receive` tokens of `mint_y`, under the maker's `seed`.
#[derive(PartialEq, Eq, Clone, Copy, Debug)]
pub struct Escrow {
    pub seed: u64,
    pub maker: Address,
    pub mint_x: Address,
    pub mint_y: Address,
    pub receive: u64,
    pub bump: u8,
}

/// Bytes of an `Escrow` account: an 8-byte discriminator, the seed, three
/// addresses, the amount to receive and the bump.
pub const ESCROW_SPACE: u64 = 121;

/// An escrow account and what it holds.
#[derive(Clone, Copy, Debug)]
pub struct EscrowAccount {
    pub account: AccountSnapshot,
    pub data: Escrow,
}

/// The bytes of `"escrow"`.
pub open spec fn escrow_tag() -> Seq<u8> {
    seq![101u8, 115u8, 99u8, 114u8, 111u8, 119u8]
}

pub fn escrow_tag_bytes() -> (v: Vec<u8>)
    ensures
        v@ == escrow_tag(),
{
    let v: Vec<u8> = vec![101u8, 115u8, 99u8, 114u8, 111u8, 119u8];
    assert(v@ =~= escrow_tag());
    v
}

/// The seeds of a maker's escrow: `"escrow"`, the maker, the seed's
/// little-endian bytes.
pub open spec fn escrow_seeds(maker: Seq<u8>, seed: u64) -> Seq<Seq<u8>> {
    seq![escrow_tag(), maker, le_bytes(seed)]
}

pub fn escrow_seeds_of(maker: &Address, seed: u64) -> (s: Vec<Vec<u8>>)
    ensures
        s.deep_view() == escrow_seeds(maker@, seed),
{
    seed_list3(escrow_tag_bytes(), address_seed(maker), u64_le_bytes(seed))
}

/// A maker's escrows under distinct seeds are derived from distinct seeds.
pub proof fn law_distinct_seeds_distinct_escrow_seeds(maker: Seq<u8>, seed1: u64, seed2: u64)
    requires
        seed1 != seed2,
    ensures
        escrow_seeds(maker, seed1) != escrow_seeds(maker, seed2),
{
    if escrow_seeds(maker, seed1) == escrow_seeds(maker, seed2) {
        assert(escrow_seeds(maker, seed1)[2] == escrow_seeds(maker, seed2)[2]);
        lemma_le_bytes_injective(seed1, seed2);
    }
}

} // verus!
