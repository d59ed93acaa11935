//! The seeds that the vault's own accounts are derived from.

use vstd::prelude::*;

verus! {

/// The bytes of `Store`: the seed of the configuration record.
pub open spec fn store_seed() -> Seq<u8> {
    seq![83u8, 116u8, 111u8, 114u8, 101u8]
}

/// The bytes of `Peer`: the first seed of a peer record.
pub open spec fn peer_seed() -> Seq<u8> {
    seq![80u8, 101u8, 101u8, 114u8]
}

/// The bytes of `LzReceiveTypes`: the first seed of the planning record.
pub open spec fn lz_receive_types_seed() -> Seq<u8> {
    seq![
        76u8,
        122u8,
        82u8,
        101u8,
        99u8,
        101u8,
        105u8,
        118u8,
        101u8,
        84u8,
        121u8,
        112u8,
        101u8,
        115u8,
    ]
}

/// The bytes of `UserBalance`: the first seed of a sender's ledger record.
pub open spec fn user_balance_seed() -> Seq<u8> {
    seq![85u8, 115u8, 101u8, 114u8, 66u8, 97u8, 108u8, 97u8, 110u8, 99u8, 101u8]
}

/// The seed of the configuration record.
pub fn store_seed_bytes() -> (seed: Vec<u8>)
    ensures
        seed@ == store_seed(),
{
    let mut seed: Vec<u8> = Vec::new();
    seed.push(83u8);
    seed.push(116u8);
    seed.push(111u8);
    seed.push(114u8);
    seed.push(101u8);
    assert(seed@ =~= store_seed());
    seed
}

/// The first seed of a peer record.
pub fn peer_seed_bytes() -> (seed: Vec<u8>)
    ensures
        seed@ == peer_seed(),
{
    let mut seed: Vec<u8> = Vec::new();
    seed.push(80u8);
    seed.push(101u8);
    seed.push(101u8);
    seed.push(114u8);
    assert(seed@ =~= peer_seed());
    seed
}

/// The first seed of the planning record.
pub fn lz_receive_types_seed_bytes() -> (seed: Vec<u8>)
    ensures
        seed@ == lz_receive_types_seed(),
{
    let mut seed: Vec<u8> = Vec::new();
    seed.push(76u8);
    seed.push(122u8);
    seed.push(82u8);
    seed.push(101u8);
    seed.push(99u8);
    seed.push(101u8);
    seed.push(105u8);
    seed.push(118u8);
    seed.push(101u8);
    seed.push(84u8);
    seed.push(121u8);
    seed.push(112u8);
    seed.push(101u8);
    seed.push(115u8);
    assert(seed@ =~= lz_receive_types_seed());
    seed
}

/// The first seed of a sender's ledger record.
pub fn user_balance_seed_bytes() -> (seed: Vec<u8>)
    ensures
        seed@ == user_balance_seed(),
{
    let mut seed: Vec<u8> = Vec::new();
    seed.push(85u8);
    seed.push(115u8);
    seed.push(101u8);
    seed.push(114u8);
    seed.push(66u8);
    seed.push(97u8);
    seed.push(108u8);
    seed.push(97u8);
    seed.push(110u8);
    seed.push(99u8);
    seed.push(101u8);
    assert(seed@ =~= user_balance_seed());
    seed
}

/// The seeds that sign for the configuration record: its seed and its bump.
pub open spec fn store_signer_seeds(bump: u8) -> Seq<Seq<u8>> {
    seq![store_seed(), seq![bump]]
}

/// Builds the seeds that sign for the configuration record.
pub fn store_signer_seed_list(bump: u8) -> (seeds: Vec<Vec<u8>>)
    ensures
        crate::address::seeds_view(seeds@) == store_signer_seeds(bump),
{
    let mut bump_seed: Vec<u8> = Vec::new();
    bump_seed.push(bump);
    assert(bump_seed@ =~= seq![bump]);
    let mut seeds: Vec<Vec<u8>> = Vec::new();
    seeds.push(store_seed_bytes());
    seeds.push(bump_seed);
    assert(crate::address::seeds_view(seeds@) =~= store_signer_seeds(bump));
    seeds
}

} // verus!
