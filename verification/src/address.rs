//! Account addresses and their derivation from seeds.

use vstd::prelude::*;

verus! {

/// The address of an account or a program.
pub type Address = [u8; 32];

/// What `Pubkey::try_find_program_address` yields for the given seeds under
/// the given program: the derived address and its bump seed, or nothing
/// when the seeds admit no address.
pub uninterp spec fn program_address(seeds: Seq<Seq<u8>>, program_id: Seq<u8>) -> Option<
    (Seq<u8>, u8),
>;

/// The byte strings that a list of seeds holds.
pub open spec fn seeds_view(seeds: Seq<Vec<u8>>) -> Seq<Seq<u8>> {
    Seq::new(seeds.len(), |i: int| seeds[i]@)
}

/// A derived address and bump seed as byte strings.
pub open spec fn found_view(found: Option<(Address, u8)>) -> Option<(Seq<u8>, u8)> {
    match found {
        Some((address, bump)) => Some((address@, bump)),
        None => None,
    }
}

/// The address that thirty-two bytes spell.
pub open spec fn address_from(bytes: Seq<u8>) -> Address {
    choose|address: Address| address@ == bytes
}

/// The address derived from `seeds` under `program_id`, if there is one.
pub open spec fn pda(seeds: Seq<Seq<u8>>, program_id: Address) -> Option<Address> {
    match program_address(seeds, program_id@) {
        Some((bytes, _)) => Some(address_from(bytes)),
        None => None,
    }
}

/// Calls `Pubkey::try_find_program_address` of `anchor_lang`.
///
/// The result is taken to depend on the seeds and the program id alone: the
/// search hashes them with each bump seed from 255 downwards and returns the
/// first hash that is no curve point. Nothing is claimed about which
/// address that is, nor that one is found.
#[verifier::external_body]
pub(crate) fn try_find_program_address(seeds: &Vec<Vec<u8>>, program_id: &Address) -> (found:
    Option<(Address, u8)>)
    ensures
        found_view(found) == program_address(seeds_view(seeds@), program_id@),
{
    let parts: Vec<&[u8]> = seeds.iter().map(|seed| seed.as_slice()).collect();
    let program = anchor_lang::prelude::Pubkey::new_from_array(*program_id);
    anchor_lang::prelude::Pubkey::try_find_program_address(&parts, &program).map(
        |(address, bump)| (address.to_bytes(), bump),
    )
}

/// Derives the address that `seeds` name under `program_id`.
///
/// Returns `None` exactly when the seeds admit no address.
pub fn find_address(seeds: &Vec<Vec<u8>>, program_id: &Address) -> (found: Option<Address>)
    ensures
        found == pda(seeds_view(seeds@), *program_id),
{
    match try_find_program_address(seeds, program_id) {
        Some((address, _)) => {
            assert(address_from(address@)@ == address@);
            assert(address_from(address@) =~= address);
            Some(address)
        },
        None => None,
    }
}

/// Whether two addresses are the same.
pub fn address_eq(a: &Address, b: &Address) -> (same: bool)
    ensures
        same == (*a == *b),
{
    let mut i: usize = 0;
    while i < 32
        invariant
            i <= 32,
            forall|j: int| 0 <= j < i ==> a[j] == b[j],
        decreases 32 - i,
    {
        if a[i] != b[i] {
            return false;
        }
        i += 1;
    }
    assert(*a =~= *b);
    true
}

/// The address of the system program: thirty-two zero bytes.
pub open spec fn system_program() -> Address {
    address_from(Seq::new(32, |i: int| 0u8))
}

/// The address of the system program.
pub fn system_program_id() -> (id: Address)
    ensures
        id == system_program(),
        id@ == Seq::new(32, |i: int| 0u8),
{
    let id: Address = [0u8; 32];
    assert(id@ =~= Seq::new(32, |i: int| 0u8));
    assert(id =~= system_program());
    id
}

/// The address that stands where none is given: thirty-two zero bytes.
pub open spec fn default_address() -> Address {
    address_from(Seq::new(32, |i: int| 0u8))
}

/// The address that stands where none is given.
pub fn address_default() -> (address: Address)
    ensures
        address == default_address(),
{
    let address: Address = [0u8; 32];
    assert(address@ =~= Seq::new(32, |i: int| 0u8));
    assert(address =~= default_address());
    address
}

/// Copies a byte slice into a seed.
pub fn seed_from(bytes: &[u8]) -> (seed: Vec<u8>)
    ensures
        seed@ == bytes@,
{
    let mut seed: Vec<u8> = Vec::new();
    let mut i: usize = 0;
    while i < bytes.len()
        invariant
            i <= bytes.len(),
            seed@ == bytes@.subrange(0, i as int),
        decreases bytes.len() - i,
    {
        seed.push(bytes[i]);
        assert(seed@ =~= bytes@.subrange(0, i + 1));
        i += 1;
    }
    assert(bytes@.subrange(0, bytes.len() as int) =~= bytes@);
    seed
}

} // verus!
