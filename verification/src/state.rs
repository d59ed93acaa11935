//! The durable records of the vault.

use crate::address::{find_address, pda, seed_from, seeds_view, Address};
use crate::errors::MyOAppError;
use crate::msg_codec::{evm_address_of, parse_evm_address, EvmAddress};
use crate::seeds::{
    lz_receive_types_seed, lz_receive_types_seed_bytes, store_seed, store_seed_bytes,
    user_balance_seed, user_balance_seed_bytes,
};
use vstd::prelude::*;

verus! {

/// The configuration record: who administers the vault, which endpoint
/// delivers to it, and the addresses of the lending pool it deposits into.
#[derive(Clone, Copy, Debug, PartialEq, Eq)]
pub struct Store {
    pub admin: Address,
    pub bump: u8,
    pub endpoint_program: Address,
    pub usdc_mint: Address,
    pub token_program: Address,
    pub associated_token_program: Address,
    pub system_program: Address,
    pub jl_lending_program: Address,
    pub jl_liquidity_program: Address,
    pub jl_lending_admin: Address,
    pub jl_lending: Address,
    pub jl_f_token_mint: Address,
    pub jl_supply_token_reserves_liquidity: Address,
    pub jl_lending_supply_position_on_liquidity: Address,
    pub jl_rate_model: Address,
    pub jl_vault: Address,
    pub jl_liquidity: Address,
    pub jl_rewards_rate_model: Address,
}

impl Store {
    /// The bytes the record takes in its account: an eight-byte
    /// discriminator, the administrator, the bump, the endpoint, and fifteen
    /// further addresses.
    pub const SIZE: usize = 8 + 32 + 1 + 32 + (4 * 32) + (11 * 32);
}

/// Where the executor finds what it needs to plan a delivery.
#[derive(Clone, Copy, Debug, PartialEq, Eq)]
pub struct LzReceiveTypesAccounts {
    /// The vault's own address.
    pub store: Address,
    /// The lookup table that holds the lending pool's accounts.
    pub alt: Address,
    pub bump: u8,
}

impl LzReceiveTypesAccounts {
    /// The bytes the record's fields take.
    pub const INIT_SPACE: usize = 32 + 32 + 1;

    /// The bytes the record takes in its account.
    pub const SIZE: usize = 8 + 65;
}

/// The sender trusted for one source chain.
#[derive(Clone, Copy, Debug, PartialEq, Eq)]
pub struct PeerConfig {
    pub peer_address: [u8; 32],
    pub bump: u8,
}

/// What one remote sender has deposited so far.
#[derive(Clone, Copy, Debug, PartialEq, Eq)]
pub struct UserBalance {
    /// The sender's address on the remote chain.
    pub evm_address: EvmAddress,
    /// The sum of all deposits.
    pub total_deposited: u64,
    /// How many deposits there were.
    pub deposit_count: u32,
    /// When the record last changed, in seconds since the epoch.
    pub last_updated: i64,
    pub bump: u8,
}

impl UserBalance {
    /// The bytes the record takes in its account.
    pub const SIZE: usize = 8 + 20 + 8 + 4 + 8 + 1;

    /// The record of a sender that has not deposited yet.
    pub fn new() -> (fresh: UserBalance)
        ensures
            fresh.total_deposited == 0,
            fresh.deposit_count == 0,
            fresh.last_updated == 0,
            fresh.bump == 0,
            fresh.evm_address@ == Seq::new(20, |i: int| 0u8),
    {
        let evm_address: EvmAddress = [0u8; 20];
        assert(evm_address@ =~= Seq::new(20, |i: int| 0u8));
        UserBalance { evm_address, total_deposited: 0, deposit_count: 0, last_updated: 0, bump: 0 }
    }
}

/// The record after a deposit of `amount` from `evm_address` at `now`: the
/// first deposit writes the sender's address and the bump, every deposit adds
/// to the total, counts itself and leaves its time.
pub open spec fn credited(
    balance: UserBalance,
    evm_address: EvmAddress,
    bump: u8,
    amount: u64,
    now: i64,
) -> UserBalance {
    UserBalance {
        evm_address: if balance.deposit_count == 0 {
            evm_address
        } else {
            balance.evm_address
        },
        total_deposited: (balance.total_deposited + amount) as u64,
        deposit_count: (balance.deposit_count + 1) as u32,
        last_updated: now,
        bump: if balance.deposit_count == 0 {
            bump
        } else {
            balance.bump
        },
    }
}

/// Whether a deposit of `amount` would carry the total or the count past
/// what they can hold.
pub open spec fn credit_overflows(balance: UserBalance, amount: u64) -> bool {
    balance.total_deposited + amount > u64::MAX || balance.deposit_count + 1 > u32::MAX
}

/// Whether the record can take a deposit from `evm_address`: it is fresh, or
/// it already belongs to that sender.
pub open spec fn belongs_to(balance: UserBalance, evm_address: EvmAddress) -> bool {
    balance.deposit_count == 0 || balance.evm_address == evm_address
}

/// The seeds of the planning record of the vault at `store_key`.
pub open spec fn lz_receive_types_seeds(store_key: Address) -> Seq<Seq<u8>> {
    seq![lz_receive_types_seed(), store_key@]
}

/// The seeds of the ledger record of the sender at `evm_address`.
pub open spec fn user_balance_seeds(evm_address: EvmAddress) -> Seq<Seq<u8>> {
    seq![user_balance_seed(), evm_address@]
}

/// The address of the configuration record under `program_id`, if its seed
/// admits one.
pub fn store_address(program_id: &Address) -> (found: Option<Address>)
    ensures
        found == pda(seq![store_seed()], *program_id),
{
    let mut seeds: Vec<Vec<u8>> = Vec::new();
    seeds.push(store_seed_bytes());
    assert(seeds_view(seeds@) =~= seq![store_seed()]);
    find_address(&seeds, program_id)
}

/// The address of the planning record of the vault at `store_key`, if its
/// seeds admit one.
pub fn lz_receive_types_accounts_address(store_key: &Address, program_id: &Address) -> (found:
    Option<Address>)
    ensures
        found == pda(lz_receive_types_seeds(*store_key), *program_id),
{
    let mut seeds: Vec<Vec<u8>> = Vec::new();
    seeds.push(lz_receive_types_seed_bytes());
    seeds.push(seed_from(store_key.as_slice()));
    assert(seeds_view(seeds@) =~= lz_receive_types_seeds(*store_key));
    find_address(&seeds, program_id)
}

/// The address of the ledger record of the sender that a deposit names.
///
/// Fails with `InvalidMessageType` exactly when the payload is too short to
/// name a sender, and with `InvalidAccount` exactly when it names one whose
/// seeds admit no address.
pub fn user_balance_address(message: &[u8], program_id: &Address) -> (found: Result<
    Address,
    MyOAppError,
>)
    ensures
        match found {
            Ok(address) => message@.len() >= 28 && pda(
                user_balance_seeds(evm_address_of(message@)),
                *program_id,
            ) == Some(address),
            Err(e) => if message@.len() < 28 {
                e == MyOAppError::InvalidMessageType
            } else {
                e == MyOAppError::InvalidAccount && pda(
                    user_balance_seeds(evm_address_of(message@)),
                    *program_id,
                ) is None
            },
        },
{
    let evm_address = parse_evm_address(message)?;
    let mut seeds: Vec<Vec<u8>> = Vec::new();
    seeds.push(user_balance_seed_bytes());
    seeds.push(seed_from(evm_address.as_slice()));
    assert(seeds_view(seeds@) =~= user_balance_seeds(evm_address));
    match find_address(&seeds, program_id) {
        Some(address) => Ok(address),
        None => Err(MyOAppError::InvalidAccount),
    }
}

} // verus!
