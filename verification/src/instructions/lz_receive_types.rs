//! Which accounts a delivery will touch, told to the executor ahead of it.
//!
//! The list is a function of the message's routing data and the
//! configuration alone, so asking twice gives the same list, before or after
//! the delivery itself. Its order is the one the delivery reads it back in.

use crate::address::{
    find_address, pda, seed_from, seeds_view, system_program, system_program_id, Address,
};
use crate::endpoint::{LzAccount, LzReceiveParams};
use crate::errors::MyOAppError;
use crate::lending::{deposit_accounts, deposit_addresses, deposit_identities, push_deposit_accounts};
use crate::seeds::{peer_seed, peer_seed_bytes};
use crate::state::Store;
use crate::wire::{put_u32_be, u32_be};
use vstd::prelude::*;

verus! {

/// What the account query reads: the program it runs in, and the
/// configuration record with its address.
#[derive(Clone, Copy, Debug, PartialEq, Eq)]
pub struct LzReceiveTypes {
    pub program_id: Address,
    pub store_key: Address,
    pub store: Store,
}

/// The seeds of the peer record for a source chain.
pub open spec fn peer_seeds(store_key: Address, src_eid: u32) -> Seq<Seq<u8>> {
    seq![peer_seed(), store_key@, u32_be(src_eid)]
}

/// The seeds of the token holding that `owner` has of `mint`.
pub open spec fn holding_seeds(owner: Address, token_program: Address, mint: Address) -> Seq<
    Seq<u8>,
> {
    seq![owner@, token_program@, mint@]
}

/// The full list for a deposit: the configuration record (writable), the
/// peer record (read-only), the accounts that clearing the slot takes, and
/// the deposit's eighteen accounts.
pub open spec fn resolved_accounts(
    store_key: Address,
    peer: Address,
    accounts_for_clear: Seq<LzAccount>,
    identities: Seq<Address>,
) -> Seq<LzAccount> {
    seq![
        LzAccount { pubkey: store_key, is_signer: false, is_writable: true },
        LzAccount { pubkey: peer, is_signer: false, is_writable: false },
    ] + accounts_for_clear + deposit_accounts(identities)
}

/// The three addresses that the list needs derived: the peer record and the
/// vault's holdings of the deposited token and of the pool's share token.
/// `None` where one of them has no address.
pub open spec fn derived_addresses(ctx: LzReceiveTypes, src_eid: u32) -> Option<
    (Address, Address, Address),
> {
    let store = ctx.store;
    match (
        pda(peer_seeds(ctx.store_key, src_eid), ctx.program_id),
        pda(
            holding_seeds(ctx.store_key, store.token_program, store.usdc_mint),
            store.associated_token_program,
        ),
        pda(
            holding_seeds(ctx.store_key, store.token_program, store.jl_f_token_mint),
            store.associated_token_program,
        ),
    ) {
        (Some(peer), Some(depositor), Some(recipient)) => Some((peer, depositor, recipient)),
        _ => None,
    }
}

/// The list for a message from `src_eid`, with the system program under its
/// well-known address. `None` where an address cannot be derived.
pub open spec fn resolution(
    ctx: LzReceiveTypes,
    src_eid: u32,
    accounts_for_clear: Seq<LzAccount>,
) -> Option<Seq<LzAccount>> {
    match derived_addresses(ctx, src_eid) {
        Some((peer, depositor, recipient)) => Some(
            resolved_accounts(
                ctx.store_key,
                peer,
                accounts_for_clear,
                deposit_identities(
                    ctx.store_key,
                    depositor,
                    recipient,
                    ctx.store,
                    system_program(),
                ),
            ),
        ),
        None => None,
    }
}

/// Builds the seeds of the peer record for a source chain.
pub fn peer_seed_list(store_key: &Address, src_eid: u32) -> (seeds: Vec<Vec<u8>>)
    ensures
        seeds_view(seeds@) == peer_seeds(*store_key, src_eid),
{
    let mut chain: Vec<u8> = Vec::new();
    put_u32_be(&mut chain, src_eid);
    assert(chain@ =~= u32_be(src_eid));
    let mut seeds: Vec<Vec<u8>> = Vec::new();
    seeds.push(peer_seed_bytes());
    seeds.push(seed_from(store_key.as_slice()));
    seeds.push(chain);
    assert(seeds_view(seeds@) =~= peer_seeds(*store_key, src_eid));
    seeds
}

/// Builds the seeds of the token holding that `owner` has of `mint`.
pub fn holding_seed_list(owner: &Address, token_program: &Address, mint: &Address) -> (seeds: Vec<
    Vec<u8>,
>)
    ensures
        seeds_view(seeds@) == holding_seeds(*owner, *token_program, *mint),
{
    let mut seeds: Vec<Vec<u8>> = Vec::new();
    seeds.push(seed_from(owner.as_slice()));
    seeds.push(seed_from(token_program.as_slice()));
    seeds.push(seed_from(mint.as_slice()));
    assert(seeds_view(seeds@) =~= holding_seeds(*owner, *token_program, *mint));
    seeds
}

/// Derives the peer record's address and the vault's two holdings.
pub fn derive_addresses(ctx: &LzReceiveTypes, src_eid: u32) -> (found: Option<
    (Address, Address, Address),
>)
    ensures
        found == derived_addresses(*ctx, src_eid),
{
    let s = &ctx.store;
    let peer = find_address(&peer_seed_list(&ctx.store_key, src_eid), &ctx.program_id);
    let depositor = find_address(
        &holding_seed_list(&ctx.store_key, &s.token_program, &s.usdc_mint),
        &s.associated_token_program,
    );
    let recipient = find_address(
        &holding_seed_list(&ctx.store_key, &s.token_program, &s.jl_f_token_mint),
        &s.associated_token_program,
    );
    match (peer, depositor, recipient) {
        (Some(peer), Some(depositor), Some(recipient)) => Some((peer, depositor, recipient)),
        _ => None,
    }
}

/// Lays out the full list over addresses already derived.
pub fn resolve_accounts(
    store_key: Address,
    peer: Address,
    accounts_for_clear: &Vec<LzAccount>,
    identities: &Vec<Address>,
) -> (accounts: Vec<LzAccount>)
    requires
        identities@.len() == 18,
    ensures
        accounts@ == resolved_accounts(store_key, peer, accounts_for_clear@, identities@),
{
    let mut accounts: Vec<LzAccount> = Vec::new();
    accounts.push(LzAccount { pubkey: store_key, is_signer: false, is_writable: true });
    accounts.push(LzAccount { pubkey: peer, is_signer: false, is_writable: false });
    let ghost head = accounts@;
    let mut i: usize = 0;
    while i < accounts_for_clear.len()
        invariant
            i <= accounts_for_clear.len(),
            accounts@ == head + accounts_for_clear@.subrange(0, i as int),
        decreases accounts_for_clear.len() - i,
    {
        accounts.push(accounts_for_clear[i]);
        assert(accounts@ =~= head + accounts_for_clear@.subrange(0, i + 1));
        i += 1;
    }
    assert(accounts_for_clear@.subrange(0, accounts_for_clear@.len() as int)
        =~= accounts_for_clear@);
    push_deposit_accounts(&mut accounts, identities);
    assert(accounts@ =~= resolved_accounts(store_key, peer, accounts_for_clear@, identities@));
    accounts
}

/// Lists every account that a delivery from `src_eid` will touch: the one
/// list that both forms of the query give.
///
/// Fails with `InvalidAccount` exactly when the peer record or one of the
/// vault's holdings has no address.
pub fn resolve(ctx: &LzReceiveTypes, src_eid: u32, accounts_for_clear: &Vec<LzAccount>) -> (listed:
    Result<Vec<LzAccount>, MyOAppError>)
    ensures
        match listed {
            Ok(accounts) => resolution(*ctx, src_eid, accounts_for_clear@) == Some(accounts@),
            Err(e) => e == MyOAppError::InvalidAccount && resolution(
                *ctx,
                src_eid,
                accounts_for_clear@,
            ) is None,
        },
{
    match derive_addresses(ctx, src_eid) {
        None => Err(MyOAppError::InvalidAccount),
        Some((peer, depositor, recipient)) => {
            let identities = deposit_addresses(
                ctx.store_key,
                depositor,
                recipient,
                &ctx.store,
                system_program_id(),
            );
            Ok(resolve_accounts(ctx.store_key, peer, accounts_for_clear, &identities))
        },
    }
}

impl LzReceiveTypes {
    /// Lists every account that delivering `params` will touch, in the order
    /// the delivery expects them.
    ///
    /// `accounts_for_clear` are the accounts that clearing the message's
    /// slot takes, as the endpoint names them for this receiver, source
    /// chain, sender and nonce. The system program is listed under its
    /// well-known address. Fails with `InvalidAccount` exactly when the peer
    /// record or one of the vault's holdings has no address.
    pub fn apply(
        ctx: &LzReceiveTypes,
        params: &LzReceiveParams,
        accounts_for_clear: &Vec<LzAccount>,
    ) -> (listed: Result<Vec<LzAccount>, MyOAppError>)
        ensures
            match listed {
                Ok(accounts) => resolution(*ctx, params.src_eid, accounts_for_clear@) == Some(
                    accounts@,
                ),
                Err(e) => e == MyOAppError::InvalidAccount && resolution(
                    *ctx,
                    params.src_eid,
                    accounts_for_clear@,
                ) is None,
            },
    {
        resolve(ctx, params.src_eid, accounts_for_clear)
    }
}

} // verus!
