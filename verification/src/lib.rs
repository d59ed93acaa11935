//! The receiving half of a cross-chain messaging bridge.
//!
//! A message that a trusted peer sent from a remote chain is authenticated,
//! its sequence slot is consumed, its payload is decoded, and the durable
//! records it speaks of are updated. Deposit messages additionally yield a
//! call into a lending program on behalf of the remote sender.
//!
//! Everything here is a function from plain values to plain values; the one
//! call that leaves the library is the derivation of an address from seeds.
//! Calls into the endpoint, the clock, logging and cross-program invocation
//! are left to the caller, which hands the library what it read and performs
//! what the library returns.

pub mod address;
pub mod counter;
pub mod endpoint;
pub mod errors;
pub mod instructions;
pub mod lending;
pub mod msg_codec;
pub mod phase;
pub mod seeds;
pub mod slots;
pub mod state;
pub mod wire;

use crate::endpoint::{
    instruction_views, Instruction, LzAccount, LzReceiveParams, RegisterOAppParams, Registration,
};
use crate::errors::MyOAppError;
use crate::instructions::init_store::{initial_alt, InitStore, InitStoreParams};
use crate::instructions::init_store_atas::{creations, expected_holdings, InitStoreAtas};
use crate::instructions::lz_receive::{after, carries, next, Action, LzReceive, Runtime};
use crate::instructions::lz_receive_types::{resolution, LzReceiveTypes};
use crate::instructions::lz_receive_types_v2::{plan_accounts, AccountMetaRef, LzReceiveTypesV2};
use crate::instructions::set_alt::SetAlt;
use crate::instructions::set_jl_config::{configured, SetJlConfig, SetJlConfigParams};
use crate::phase::{Event, Phase};
use crate::state::{LzReceiveTypesAccounts, Store};
use vstd::prelude::*;

verus! {

/// The notice of one deposit, by which observers follow the ledger without
/// reading it.
#[derive(Clone, Copy, Debug, PartialEq, Eq)]
pub struct DepositEvent {
    /// The message's globally unique identifier.
    pub guid: [u8; 32],
    /// The address on the remote chain that the funds came from.
    pub evm_address: [u8; 20],
    /// The amount deposited, in base units.
    pub amount: u64,
    /// The sender's total after this deposit.
    pub new_total: u64,
    /// Which of the sender's deposits this is, counting from one.
    pub deposit_index: u32,
    /// When it was taken, in seconds since the epoch.
    pub timestamp: i64,
}

/// Sets the vault up. See `InitStore::apply`.
pub fn init_store(ctx: &mut InitStore, params: InitStoreParams) -> (registration: Registration)
    ensures
        final(ctx).store == (Store {
            admin: params.admin,
            bump: old(ctx).store_bump,
            endpoint_program: params.endpoint,
            ..old(ctx).store
        }),
        final(ctx).lz_receive_types_accounts == (LzReceiveTypesAccounts {
            store: old(ctx).store_key,
            alt: initial_alt(old(ctx).alt),
            bump: old(ctx).lz_receive_types_accounts_bump,
        }),
        final(ctx).payer == old(ctx).payer,
        final(ctx).store_key == old(ctx).store_key,
        final(ctx).store_bump == old(ctx).store_bump,
        final(ctx).lz_receive_types_accounts_bump == old(ctx).lz_receive_types_accounts_bump,
        final(ctx).alt == old(ctx).alt,
        registration.oapp == old(ctx).store_key,
        registration.params == (RegisterOAppParams { delegate: params.admin }),
        crate::address::seeds_view(registration.signer_seeds@) == crate::seeds::store_signer_seeds(
            old(ctx).store_bump,
        ),
{
    InitStore::apply(ctx, &params)
}

/// Takes a delivery one step on. See `LzReceive::apply`.
pub fn lz_receive(
    ctx: &mut LzReceive,
    params: &LzReceiveParams,
    runtime: &Runtime,
    phase: Phase,
    event: Event,
) -> (step: (Phase, Action))
    ensures
        (step.0, step.1.decision()) == next(*old(ctx), *params, *runtime, phase, event),
        carries(step.1, *old(ctx), *params, *runtime),
        *final(ctx) == after(*old(ctx), *params, *runtime, phase, event),
{
    LzReceive::apply(ctx, params, runtime, phase, event)
}

/// Lists the accounts of a delivery. See `LzReceiveTypes::apply`.
pub fn lz_receive_types(
    ctx: &LzReceiveTypes,
    params: &LzReceiveParams,
    accounts_for_clear: &Vec<LzAccount>,
) -> (listed: Result<Vec<LzAccount>, MyOAppError>)
    ensures
        match listed {
            Ok(accounts) => resolution(*ctx, params.src_eid, accounts_for_clear@) == Some(
                accounts@,
            ),
            Err(e) => e == MyOAppError::InvalidAccount && resolution(
                *ctx,
                params.src_eid,
                accounts_for_clear@,
            ) is None,
        },
{
    LzReceiveTypes::apply(ctx, params, accounts_for_clear)
}

/// Lists the accounts of a delivery's plan. See `LzReceiveTypesV2::apply`.
pub fn lz_receive_types_v2(
    ctx: &LzReceiveTypesV2,
    params: &LzReceiveParams,
    accounts_for_clear: &Vec<LzAccount>,
) -> (planned: Result<Vec<AccountMetaRef>, MyOAppError>)
    ensures
        match planned {
            Ok(accounts) => resolution(
                ctx.base(),
                params.src_eid,
                accounts_for_clear@,
            ) matches Some(listed) && accounts@ == plan_accounts(listed),
            Err(e) => e == MyOAppError::InvalidAccount && resolution(
                ctx.base(),
                params.src_eid,
                accounts_for_clear@,
            ) is None,
        },
{
    LzReceiveTypesV2::apply(ctx, params, accounts_for_clear)
}

/// Replaces the pool's addresses in the configuration. See
/// `SetJlConfig::apply`.
pub fn set_jl_config(ctx: &mut SetJlConfig, params: SetJlConfigParams)
    ensures
        final(ctx).store == configured(old(ctx).store, params),
        final(ctx).admin == old(ctx).admin,
{
    SetJlConfig::apply(ctx, params)
}

/// Records the lookup table in the planning record. See `SetAlt::apply`.
pub fn set_alt(ctx: &mut SetAlt)
    ensures
        final(ctx).lz_receive_types_accounts == (LzReceiveTypesAccounts {
            alt: old(ctx).alt,
            ..old(ctx).lz_receive_types_accounts
        }),
        final(ctx).store == old(ctx).store,
        final(ctx).alt == old(ctx).alt,
        final(ctx).admin == old(ctx).admin,
{
    SetAlt::apply(ctx)
}

/// Lists the calls that open the vault's holdings. See
/// `InitStoreAtas::apply`.
pub fn init_store_atas(ctx: &InitStoreAtas) -> (planned: Result<Vec<Instruction>, MyOAppError>)
    ensures
        planned is Ok <==> expected_holdings(*ctx) == Some(
            (ctx.store_usdc_ata, ctx.store_ftoken_ata),
        ),
        planned matches Ok(calls) ==> instruction_views(calls@) == creations(*ctx),
        planned matches Err(e) ==> e == MyOAppError::InvalidAccount,
{
    InitStoreAtas::apply(ctx)
}

} // verus!
