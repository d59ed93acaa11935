//! Setting the lending pool's addresses.

use crate::address::Address;
use crate::state::Store;
use vstd::prelude::*;

verus! {

/// What the setting reads and writes: the configuration record, and the
/// administrator on whose word it is changed.
#[derive(Clone, Copy, Debug, PartialEq, Eq)]
pub struct SetJlConfig {
    pub store: Store,
    pub admin: Address,
}

/// The addresses to set.
#[derive(Clone, Copy, Debug, PartialEq, Eq)]
pub struct SetJlConfigParams {
    pub usdc_mint: Address,
    pub token_program: Address,
    pub associated_token_program: Address,
    pub system_program: Address,
    pub jl_lending_program: Address,
    pub jl_liquidity_program: Address,
    pub jl_lending_admin: Address,
    pub jl_lending: Address,
    pub jl_f_token_mint: Address,
    pub jl_supply_token_reserves_liquidity: Address,
    pub jl_lending_supply_position_on_liquidity: Address,
    pub jl_rate_model: Address,
    pub jl_vault: Address,
    pub jl_liquidity: Address,
    pub jl_rewards_rate_model: Address,
}

/// The configuration with the pool's addresses replaced: the administrator,
/// the bump and the endpoint stay.
pub open spec fn configured(store: Store, params: SetJlConfigParams) -> Store {
    Store {
        admin: store.admin,
        bump: store.bump,
        endpoint_program: store.endpoint_program,
        usdc_mint: params.usdc_mint,
        token_program: params.token_program,
        associated_token_program: params.associated_token_program,
        system_program: params.system_program,
        jl_lending_program: params.jl_lending_program,
        jl_liquidity_program: params.jl_liquidity_program,
        jl_lending_admin: params.jl_lending_admin,
        jl_lending: params.jl_lending,
        jl_f_token_mint: params.jl_f_token_mint,
        jl_supply_token_reserves_liquidity: params.jl_supply_token_reserves_liquidity,
        jl_lending_supply_position_on_liquidity: params.jl_lending_supply_position_on_liquidity,
        jl_rate_model: params.jl_rate_model,
        jl_vault: params.jl_vault,
        jl_liquidity: params.jl_liquidity,
        jl_rewards_rate_model: params.jl_rewards_rate_model,
    }
}

impl SetJlConfig {
    /// Replaces the pool's addresses in the configuration.
    pub fn apply(ctx: &mut SetJlConfig, params: SetJlConfigParams)
        ensures
            final(ctx).store == configured(old(ctx).store, params),
            final(ctx).admin == old(ctx).admin,
    {
        ctx.store.usdc_mint = params.usdc_mint;
        ctx.store.token_program = params.token_program;
        ctx.store.associated_token_program = params.associated_token_program;
        ctx.store.system_program = params.system_program;
        ctx.store.jl_lending_program = params.jl_lending_program;
        ctx.store.jl_liquidity_program = params.jl_liquidity_program;
        ctx.store.jl_lending_admin = params.jl_lending_admin;
        ctx.store.jl_lending = params.jl_lending;
        ctx.store.jl_f_token_mint = params.jl_f_token_mint;
        ctx.store.jl_supply_token_reserves_liquidity = params.jl_supply_token_reserves_liquidity;
        ctx.store.jl_lending_supply_position_on_liquidity =
        params.jl_lending_supply_position_on_liquidity;
        ctx.store.jl_rate_model = params.jl_rate_model;
        ctx.store.jl_vault = params.jl_vault;
        ctx.store.jl_liquidity = params.jl_liquidity;
        ctx.store.jl_rewards_rate_model = params.jl_rewards_rate_model;
    }
}

} // verus!
