//! Setting the vault up.

use crate::address::{address_default, default_address, seeds_view, Address};
use crate::endpoint::{RegisterOAppParams, Registration};
use crate::seeds::{store_signer_seed_list, store_signer_seeds};
use crate::state::{LzReceiveTypesAccounts, Store};
use vstd::prelude::*;

verus! {

/// What initialisation writes: the configuration record, with its address
/// and bump, and the planning record with its bump; and the lookup table to
/// record, if one is given.
#[derive(Clone, Copy, Debug, PartialEq, Eq)]
pub struct InitStore {
    pub payer: Address,
    pub store_key: Address,
    pub store: Store,
    pub store_bump: u8,
    pub lz_receive_types_accounts: LzReceiveTypesAccounts,
    pub lz_receive_types_accounts_bump: u8,
    pub alt: Option<Address>,
}

/// Who administers the vault and which endpoint delivers to it.
#[derive(Clone, Copy, Debug, PartialEq, Eq)]
pub struct InitStoreParams {
    pub admin: Address,
    pub endpoint: Address,
}

/// The lookup table recorded at initialisation: the one given, and the
/// default address where none is.
pub open spec fn initial_alt(alt: Option<Address>) -> Address {
    match alt {
        Some(key) => key,
        None => default_address(),
    }
}

impl InitStore {
    /// Records the administrator, the bump and the endpoint in the
    /// configuration, fills the planning record, and returns the
    /// registration to make at the endpoint, with the administrator as
    /// delegate.
    pub fn apply(ctx: &mut InitStore, params: &InitStoreParams) -> (registration: Registration)
        ensures
            final(ctx).store == (Store {
                admin: params.admin,
                bump: old(ctx).store_bump,
                endpoint_program: params.endpoint,
                ..old(ctx).store
            }),
            final(ctx).lz_receive_types_accounts == (LzReceiveTypesAccounts {
                store: old(ctx).store_key,
                alt: initial_alt(old(ctx).alt),
                bump: old(ctx).lz_receive_types_accounts_bump,
            }),
            final(ctx).payer == old(ctx).payer,
            final(ctx).store_key == old(ctx).store_key,
            final(ctx).store_bump == old(ctx).store_bump,
            final(ctx).lz_receive_types_accounts_bump == old(ctx).lz_receive_types_accounts_bump,
            final(ctx).alt == old(ctx).alt,
            registration.oapp == old(ctx).store_key,
            registration.params == (RegisterOAppParams { delegate: params.admin }),
            seeds_view(registration.signer_seeds@) == store_signer_seeds(old(ctx).store_bump),
    {
        ctx.store.admin = params.admin;
        ctx.store.bump = ctx.store_bump;
        ctx.store.endpoint_program = params.endpoint;
        let register_params = RegisterOAppParams { delegate: ctx.store.admin };
        let registration = Registration {
            oapp: ctx.store_key,
            params: register_params,
            signer_seeds: store_signer_seed_list(ctx.store.bump),
        };
        ctx.lz_receive_types_accounts.store = ctx.store_key;
        ctx.lz_receive_types_accounts.alt = match ctx.alt {
            Some(key) => key,
            None => address_default(),
        };
        ctx.lz_receive_types_accounts.bump = ctx.lz_receive_types_accounts_bump;
        registration
    }
}

} // verus!
