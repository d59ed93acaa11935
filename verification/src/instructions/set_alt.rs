//! Setting the lookup table that plans refer to.

use crate::address::Address;
use crate::state::{LzReceiveTypesAccounts, Store};
use vstd::prelude::*;

verus! {

/// What the setting reads and writes: the configuration record, the
/// planning record, the lookup table to record, and the administrator.
#[derive(Clone, Copy, Debug, PartialEq, Eq)]
pub struct SetAlt {
    pub store: Store,
    pub lz_receive_types_accounts: LzReceiveTypesAccounts,
    pub alt: Address,
    pub admin: Address,
}

impl SetAlt {
    /// Records the lookup table in the planning record.
    pub fn apply(ctx: &mut SetAlt)
        ensures
            final(ctx).lz_receive_types_accounts == (LzReceiveTypesAccounts {
                alt: old(ctx).alt,
                ..old(ctx).lz_receive_types_accounts
            }),
            final(ctx).store == old(ctx).store,
            final(ctx).alt == old(ctx).alt,
            final(ctx).admin == old(ctx).admin,
    {
        ctx.lz_receive_types_accounts.alt = ctx.alt;
    }
}

} // verus!
