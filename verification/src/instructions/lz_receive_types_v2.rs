//! The account query in its second form: the list of the first form, as it
//! is handed on to be named against lookup tables.
//!
//! Naming an account by its place in a lookup table is the endpoint
//! library's work and is done where the tables are read. What is fixed here
//! is the list that goes into it: the same accounts as the first form
//! gives, in the same order, each with its address and its writability.

use crate::address::Address;
use crate::endpoint::{LzAccount, LzReceiveParams};
use crate::errors::MyOAppError;
use crate::instructions::lz_receive_types::{resolution, resolve, LzReceiveTypes};
use crate::state::Store;
use vstd::prelude::*;

verus! {

/// An account of the plan: its address and whether the delivery writes it.
#[derive(Clone, Copy, Debug, PartialEq, Eq)]
pub struct AccountMetaRef {
    pub pubkey: Address,
    pub is_writable: bool,
}

/// What the query reads: what the first form reads.
#[derive(Clone, Copy, Debug, PartialEq, Eq)]
pub struct LzReceiveTypesV2 {
    pub program_id: Address,
    pub store_key: Address,
    pub store: Store,
}

/// The accounts of the plan for a list of the first form: entry for entry
/// the same address and the same writability. Who signs is not part of a
/// plan.
pub open spec fn plan_accounts(listed: Seq<LzAccount>) -> Seq<AccountMetaRef> {
    Seq::new(
        listed.len(),
        |i: int| AccountMetaRef { pubkey: listed[i].pubkey, is_writable: listed[i].is_writable },
    )
}

/// Turns a list of the first form into the accounts of a plan.
pub fn to_plan_accounts(listed: &Vec<LzAccount>) -> (accounts: Vec<AccountMetaRef>)
    ensures
        accounts@ == plan_accounts(listed@),
{
    let mut accounts: Vec<AccountMetaRef> = Vec::new();
    let mut i: usize = 0;
    while i < listed.len()
        invariant
            i <= listed.len(),
            accounts@ == plan_accounts(listed@).subrange(0, i as int),
        decreases listed.len() - i,
    {
        let account = &listed[i];
        accounts.push(AccountMetaRef { pubkey: account.pubkey, is_writable: account.is_writable });
        assert(accounts@ =~= plan_accounts(listed@).subrange(0, i + 1));
        i += 1;
    }
    assert(plan_accounts(listed@).subrange(0, listed@.len() as int) =~= plan_accounts(listed@));
    accounts
}

impl LzReceiveTypesV2 {
    /// What the first form of the query reads out of this one.
    pub open spec fn base(self) -> LzReceiveTypes {
        LzReceiveTypes { program_id: self.program_id, store_key: self.store_key, store: self.store }
    }

    /// Lists the accounts of the plan for delivering `params`: the accounts
    /// that the first form lists for the same inputs, in the same order, each
    /// with its address and its writability.
    ///
    /// Fails with `InvalidAccount` exactly when the peer record or one of the
    /// vault's holdings has no address.
    pub fn apply(
        ctx: &LzReceiveTypesV2,
        params: &LzReceiveParams,
        accounts_for_clear: &Vec<LzAccount>,
    ) -> (planned: Result<Vec<AccountMetaRef>, MyOAppError>)
        ensures
            match planned {
                Ok(accounts) => resolution(
                    ctx.base(),
                    params.src_eid,
                    accounts_for_clear@,
                ) matches Some(listed) && accounts@ == plan_accounts(listed),
                Err(e) => e == MyOAppError::InvalidAccount && resolution(
                    ctx.base(),
                    params.src_eid,
                    accounts_for_clear@,
                ) is None,
            },
    {
        let base = LzReceiveTypes {
            program_id: ctx.program_id,
            store_key: ctx.store_key,
            store: ctx.store,
        };
        match resolve(&base, params.src_eid, accounts_for_clear) {
            Ok(listed) => Ok(to_plan_accounts(&listed)),
            Err(e) => Err(e),
        }
    }
}

/// Both forms of the query list the same accounts. Where the first form
/// gives a list, the plan has as many entries, and the entry at each
/// position names the account listed at that position, with the writability
/// listed for it: two accounts that clearing takes, then eighteen for the
/// deposit, after the configuration record and the peer record.
pub proof fn law_both_forms_list_the_same(
    ctx: LzReceiveTypesV2,
    src_eid: u32,
    accounts_for_clear: Seq<LzAccount>,
)
    requires
        resolution(ctx.base(), src_eid, accounts_for_clear) is Some,
    ensures
        ({
            let listed = resolution(ctx.base(), src_eid, accounts_for_clear)->Some_0;
            let plan = plan_accounts(listed);
            &&& plan.len() == listed.len()
            &&& listed.len() == 2 + accounts_for_clear.len() + 18
            &&& forall|i: int|
                0 <= i < listed.len() ==> (#[trigger] plan[i]).pubkey == listed[i].pubkey
                    && plan[i].is_writable == listed[i].is_writable
        }),
{
}

} // verus!
