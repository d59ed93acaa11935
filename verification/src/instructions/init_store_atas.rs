//! Opening the vault's two token holdings.
//!
//! The vault holds the deposited token and the pool's share token in
//! accounts whose addresses follow from the vault's own. Before deposits are
//! taken, both must exist. This instruction checks that the accounts handed
//! in are those two and says which of them are still to be created.

use crate::address::{address_eq, find_address, pda, Address};
use crate::endpoint::{instruction_views, AccountMeta, Instruction, InstructionView};
use crate::errors::MyOAppError;
use crate::instructions::lz_receive_types::{holding_seed_list, holding_seeds};
use crate::state::Store;
use vstd::prelude::*;

verus! {

/// What the instruction reads: the payer, the configuration record with
/// its address, the two holdings handed in and whether each is still empty,
/// and the programs handed in.
#[derive(Clone, Copy, Debug, PartialEq, Eq)]
pub struct InitStoreAtas {
    pub payer: Address,
    pub store_key: Address,
    pub store: Store,
    pub store_usdc_ata: Address,
    pub store_usdc_ata_is_empty: bool,
    pub store_ftoken_ata: Address,
    pub store_ftoken_ata_is_empty: bool,
    pub usdc_mint: Address,
    pub ftoken_mint: Address,
    pub token_program: Address,
    pub associated_token_program: Address,
    pub system_program: Address,
}

/// The accounts of the call that creates `holding` for `mint`: the payer,
/// who signs and pays, the holding, the vault as owner, the mint, and the
/// system and token programs.
pub open spec fn creation_metas(ctx: InitStoreAtas, holding: Address, mint: Address) -> Seq<
    AccountMeta,
> {
    seq![
        AccountMeta { pubkey: ctx.payer, is_signer: true, is_writable: true },
        AccountMeta { pubkey: holding, is_signer: false, is_writable: true },
        AccountMeta { pubkey: ctx.store_key, is_signer: false, is_writable: false },
        AccountMeta { pubkey: mint, is_signer: false, is_writable: false },
        AccountMeta { pubkey: ctx.system_program, is_signer: false, is_writable: false },
        AccountMeta { pubkey: ctx.token_program, is_signer: false, is_writable: false },
    ]
}

/// The call that creates `holding` for `mint`: to the associated-token
/// program handed in, with no data.
pub open spec fn creation(ctx: InitStoreAtas, holding: Address, mint: Address) -> InstructionView {
    InstructionView {
        program_id: ctx.associated_token_program,
        accounts: creation_metas(ctx, holding, mint),
        data: Seq::<u8>::empty(),
    }
}

/// The calls to make for the holdings that are still empty: first the
/// holding of the deposited token, then that of the share token.
pub open spec fn creations(ctx: InitStoreAtas) -> Seq<InstructionView> {
    let first = if ctx.store_usdc_ata_is_empty {
        seq![creation(ctx, ctx.store_usdc_ata, ctx.store.usdc_mint)]
    } else {
        Seq::<InstructionView>::empty()
    };
    let second = if ctx.store_ftoken_ata_is_empty {
        seq![creation(ctx, ctx.store_ftoken_ata, ctx.store.jl_f_token_mint)]
    } else {
        Seq::<InstructionView>::empty()
    };
    first + second
}

/// The addresses that the two holdings must have, where both can be derived.
pub open spec fn expected_holdings(ctx: InitStoreAtas) -> Option<(Address, Address)> {
    let store = ctx.store;
    match (
        pda(
            holding_seeds(ctx.store_key, store.token_program, store.usdc_mint),
            store.associated_token_program,
        ),
        pda(
            holding_seeds(ctx.store_key, store.token_program, store.jl_f_token_mint),
            store.associated_token_program,
        ),
    ) {
        (Some(usdc), Some(ftoken)) => Some((usdc, ftoken)),
        _ => None,
    }
}

/// Builds the call that creates `holding` for `mint`.
fn create_holding(ctx: &InitStoreAtas, holding: Address, mint: Address) -> (ix: Instruction)
    ensures
        ix@ == creation(*ctx, holding, mint),
{
    let mut accounts: Vec<AccountMeta> = Vec::new();
    accounts.push(AccountMeta { pubkey: ctx.payer, is_signer: true, is_writable: true });
    accounts.push(AccountMeta { pubkey: holding, is_signer: false, is_writable: true });
    accounts.push(AccountMeta { pubkey: ctx.store_key, is_signer: false, is_writable: false });
    accounts.push(AccountMeta { pubkey: mint, is_signer: false, is_writable: false });
    accounts.push(AccountMeta { pubkey: ctx.system_program, is_signer: false, is_writable: false });
    accounts.push(AccountMeta { pubkey: ctx.token_program, is_signer: false, is_writable: false });
    assert(accounts@ =~= creation_metas(*ctx, holding, mint));
    Instruction { program_id: ctx.associated_token_program, accounts, data: Vec::new() }
}

/// Checks the holdings handed in against the addresses they must have and
/// lists the calls that create those still empty.
///
/// Fails with `InvalidAccount` exactly when one of the holdings handed in is
/// not at its address.
pub fn plan_store_atas(
    ctx: &InitStoreAtas,
    expected_usdc_ata: Address,
    expected_ftoken_ata: Address,
) -> (planned: Result<Vec<Instruction>, MyOAppError>)
    ensures
        planned is Ok <==> ctx.store_usdc_ata == expected_usdc_ata && ctx.store_ftoken_ata
            == expected_ftoken_ata,
        planned matches Ok(calls) ==> instruction_views(calls@) == creations(*ctx),
        planned matches Err(e) ==> e == MyOAppError::InvalidAccount,
{
    if !address_eq(&ctx.store_usdc_ata, &expected_usdc_ata) {
        return Err(MyOAppError::InvalidAccount);
    }
    if !address_eq(&ctx.store_ftoken_ata, &expected_ftoken_ata) {
        return Err(MyOAppError::InvalidAccount);
    }
    let mut calls: Vec<Instruction> = Vec::new();
    if ctx.store_usdc_ata_is_empty {
        calls.push(create_holding(ctx, ctx.store_usdc_ata, ctx.store.usdc_mint));
    }
    if ctx.store_ftoken_ata_is_empty {
        calls.push(create_holding(ctx, ctx.store_ftoken_ata, ctx.store.jl_f_token_mint));
    }
    assert(instruction_views(calls@) =~= creations(*ctx));
    Ok(calls)
}

impl InitStoreAtas {
    /// Derives the addresses of the vault's two holdings, checks the
    /// accounts handed in against them, and lists the calls that create the
    /// holdings still empty.
    ///
    /// Fails with `InvalidAccount` exactly when a holding has no address or
    /// an account handed in is not at its holding's address.
    pub fn apply(ctx: &InitStoreAtas) -> (planned: Result<Vec<Instruction>, MyOAppError>)
        ensures
            planned is Ok <==> expected_holdings(*ctx) == Some(
                (ctx.store_usdc_ata, ctx.store_ftoken_ata),
            ),
            planned matches Ok(calls) ==> instruction_views(calls@) == creations(*ctx),
            planned matches Err(e) ==> e == MyOAppError::InvalidAccount,
    {
        let store = &ctx.store;
        let expected_usdc_ata = find_address(
            &holding_seed_list(&ctx.store_key, &store.token_program, &store.usdc_mint),
            &store.associated_token_program,
        );
        let expected_ftoken_ata = find_address(
            &holding_seed_list(&ctx.store_key, &store.token_program, &store.jl_f_token_mint),
            &store.associated_token_program,
        );
        match (expected_usdc_ata, expected_ftoken_ata) {
            (Some(usdc), Some(ftoken)) => plan_store_atas(ctx, usdc, ftoken),
            _ => Err(MyOAppError::InvalidAccount),
        }
    }
}

} // verus!
