//! The deposit entry point of the lending program: its discriminator, the
//! order of its accounts, and which of them it writes.
//!
//! The account list is told to the executor ahead of a delivery and read
//! back from it during the delivery. Both sides go by the one table here.

use crate::address::{address_eq, Address};
use crate::endpoint::{AccountMeta, Instruction, InstructionView, LzAccount};
use crate::errors::MyOAppError;
use crate::state::Store;
use crate::wire::{put_u64_le, u64_le};
use vstd::prelude::*;

verus! {

/// How many accounts a deposit takes from the delivery: the seventeen
/// arguments of the call and the lending program itself.
pub const DEPOSIT_ACCOUNTS: usize = 18;

/// How many arguments the call has.
pub const DEPOSIT_ARGUMENTS: usize = 17;

/// The eight bytes that select the deposit entry point.
pub open spec fn deposit_discriminator() -> Seq<u8> {
    seq![242u8, 35u8, 198u8, 137u8, 82u8, 225u8, 242u8, 182u8]
}

/// Whether the account at a position is written by the deposit.
pub open spec fn position_writable(i: int) -> bool {
    i == 0 || i == 1 || i == 2 || i == 5 || i == 6 || i == 7 || i == 8 || i == 10 || i == 11 || i
        == 12
}

/// Whether the account at a position signs the call: only the first does.
pub open spec fn position_signer(i: int) -> bool {
    i == 0
}

/// The accounts of a deposit in order: the vault as signer, its two token
/// holdings, the pool's accounts from the configuration, the three
/// well-known programs, and the lending program.
pub open spec fn deposit_identities(
    signer: Address,
    depositor: Address,
    recipient: Address,
    store: Store,
    system_program: Address,
) -> Seq<Address> {
    seq![
        signer,
        depositor,
        recipient,
        store.usdc_mint,
        store.jl_lending_admin,
        store.jl_lending,
        store.jl_f_token_mint,
        store.jl_supply_token_reserves_liquidity,
        store.jl_lending_supply_position_on_liquidity,
        store.jl_rate_model,
        store.jl_vault,
        store.jl_liquidity,
        store.jl_liquidity_program,
        store.jl_rewards_rate_model,
        store.token_program,
        store.associated_token_program,
        system_program,
        store.jl_lending_program,
    ]
}

/// The deposit's accounts as reported to the executor: none signs, and each
/// is writable where the table says so.
pub open spec fn deposit_accounts(identities: Seq<Address>) -> Seq<LzAccount> {
    Seq::new(
        18,
        |i: int| LzAccount { pubkey: identities[i], is_signer: false, is_writable: position_writable(i) },
    )
}

/// The arguments of the call over the accounts supplied.
pub open spec fn deposit_metas(keys: Seq<Address>) -> Seq<AccountMeta> {
    Seq::new(
        17,
        |i: int| AccountMeta {
            pubkey: keys[i],
            is_signer: position_signer(i),
            is_writable: position_writable(i),
        },
    )
}

/// The data of the call: the discriminator and the amount in eight
/// little-endian bytes.
pub open spec fn deposit_data(amount: u64) -> Seq<u8> {
    deposit_discriminator() + u64_le(amount)
}

/// Whether the accounts supplied agree with the configuration on the mint,
/// the two token programs and the lending program.
pub open spec fn keys_match_config(keys: Seq<Address>, store: Store) -> bool {
    &&& keys[3] == store.usdc_mint
    &&& keys[14] == store.token_program
    &&& keys[15] == store.associated_token_program
    &&& keys[17] == store.jl_lending_program
}

/// The call that deposits `amount` over the eighteen accounts supplied.
pub open spec fn deposit_instruction(keys: Seq<Address>, amount: u64) -> InstructionView {
    InstructionView {
        program_id: keys[17],
        accounts: deposit_metas(keys),
        data: deposit_data(amount),
    }
}

/// Whether the account at position `i` is written by the deposit.
pub fn is_position_writable(i: usize) -> (writable: bool)
    ensures
        writable == position_writable(i as int),
{
    i == 0 || i == 1 || i == 2 || i == 5 || i == 6 || i == 7 || i == 8 || i == 10 || i == 11 || i
        == 12
}

/// Lists the accounts of a deposit in order.
pub fn deposit_addresses(
    signer: Address,
    depositor: Address,
    recipient: Address,
    store: &Store,
    system_program: Address,
) -> (identities: Vec<Address>)
    ensures
        identities@ == deposit_identities(signer, depositor, recipient, *store, system_program),
{
    let mut identities: Vec<Address> = Vec::new();
    identities.push(signer);
    identities.push(depositor);
    identities.push(recipient);
    identities.push(store.usdc_mint);
    identities.push(store.jl_lending_admin);
    identities.push(store.jl_lending);
    identities.push(store.jl_f_token_mint);
    identities.push(store.jl_supply_token_reserves_liquidity);
    identities.push(store.jl_lending_supply_position_on_liquidity);
    identities.push(store.jl_rate_model);
    identities.push(store.jl_vault);
    identities.push(store.jl_liquidity);
    identities.push(store.jl_liquidity_program);
    identities.push(store.jl_rewards_rate_model);
    identities.push(store.token_program);
    identities.push(store.associated_token_program);
    identities.push(system_program);
    identities.push(store.jl_lending_program);
    assert(identities@ =~= deposit_identities(
        signer,
        depositor,
        recipient,
        *store,
        system_program,
    ));
    identities
}

/// Appends the deposit's accounts, as reported to the executor, to `out`.
pub fn push_deposit_accounts(out: &mut Vec<LzAccount>, identities: &Vec<Address>)
    requires
        identities@.len() == 18,
    ensures
        final(out)@ == old(out)@ + deposit_accounts(identities@),
{
    let mut i: usize = 0;
    while i < DEPOSIT_ACCOUNTS
        invariant
            i <= DEPOSIT_ACCOUNTS,
            identities@.len() == 18,
            out@ == old(out)@ + deposit_accounts(identities@).subrange(0, i as int),
        decreases DEPOSIT_ACCOUNTS - i,
    {
        out.push(
            LzAccount {
                pubkey: identities[i],
                is_signer: false,
                is_writable: is_position_writable(i),
            },
        );
        assert(out@ =~= old(out)@ + deposit_accounts(identities@).subrange(0, i + 1));
        i += 1;
    }
    assert(deposit_accounts(identities@).subrange(0, 18) =~= deposit_accounts(identities@));
}

/// Checks the accounts supplied against the configuration and builds the
/// deposit call over them.
///
/// `keys` are the eighteen accounts in the order of the table. The call is
/// built exactly when the mint (position 3), the token program (14), the
/// associated-token program (15) and the lending program (17) are the ones
/// configured; otherwise the result is `InvalidMessageType`.
pub fn build_deposit(keys: &Vec<Address>, store: &Store, amount: u64) -> (built: Result<
    Instruction,
    MyOAppError,
>)
    requires
        keys@.len() == 18,
    ensures
        built is Ok <==> keys_match_config(keys@, *store),
        built matches Ok(ix) ==> ix@ == deposit_instruction(keys@, amount),
        built matches Err(e) ==> e == MyOAppError::InvalidMessageType,
{
    if !address_eq(&keys[3], &store.usdc_mint) {
        return Err(MyOAppError::InvalidMessageType);
    }
    if !address_eq(&keys[14], &store.token_program) {
        return Err(MyOAppError::InvalidMessageType);
    }
    if !address_eq(&keys[15], &store.associated_token_program) {
        return Err(MyOAppError::InvalidMessageType);
    }
    if !address_eq(&keys[17], &store.jl_lending_program) {
        return Err(MyOAppError::InvalidMessageType);
    }
    let mut data: Vec<u8> = Vec::new();
    data.push(242u8);
    data.push(35u8);
    data.push(198u8);
    data.push(137u8);
    data.push(82u8);
    data.push(225u8);
    data.push(242u8);
    data.push(182u8);
    assert(data@ =~= deposit_discriminator());
    put_u64_le(&mut data, amount);
    let mut metas: Vec<AccountMeta> = Vec::new();
    let mut i: usize = 0;
    while i < DEPOSIT_ARGUMENTS
        invariant
            i <= DEPOSIT_ARGUMENTS,
            keys@.len() == 18,
            metas@ == deposit_metas(keys@).subrange(0, i as int),
        decreases DEPOSIT_ARGUMENTS - i,
    {
        metas.push(
            AccountMeta { pubkey: keys[i], is_signer: i == 0, is_writable: is_position_writable(i) },
        );
        assert(metas@ =~= deposit_metas(keys@).subrange(0, i + 1));
        i += 1;
    }
    assert(deposit_metas(keys@).subrange(0, 17) =~= deposit_metas(keys@));
    Ok(Instruction { program_id: keys[17], accounts: metas, data })
}

/// The accounts that the executor is told of and the arguments that the call
/// is built with agree: over the identities of a deposit, the call's
/// argument at each position names the account reported at that position
/// and writes it exactly when it was reported writable, and the mint and
/// programs pass the check against the configuration.
pub proof fn law_reported_accounts_fit_call(
    signer: Address,
    depositor: Address,
    recipient: Address,
    store: Store,
    system_program: Address,
    amount: u64,
)
    ensures
        ({
            let keys = deposit_identities(signer, depositor, recipient, store, system_program);
            let reported = deposit_accounts(keys);
            let call = deposit_instruction(keys, amount);
            &&& keys_match_config(keys, store)
            &&& reported.len() == 18
            &&& call.accounts.len() == 17
            &&& call.program_id == reported[17].pubkey
            &&& forall|i: int|
                0 <= i < 17 ==> (#[trigger] call.accounts[i]).pubkey == reported[i].pubkey
                    && call.accounts[i].is_writable == reported[i].is_writable
        }),
{
}

} // verus!
