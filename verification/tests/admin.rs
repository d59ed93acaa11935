use my_oapp::endpoint::{AccountMeta, Instruction, RegisterOAppParams};
use my_oapp::errors::MyOAppError;
use my_oapp::instructions::init_store::{InitStore, InitStoreParams};
use my_oapp::instructions::init_store_atas::{plan_store_atas, InitStoreAtas};
use my_oapp::instructions::lz_receive_types::{derive_addresses, LzReceiveTypes};
use my_oapp::instructions::set_alt::SetAlt;
use my_oapp::instructions::set_jl_config::{SetJlConfig, SetJlConfigParams};
use my_oapp::state::{LzReceiveTypesAccounts, Store};
use my_oapp::{init_store, init_store_atas, set_alt, set_jl_config};

fn addr(n: u8) -> [u8; 32] {
    [n; 32]
}

fn blank_store() -> Store {
    Store {
        admin: addr(0),
        bump: 0,
        endpoint_program: addr(0),
        usdc_mint: addr(0),
        token_program: addr(0),
        associated_token_program: addr(0),
        system_program: addr(0),
        jl_lending_program: addr(0),
        jl_liquidity_program: addr(0),
        jl_lending_admin: addr(0),
        jl_lending: addr(0),
        jl_f_token_mint: addr(0),
        jl_supply_token_reserves_liquidity: addr(0),
        jl_lending_supply_position_on_liquidity: addr(0),
        jl_rate_model: addr(0),
        jl_vault: addr(0),
        jl_liquidity: addr(0),
        jl_rewards_rate_model: addr(0),
    }
}

fn pool_params() -> SetJlConfigParams {
    SetJlConfigParams {
        usdc_mint: addr(3),
        token_program: addr(4),
        associated_token_program: addr(5),
        system_program: addr(6),
        jl_lending_program: addr(7),
        jl_liquidity_program: addr(8),
        jl_lending_admin: addr(9),
        jl_lending: addr(10),
        jl_f_token_mint: addr(11),
        jl_supply_token_reserves_liquidity: addr(12),
        jl_lending_supply_position_on_liquidity: addr(13),
        jl_rate_model: addr(14),
        jl_vault: addr(15),
        jl_liquidity: addr(16),
        jl_rewards_rate_model: addr(17),
    }
}

fn configured_store() -> Store {
    let mut ctx = SetJlConfig { store: Store { admin: addr(1), bump: 254, endpoint_program: addr(2), ..blank_store() }, admin: addr(1) };
    SetJlConfig::apply(&mut ctx, pool_params());
    ctx.store
}

#[test]
fn init_store_fills_both_records() {
    let mut ctx = InitStore {
        payer: addr(30),
        store_key: addr(41),
        store: blank_store(),
        store_bump: 254,
        lz_receive_types_accounts: LzReceiveTypesAccounts { store: addr(0), alt: addr(9), bump: 0 },
        lz_receive_types_accounts_bump: 252,
        alt: None,
    };
    let registration = init_store(&mut ctx, InitStoreParams { admin: addr(1), endpoint: addr(2) });
    assert_eq!(ctx.store, Store { admin: addr(1), bump: 254, endpoint_program: addr(2), ..blank_store() });
    assert_eq!(
        ctx.lz_receive_types_accounts,
        LzReceiveTypesAccounts { store: addr(41), alt: [0u8; 32], bump: 252 }
    );
    assert_eq!(registration.oapp, addr(41));
    assert_eq!(registration.params, RegisterOAppParams { delegate: addr(1) });
    assert_eq!(registration.signer_seeds, vec![b"Store".to_vec(), vec![254u8]]);
    ctx.alt = Some(addr(77));
    InitStore::apply(&mut ctx, &InitStoreParams { admin: addr(1), endpoint: addr(2) });
    assert_eq!(ctx.lz_receive_types_accounts.alt, addr(77));
    assert_eq!(LzReceiveTypesAccounts::SIZE, 8 + LzReceiveTypesAccounts::INIT_SPACE);
}

#[test]
fn set_jl_config_replaces_the_pool_addresses() {
    let before = Store { admin: addr(1), bump: 254, endpoint_program: addr(2), ..blank_store() };
    let mut ctx = SetJlConfig { store: before, admin: addr(1) };
    set_jl_config(&mut ctx, pool_params());
    assert_eq!(
        ctx.store,
        Store {
            admin: addr(1),
            bump: 254,
            endpoint_program: addr(2),
            usdc_mint: addr(3),
            token_program: addr(4),
            associated_token_program: addr(5),
            system_program: addr(6),
            jl_lending_program: addr(7),
            jl_liquidity_program: addr(8),
            jl_lending_admin: addr(9),
            jl_lending: addr(10),
            jl_f_token_mint: addr(11),
            jl_supply_token_reserves_liquidity: addr(12),
            jl_lending_supply_position_on_liquidity: addr(13),
            jl_rate_model: addr(14),
            jl_vault: addr(15),
            jl_liquidity: addr(16),
            jl_rewards_rate_model: addr(17),
        }
    );
    assert_eq!(ctx.admin, addr(1));
}

#[test]
fn set_alt_records_the_table() {
    let mut ctx = SetAlt {
        store: configured_store(),
        lz_receive_types_accounts: LzReceiveTypesAccounts { store: addr(41), alt: addr(0), bump: 252 },
        alt: addr(88),
        admin: addr(1),
    };
    set_alt(&mut ctx);
    assert_eq!(
        ctx.lz_receive_types_accounts,
        LzReceiveTypesAccounts { store: addr(41), alt: addr(88), bump: 252 }
    );
    assert_eq!(ctx.store, configured_store());
}

fn atas_ctx(usdc: [u8; 32], ftoken: [u8; 32], usdc_empty: bool, ftoken_empty: bool) -> InitStoreAtas {
    InitStoreAtas {
        payer: addr(30),
        store_key: addr(41),
        store: configured_store(),
        store_usdc_ata: usdc,
        store_usdc_ata_is_empty: usdc_empty,
        store_ftoken_ata: ftoken,
        store_ftoken_ata_is_empty: ftoken_empty,
        usdc_mint: addr(3),
        ftoken_mint: addr(11),
        token_program: addr(24),
        associated_token_program: addr(25),
        system_program: addr(26),
    }
}

fn creation(holding: [u8; 32], mint: [u8; 32]) -> Instruction {
    Instruction {
        program_id: addr(25),
        accounts: vec![
            AccountMeta { pubkey: addr(30), is_signer: true, is_writable: true },
            AccountMeta { pubkey: holding, is_signer: false, is_writable: true },
            AccountMeta { pubkey: addr(41), is_signer: false, is_writable: false },
            AccountMeta { pubkey: mint, is_signer: false, is_writable: false },
            AccountMeta { pubkey: addr(26), is_signer: false, is_writable: false },
            AccountMeta { pubkey: addr(24), is_signer: false, is_writable: false },
        ],
        data: vec![],
    }
}

#[test]
fn plan_creates_the_empty_holdings_in_order() {
    let ctx = atas_ctx(addr(70), addr(71), true, true);
    assert_eq!(
        plan_store_atas(&ctx, addr(70), addr(71)),
        Ok(vec![creation(addr(70), addr(3)), creation(addr(71), addr(11))])
    );
    let ctx = atas_ctx(addr(70), addr(71), false, true);
    assert_eq!(plan_store_atas(&ctx, addr(70), addr(71)), Ok(vec![creation(addr(71), addr(11))]));
    let ctx = atas_ctx(addr(70), addr(71), true, false);
    assert_eq!(plan_store_atas(&ctx, addr(70), addr(71)), Ok(vec![creation(addr(70), addr(3))]));
    let ctx = atas_ctx(addr(70), addr(71), false, false);
    assert_eq!(plan_store_atas(&ctx, addr(70), addr(71)), Ok(vec![]));
}

#[test]
fn plan_refuses_holdings_at_other_addresses() {
    let ctx = atas_ctx(addr(70), addr(71), true, true);
    assert_eq!(plan_store_atas(&ctx, addr(72), addr(71)), Err(MyOAppError::InvalidAccount));
    assert_eq!(plan_store_atas(&ctx, addr(70), addr(72)), Err(MyOAppError::InvalidAccount));
}

#[test]
fn init_store_atas_derives_the_holdings() {
    let query = LzReceiveTypes { program_id: addr(40), store_key: addr(41), store: configured_store() };
    let (_, usdc, ftoken) = derive_addresses(&query, 1).unwrap();
    let ctx = atas_ctx(usdc, ftoken, true, false);
    assert_eq!(init_store_atas(&ctx), Ok(vec![creation(usdc, addr(3))]));
    assert_eq!(InitStoreAtas::apply(&ctx), Ok(vec![creation(usdc, addr(3))]));
    let wrong = atas_ctx(ftoken, usdc, true, false);
    assert_eq!(init_store_atas(&wrong), Err(MyOAppError::InvalidAccount));
}
