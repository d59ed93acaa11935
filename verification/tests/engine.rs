use my_oapp::endpoint::{AccountMeta, ClearParams, LzAccount, LzReceiveParams};
use my_oapp::errors::MyOAppError;
use my_oapp::instructions::lz_receive::{
    deliver, Action, DepositCall, LzReceive, Refusal, Runtime,
};
use my_oapp::instructions::lz_receive_types::LzReceiveTypes;
use my_oapp::lending::build_deposit;
use my_oapp::phase::{Event, Phase};
use my_oapp::slots::{SequenceSlot, SlotLedger};
use my_oapp::state::{PeerConfig, Store, UserBalance};
use my_oapp::{lz_receive, DepositEvent};

fn addr(n: u8) -> [u8; 32] {
    [n; 32]
}

fn sample_store() -> Store {
    Store {
        admin: addr(1),
        bump: 254,
        endpoint_program: addr(2),
        usdc_mint: addr(3),
        token_program: addr(4),
        associated_token_program: addr(5),
        system_program: addr(6),
        jl_lending_program: addr(7),
        jl_liquidity_program: addr(8),
        jl_lending_admin: addr(9),
        jl_lending: addr(10),
        jl_f_token_mint: addr(11),
        jl_supply_token_reserves_liquidity: addr(12),
        jl_lending_supply_position_on_liquidity: addr(13),
        jl_rate_model: addr(14),
        jl_vault: addr(15),
        jl_liquidity: addr(16),
        jl_rewards_rate_model: addr(17),
    }
}

fn deposit_keys() -> Vec<[u8; 32]> {
    vec![
        addr(41),
        addr(70),
        addr(71),
        addr(3),
        addr(9),
        addr(10),
        addr(11),
        addr(12),
        addr(13),
        addr(14),
        addr(15),
        addr(16),
        addr(8),
        addr(17),
        addr(4),
        addr(5),
        addr(0),
        addr(7),
    ]
}

fn sample_ctx() -> LzReceive {
    let mut remaining = vec![addr(60), addr(61), addr(62)];
    remaining.extend(deposit_keys());
    LzReceive {
        store_key: addr(41),
        store: sample_store(),
        peer: PeerConfig { peer_address: addr(50), bump: 250 },
        user_balance: UserBalance::new(),
        user_balance_bump: 249,
        remaining_accounts: remaining,
    }
}

fn runtime(now: i64) -> Runtime {
    Runtime { clear_accounts: 3, unix_timestamp: now }
}

fn deposit(nonce: u64, amount: u64, evm: [u8; 20]) -> LzReceiveParams {
    let mut message = amount.to_le_bytes().to_vec();
    message.extend_from_slice(&evm);
    LzReceiveParams { src_eid: 30101, sender: addr(50), nonce, guid: addr(nonce as u8), message }
}

fn expect_call(outcome: Result<DepositCall, Refusal>) -> DepositCall {
    match outcome {
        Ok(call) => call,
        Err(refusal) => panic!("refused: {:?}", refusal),
    }
}

#[test]
fn fresh_balance_is_empty() {
    let fresh = UserBalance::new();
    assert_eq!(
        fresh,
        UserBalance { evm_address: [0; 20], total_deposited: 0, deposit_count: 0, last_updated: 0, bump: 0 }
    );
    assert_eq!(UserBalance::SIZE, 49);
    assert_eq!(Store::SIZE, 553);
}

#[test]
fn arrival_from_the_peer_asks_for_the_slot() {
    let mut ctx = sample_ctx();
    let before = ctx.clone();
    let params = deposit(1, 10, [9; 20]);
    let (phase, action) = lz_receive(&mut ctx, &params, &runtime(5), Phase::Received, Event::Delivered);
    assert_eq!(phase, Phase::Authenticated);
    assert_eq!(ctx, before);
    match action {
        Action::ConsumeSlot(request) => {
            assert_eq!(
                request.params,
                ClearParams {
                    receiver: addr(41),
                    src_eid: 30101,
                    sender: addr(50),
                    nonce: 1,
                    guid: addr(1),
                    message: params.message.clone(),
                }
            );
            assert_eq!(request.accounts, 3);
            assert_eq!(request.signer_seeds, vec![b"Store".to_vec(), vec![254u8]]);
        }
        other => panic!("unexpected {:?}", other),
    }
}

#[test]
fn arrival_from_a_stranger_is_invalid_peer() {
    let mut ctx = sample_ctx();
    let before = ctx.clone();
    let mut params = deposit(1, 10, [9; 20]);
    params.sender = addr(51);
    let step = LzReceive::apply(&mut ctx, &params, &runtime(5), Phase::Received, Event::Delivered);
    assert_eq!(step, (Phase::Received, Action::Abort(MyOAppError::InvalidPeer)));
    assert_eq!(ctx, before);
    let mut slots = SlotLedger::new();
    assert_eq!(
        deliver(&mut ctx, &params, &runtime(5), &mut slots),
        Err(Refusal::Rejected(MyOAppError::InvalidPeer))
    );
    assert_eq!(ctx, before);
    assert!(!slots.is_consumed(&SequenceSlot { src_eid: 30101, sender: addr(51), nonce: 1 }));
}

#[test]
fn arrival_with_too_few_clear_accounts_is_invalid_message_type() {
    let mut ctx = sample_ctx();
    ctx.remaining_accounts.truncate(2);
    let params = deposit(1, 10, [9; 20]);
    let step = LzReceive::apply(&mut ctx, &params, &runtime(5), Phase::Received, Event::Delivered);
    assert_eq!(step, (Phase::Received, Action::Abort(MyOAppError::InvalidMessageType)));
}

#[test]
fn deposit_credits_ledger_and_composes_call() {
    let mut ctx = sample_ctx();
    let evm = [0xab; 20];
    let params = deposit(1, 1_000, evm);
    let (phase, action) =
        LzReceive::apply(&mut ctx, &params, &runtime(1_700_000_000), Phase::Authenticated, Event::SlotConsumed);
    assert_eq!(phase, Phase::ExternalCallIssued);
    assert_eq!(
        ctx.user_balance,
        UserBalance {
            evm_address: evm,
            total_deposited: 1_000,
            deposit_count: 1,
            last_updated: 1_700_000_000,
            bump: 249,
        }
    );
    let call = match action {
        Action::IssueCall(call) => call,
        other => panic!("unexpected {:?}", other),
    };
    assert_eq!(
        call.event,
        DepositEvent {
            guid: addr(1),
            evm_address: evm,
            amount: 1_000,
            new_total: 1_000,
            deposit_index: 1,
            timestamp: 1_700_000_000,
        }
    );
    assert_eq!(call.first_account, 3);
    assert_eq!(call.signer_seeds, vec![b"Store".to_vec(), vec![254u8]]);
    let ix = call.instruction;
    assert_eq!(ix.program_id, addr(7));
    let mut data = vec![242u8, 35, 198, 137, 82, 225, 242, 182];
    data.extend_from_slice(&1_000u64.to_le_bytes());
    assert_eq!(ix.data, data);
    assert_eq!(ix.accounts.len(), 17);
    let keys = deposit_keys();
    let writable = [0usize, 1, 2, 5, 6, 7, 8, 10, 11, 12];
    for i in 0..17 {
        assert_eq!(
            ix.accounts[i],
            AccountMeta { pubkey: keys[i], is_signer: i == 0, is_writable: writable.contains(&i) }
        );
    }
}

#[test]
fn call_returned_completes_the_delivery() {
    let mut ctx = sample_ctx();
    let before = ctx.clone();
    let params = deposit(1, 1, [1; 20]);
    let step = LzReceive::apply(&mut ctx, &params, &runtime(0), Phase::ExternalCallIssued, Event::CallReturned);
    assert_eq!(step, (Phase::Complete, Action::Finish));
    assert_eq!(ctx, before);
}

#[test]
fn events_out_of_turn_are_ignored() {
    let params = deposit(1, 1, [1; 20]);
    let phases = [
        Phase::Received,
        Phase::Authenticated,
        Phase::SlotConsumed,
        Phase::Decoded,
        Phase::StateUpdated,
        Phase::ExternalCallIssued,
        Phase::Complete,
    ];
    let events = [Event::Delivered, Event::SlotConsumed, Event::CallReturned];
    for phase in phases {
        for event in events {
            let in_turn = matches!(
                (phase, event),
                (Phase::Received, Event::Delivered)
                    | (Phase::Authenticated, Event::SlotConsumed)
                    | (Phase::ExternalCallIssued, Event::CallReturned)
            );
            if !in_turn {
                let mut ctx = sample_ctx();
                let before = ctx.clone();
                let step = LzReceive::apply(&mut ctx, &params, &runtime(0), phase, event);
                assert_eq!(step, (phase, Action::Ignore));
                assert_eq!(ctx, before);
            }
        }
    }
}

#[test]
fn two_deposits_from_one_address_add_up() {
    let mut ctx = sample_ctx();
    let mut slots = SlotLedger::new();
    let evm = [0x42; 20];
    let first = expect_call(deliver(&mut ctx, &deposit(1, 700, evm), &runtime(100), &mut slots));
    assert_eq!(first.event.new_total, 700);
    assert_eq!(first.event.deposit_index, 1);
    let second = expect_call(deliver(&mut ctx, &deposit(2, 55, evm), &runtime(200), &mut slots));
    assert_eq!(second.event.amount, 55);
    assert_eq!(second.event.new_total, 755);
    assert_eq!(second.event.deposit_index, 2);
    assert_eq!(second.event.timestamp, 200);
    assert_eq!(
        ctx.user_balance,
        UserBalance { evm_address: evm, total_deposited: 755, deposit_count: 2, last_updated: 200, bump: 249 }
    );
}

#[test]
fn deposit_onto_full_total_overflows_without_a_call() {
    let mut ctx = sample_ctx();
    let evm = [0x42; 20];
    ctx.user_balance =
        UserBalance { evm_address: evm, total_deposited: u64::MAX, deposit_count: 3, last_updated: 9, bump: 1 };
    let before = ctx.clone();
    let step = LzReceive::apply(&mut ctx, &deposit(4, 1, evm), &runtime(10), Phase::Authenticated, Event::SlotConsumed);
    assert_eq!(step, (Phase::Decoded, Action::Abort(MyOAppError::Overflow)));
    assert_eq!(ctx, before);
    let mut slots = SlotLedger::new();
    assert_eq!(
        deliver(&mut ctx, &deposit(4, 1, evm), &runtime(10), &mut slots),
        Err(Refusal::Rejected(MyOAppError::Overflow))
    );
    assert_eq!(ctx, before);
    assert!(slots.is_consumed(&SequenceSlot { src_eid: 30101, sender: addr(50), nonce: 4 }));
    let zero = expect_call(deliver(&mut ctx, &deposit(5, 0, evm), &runtime(11), &mut slots));
    assert_eq!(zero.event.new_total, u64::MAX);
}

#[test]
fn deposit_count_at_its_limit_overflows() {
    let mut ctx = sample_ctx();
    let evm = [0x42; 20];
    ctx.user_balance =
        UserBalance { evm_address: evm, total_deposited: 5, deposit_count: u32::MAX, last_updated: 9, bump: 1 };
    let step = LzReceive::apply(&mut ctx, &deposit(4, 1, evm), &runtime(10), Phase::Authenticated, Event::SlotConsumed);
    assert_eq!(step, (Phase::Decoded, Action::Abort(MyOAppError::Overflow)));
}

#[test]
fn deposit_too_short_is_invalid_message_type() {
    let mut ctx = sample_ctx();
    let before = ctx.clone();
    let mut params = deposit(1, 10, [9; 20]);
    params.message.truncate(27);
    let step = LzReceive::apply(&mut ctx, &params, &runtime(5), Phase::Authenticated, Event::SlotConsumed);
    assert_eq!(step, (Phase::SlotConsumed, Action::Abort(MyOAppError::InvalidMessageType)));
    assert_eq!(ctx, before);
}

#[test]
fn deposit_into_another_senders_record_is_invalid_account() {
    let mut ctx = sample_ctx();
    ctx.user_balance =
        UserBalance { evm_address: [1; 20], total_deposited: 5, deposit_count: 1, last_updated: 9, bump: 1 };
    let before = ctx.clone();
    let step = LzReceive::apply(&mut ctx, &deposit(4, 1, [2; 20]), &runtime(10), Phase::Authenticated, Event::SlotConsumed);
    assert_eq!(step, (Phase::Decoded, Action::Abort(MyOAppError::InvalidAccount)));
    assert_eq!(ctx, before);
}

#[test]
fn accounts_that_disagree_with_configuration_are_refused() {
    for position in [3usize, 14, 15, 17] {
        let mut ctx = sample_ctx();
        ctx.remaining_accounts[3 + position] = addr(99);
        let before = ctx.clone();
        let step = LzReceive::apply(&mut ctx, &deposit(1, 1, [2; 20]), &runtime(10), Phase::Authenticated, Event::SlotConsumed);
        assert_eq!(step, (Phase::StateUpdated, Action::Abort(MyOAppError::InvalidMessageType)));
        assert_eq!(ctx, before);
    }
    let mut ctx = sample_ctx();
    ctx.remaining_accounts[3 + 16] = addr(99);
    let (phase, _) = LzReceive::apply(&mut ctx, &deposit(1, 1, [2; 20]), &runtime(10), Phase::Authenticated, Event::SlotConsumed);
    assert_eq!(phase, Phase::ExternalCallIssued);
}

#[test]
fn too_few_deposit_accounts_are_refused() {
    let mut ctx = sample_ctx();
    ctx.remaining_accounts.truncate(20);
    let step = LzReceive::apply(&mut ctx, &deposit(1, 1, [2; 20]), &runtime(10), Phase::Authenticated, Event::SlotConsumed);
    assert_eq!(step, (Phase::StateUpdated, Action::Abort(MyOAppError::InvalidMessageType)));
}

#[test]
fn build_deposit_checks_the_four_identities() {
    let store = sample_store();
    let keys = deposit_keys();
    let built = build_deposit(&keys, &store, 7).unwrap();
    assert_eq!(built.program_id, addr(7));
    assert_eq!(built.data[8..], 7u64.to_le_bytes());
    let mut wrong = keys.clone();
    wrong[14] = addr(0);
    assert_eq!(build_deposit(&wrong, &store, 7), Err(MyOAppError::InvalidMessageType));
}

#[test]
fn second_delivery_of_a_message_is_refused() {
    let mut ctx = sample_ctx();
    let mut slots = SlotLedger::new();
    let params = deposit(1, 700, [0x42; 20]);
    expect_call(deliver(&mut ctx, &params, &runtime(100), &mut slots));
    let after_first = ctx.clone();
    assert_eq!(deliver(&mut ctx, &params, &runtime(101), &mut slots), Err(Refusal::SlotAlreadyConsumed));
    assert_eq!(ctx, after_first);
}

#[test]
fn slot_ledger_consumes_each_slot_once() {
    let mut slots = SlotLedger::new();
    let slot = SequenceSlot { src_eid: 1, sender: addr(2), nonce: 3 };
    assert!(!slots.is_consumed(&slot));
    assert!(slots.consume(slot));
    assert!(slots.is_consumed(&slot));
    assert!(!slots.consume(slot));
    assert!(slots.consume(SequenceSlot { src_eid: 1, sender: addr(2), nonce: 4 }));
    assert!(slots.consume(SequenceSlot { src_eid: 2, sender: addr(2), nonce: 3 }));
    assert!(slots.consume(SequenceSlot { src_eid: 1, sender: addr(3), nonce: 3 }));
    assert!(!slots.consume(slot));
}

#[test]
fn listed_accounts_let_the_delivery_through() {
    let query = LzReceiveTypes { program_id: addr(40), store_key: addr(41), store: sample_store() };
    let clear = vec![
        LzAccount { pubkey: addr(60), is_signer: false, is_writable: false },
        LzAccount { pubkey: addr(61), is_signer: false, is_writable: true },
    ];
    let params = deposit(1, 12, [7; 20]);
    let listed = LzReceiveTypes::apply(&query, &params, &clear).unwrap();
    let mut ctx = sample_ctx();
    ctx.remaining_accounts = listed[2..].iter().map(|account| account.pubkey).collect();
    let runtime = Runtime { clear_accounts: clear.len(), unix_timestamp: 1 };
    let mut slots = SlotLedger::new();
    let call = expect_call(deliver(&mut ctx, &params, &runtime, &mut slots));
    assert_eq!(call.first_account, 2);
    assert_eq!(call.instruction.program_id, listed[2 + 2 + 17].pubkey);
    for i in 0..17 {
        assert_eq!(call.instruction.accounts[i].pubkey, listed[4 + i].pubkey);
        assert_eq!(call.instruction.accounts[i].is_writable, listed[4 + i].is_writable);
    }
}
