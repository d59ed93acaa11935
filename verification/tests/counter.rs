use my_oapp::counter::{
    deliver, init_store, lz_receive, lz_receive_types, Action, AckSend, Delivered, InitStore,
    LayerZeroError, LzReceive, LzReceiveTypes, PeerConfig, Refusal, RegisterOAppParams, SendParams,
    Store, EVM_CHAIN_EID,
};
use my_oapp::endpoint::{LzAccount, LzReceiveParams};
use my_oapp::msg_codec::encode_string;
use my_oapp::phase::{Event, Phase};
use my_oapp::slots::SlotLedger;

fn addr(n: u8) -> [u8; 32] {
    [n; 32]
}

fn sample_ctx(count: u64) -> LzReceive {
    LzReceive {
        store_key: addr(41),
        store: Store {
            admin: addr(1),
            endpoint_program: addr(2),
            count,
            string: "before".to_string(),
            bump: 253,
        },
        peer: PeerConfig { peer_address: addr(50), bump: 250 },
    }
}

fn message(nonce: u64, body: Vec<u8>) -> LzReceiveParams {
    LzReceiveParams { src_eid: 301, sender: addr(50), nonce, guid: addr(9), message: body }
}

fn increment(amount: u64) -> Vec<u8> {
    let mut body = vec![0x01u8];
    body.extend_from_slice(&amount.to_le_bytes());
    body
}

#[test]
fn init_store_records_admin_endpoint_and_peer() {
    let mut ctx = InitStore {
        store_key: addr(41),
        store: Store { admin: addr(0), endpoint_program: addr(0), count: 77, string: "x".to_string(), bump: 0 },
        store_bump: 253,
        peer: PeerConfig { peer_address: addr(0), bump: 0 },
        peer_bump: 250,
    };
    let registration = init_store(&mut ctx, addr(1), addr(2), addr(50));
    assert_eq!(
        ctx.store,
        Store { admin: addr(1), endpoint_program: addr(2), count: 0, string: String::new(), bump: 253 }
    );
    assert_eq!(ctx.peer, PeerConfig { peer_address: addr(50), bump: 250 });
    assert_eq!(registration.endpoint_program, addr(2));
    assert_eq!(registration.oapp, addr(41));
    assert_eq!(registration.params, RegisterOAppParams { admin: addr(1), delegate: addr(1) });
    assert_eq!(registration.signer_seeds, vec![b"Store".to_vec(), vec![253u8]]);
}

#[test]
fn counter_accounts_are_store_peer_then_clear() {
    let ctx = LzReceiveTypes { store_key: addr(41), peer_key: addr(42) };
    let clear = vec![
        LzAccount { pubkey: addr(60), is_signer: false, is_writable: false },
        LzAccount { pubkey: addr(61), is_signer: false, is_writable: true },
    ];
    let listed = lz_receive_types(&ctx, &clear);
    assert_eq!(
        listed,
        vec![
            LzAccount { pubkey: addr(41), is_signer: false, is_writable: true },
            LzAccount { pubkey: addr(42), is_signer: false, is_writable: false },
            clear[0],
            clear[1],
        ]
    );
    assert_eq!(lz_receive_types(&ctx, &clear), listed);
    assert_eq!(lz_receive_types(&ctx, &Vec::new()).len(), 2);
}

#[test]
fn increment_by_forty_two_is_acknowledged() {
    let mut ctx = sample_ctx(0);
    let params = message(1, increment(42));
    let (phase, action) = lz_receive(&mut ctx, &params, 8, Phase::Authenticated, Event::SlotConsumed);
    assert_eq!(phase, Phase::ExternalCallIssued);
    assert_eq!(ctx.store.count, 42);
    assert_eq!(ctx.store.string, "before");
    let mut ack_body = vec![0x02u8];
    ack_body.extend_from_slice(&42u64.to_le_bytes());
    assert_eq!(
        action,
        Action::SendAck(AckSend {
            params: SendParams {
                dst_eid: EVM_CHAIN_EID,
                receiver: addr(50),
                message: ack_body,
                options: vec![],
                native_fee: 0,
                lz_token_fee: 0,
            },
            first_account: 8,
            signer_seeds: vec![b"Store".to_vec(), vec![253u8]],
        })
    );
    assert_eq!(EVM_CHAIN_EID, 301);
}

#[test]
fn increment_by_zero_counts_one() {
    let mut ctx = sample_ctx(10);
    let (_, action) = lz_receive(&mut ctx, &message(1, increment(0)), 8, Phase::Authenticated, Event::SlotConsumed);
    assert_eq!(ctx.store.count, 11);
    match action {
        Action::SendAck(ack) => assert_eq!(ack.params.message[1..], 11u64.to_le_bytes()),
        other => panic!("unexpected {:?}", other),
    }
}

#[test]
fn increment_past_the_limit_overflows() {
    let mut ctx = sample_ctx(u64::MAX - 1);
    let before = ctx.clone();
    let step = lz_receive(&mut ctx, &message(1, increment(2)), 8, Phase::Authenticated, Event::SlotConsumed);
    assert_eq!(step, (Phase::Decoded, Action::Abort(LayerZeroError::Overflow)));
    assert_eq!(ctx, before);
    let (_, action) = lz_receive(&mut ctx, &message(1, increment(1)), 8, Phase::Authenticated, Event::SlotConsumed);
    assert!(matches!(action, Action::SendAck(_)));
    assert_eq!(ctx.store.count, u64::MAX);
    let step = lz_receive(&mut ctx, &message(2, increment(0)), 8, Phase::Authenticated, Event::SlotConsumed);
    assert_eq!(step, (Phase::Decoded, Action::Abort(LayerZeroError::Overflow)));
}

#[test]
fn text_replaces_the_stored_text() {
    let mut ctx = sample_ctx(5);
    let step = lz_receive(&mut ctx, &message(1, encode_string("hello")), 8, Phase::Authenticated, Event::SlotConsumed);
    assert_eq!(step, (Phase::Complete, Action::Finish));
    assert_eq!(ctx.store.string, "hello");
    assert_eq!(ctx.store.count, 5);
}

#[test]
fn acknowledgement_changes_nothing() {
    let mut ctx = sample_ctx(5);
    let before = ctx.clone();
    let mut body = vec![0x02u8];
    body.extend_from_slice(&99u64.to_le_bytes());
    let step = lz_receive(&mut ctx, &message(1, body), 8, Phase::Authenticated, Event::SlotConsumed);
    assert_eq!(step, (Phase::Complete, Action::Finish));
    assert_eq!(ctx, before);
}

#[test]
fn empty_and_malformed_payloads_are_invalid_payload() {
    for body in [vec![], vec![0x01u8, 1, 2], vec![0u8; 31], {
        let mut bad = vec![0u8; 28];
        bad.extend_from_slice(&2u32.to_be_bytes());
        bad.extend_from_slice(&[0xff, 0xff]);
        bad
    }] {
        let mut ctx = sample_ctx(5);
        let before = ctx.clone();
        let step = lz_receive(&mut ctx, &message(1, body), 8, Phase::Authenticated, Event::SlotConsumed);
        assert_eq!(step, (Phase::SlotConsumed, Action::Abort(LayerZeroError::InvalidPayload)));
        assert_eq!(ctx, before);
    }
}

#[test]
fn counter_arrival_checks_the_peer() {
    let mut ctx = sample_ctx(5);
    let before = ctx.clone();
    let mut params = message(1, increment(1));
    params.sender = addr(49);
    let step = lz_receive(&mut ctx, &params, 8, Phase::Received, Event::Delivered);
    assert_eq!(step, (Phase::Received, Action::Abort(LayerZeroError::InvalidPeer)));
    assert_eq!(ctx, before);
    let mut slots = SlotLedger::new();
    assert_eq!(deliver(&mut ctx, &params, 8, &mut slots), Err(Refusal::Rejected(LayerZeroError::InvalidPeer)));
    assert_eq!(ctx, before);
    params.sender = addr(50);
    let (phase, action) = lz_receive(&mut ctx, &params, 8, Phase::Received, Event::Delivered);
    assert_eq!(phase, Phase::Authenticated);
    match action {
        Action::ConsumeSlot(request) => {
            assert_eq!(request.accounts, 8);
            assert_eq!(request.params.receiver, addr(41));
            assert_eq!(request.params.nonce, 1);
            assert_eq!(request.params.message, increment(1));
        }
        other => panic!("unexpected {:?}", other),
    }
    assert_eq!(ctx, before);
}

#[test]
fn counter_events_out_of_turn_are_ignored() {
    let mut ctx = sample_ctx(5);
    let before = ctx.clone();
    let params = message(1, increment(1));
    assert_eq!(lz_receive(&mut ctx, &params, 8, Phase::Received, Event::SlotConsumed), (Phase::Received, Action::Ignore));
    assert_eq!(lz_receive(&mut ctx, &params, 8, Phase::Complete, Event::Delivered), (Phase::Complete, Action::Ignore));
    assert_eq!(
        lz_receive(&mut ctx, &params, 8, Phase::ExternalCallIssued, Event::CallReturned),
        (Phase::Complete, Action::Finish)
    );
    assert_eq!(ctx, before);
}

#[test]
fn replayed_increment_counts_once() {
    let mut ctx = sample_ctx(0);
    let mut slots = SlotLedger::new();
    let params = message(7, increment(42));
    let first = deliver(&mut ctx, &params, 8, &mut slots);
    assert!(matches!(first, Ok(Delivered::Acknowledge(_))));
    assert_eq!(ctx.store.count, 42);
    let after_first = ctx.clone();
    assert_eq!(deliver(&mut ctx, &params, 8, &mut slots), Err(Refusal::SlotAlreadyConsumed));
    assert_eq!(ctx, after_first);
    let next = deliver(&mut ctx, &message(8, increment(1)), 8, &mut slots);
    assert!(matches!(next, Ok(Delivered::Acknowledge(_))));
    assert_eq!(ctx.store.count, 43);
    assert_eq!(deliver(&mut ctx, &message(9, encode_string("t")), 8, &mut slots), Ok(Delivered::Done));
    assert_eq!(deliver(&mut ctx, &message(10, vec![]), 8, &mut slots), Err(Refusal::Rejected(LayerZeroError::InvalidPayload)));
    assert_eq!(deliver(&mut ctx, &message(10, increment(1)), 8, &mut slots), Err(Refusal::SlotAlreadyConsumed));
    assert_eq!(ctx.store.count, 43);
}
