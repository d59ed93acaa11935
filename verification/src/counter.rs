//! A counter that a peer on a remote chain can raise.
//!
//! Its messages are texts and opcodes. A text replaces the stored text. An
//! increment raises the counter and is answered with an acknowledgement that
//! carries the counter's new value. An acknowledgement changes nothing.

use crate::address::{address_eq, seeds_view, Address};
use crate::endpoint::{clear_params, clear_params_for, ClearRequest, LzAccount, LzReceiveParams};
use crate::msg_codec::{
    decode_message, encode_ack, message_decoding, opcode_encoding, DecodedMessage,
    DecodedMessageView, OPCODE_ACK,
};
use crate::phase::{Event, Phase};
use crate::seeds::{store_signer_seed_list, store_signer_seeds};
use crate::slots::{SequenceSlot, SlotLedger};
use vstd::prelude::*;

verus! {

/// The chain that acknowledgements are sent to.
pub const EVM_CHAIN_EID: u32 = 301;

/// The named failures of the counter's instructions.
#[derive(Clone, Copy, Debug, PartialEq, Eq, Structural)]
pub enum LayerZeroError {
    /// The sender is not the trusted peer.
    InvalidPeer,
    /// The payload is empty or in none of the formats.
    InvalidPayload,
    /// The counter would pass the largest value it can hold.
    Overflow,
    /// The message is of a type that the counter does not take. Payloads
    /// that read as no opcode are tried as text, so no delivery ends here.
    UnknownMessageType,
}

/// The counter's record.
#[derive(Clone, Debug, PartialEq, Eq)]
pub struct Store {
    pub admin: Address,
    pub endpoint_program: Address,
    pub count: u64,
    pub string: String,
    pub bump: u8,
}

/// The mathematical content of a `Store`.
pub struct CounterView {
    pub admin: Address,
    pub endpoint_program: Address,
    pub count: u64,
    pub string: Seq<char>,
    pub bump: u8,
}

impl View for Store {
    type V = CounterView;

    open spec fn view(&self) -> CounterView {
        CounterView {
            admin: self.admin,
            endpoint_program: self.endpoint_program,
            count: self.count,
            string: self.string@,
            bump: self.bump,
        }
    }
}

/// The trusted sender on the remote chain.
#[derive(Clone, Copy, Debug, PartialEq, Eq)]
pub struct PeerConfig {
    pub peer_address: [u8; 32],
    pub bump: u8,
}

/// What registering with the endpoint takes.
#[derive(Clone, Copy, Debug, PartialEq, Eq)]
pub struct RegisterOAppParams {
    pub admin: Address,
    pub delegate: Address,
}

/// The registration to make at the endpoint on the counter's behalf.
#[derive(Clone, Debug, PartialEq, Eq)]
pub struct Registration {
    pub endpoint_program: Address,
    pub oapp: Address,
    pub params: RegisterOAppParams,
    pub signer_seeds: Vec<Vec<u8>>,
}

/// What initialisation writes: the two records, with the address of the
/// counter's record and the bumps of both.
#[derive(Clone, Debug, PartialEq, Eq)]
pub struct InitStore {
    pub store_key: Address,
    pub store: Store,
    pub store_bump: u8,
    pub peer: PeerConfig,
    pub peer_bump: u8,
}

/// What the account query reads.
#[derive(Clone, Copy, Debug, PartialEq, Eq)]
pub struct LzReceiveTypes {
    pub store_key: Address,
    pub peer_key: Address,
}

/// What a delivery reads and writes.
#[derive(Clone, Debug, PartialEq, Eq)]
pub struct LzReceive {
    pub store_key: Address,
    pub store: Store,
    pub peer: PeerConfig,
}

/// Sets the counter up: the administrator and the endpoint are recorded, the
/// counter starts at zero with no text, the peer is recorded, and the
/// registration to make at the endpoint is returned.
pub fn init_store(
    ctx: &mut InitStore,
    admin: Address,
    endpoint_program: Address,
    remote_peer: [u8; 32],
) -> (registration: Registration)
    ensures
        final(ctx).store@ == (CounterView {
            admin,
            endpoint_program,
            count: 0,
            string: Seq::<char>::empty(),
            bump: old(ctx).store_bump,
        }),
        final(ctx).peer == (PeerConfig {
            peer_address: remote_peer,
            bump: old(ctx).peer_bump,
        }),
        final(ctx).store_key == old(ctx).store_key,
        final(ctx).store_bump == old(ctx).store_bump,
        final(ctx).peer_bump == old(ctx).peer_bump,
        registration.endpoint_program == endpoint_program,
        registration.oapp == old(ctx).store_key,
        registration.params == (RegisterOAppParams { admin, delegate: admin }),
        seeds_view(registration.signer_seeds@) == store_signer_seeds(old(ctx).store_bump),
{
    ctx.store.admin = admin;
    ctx.store.endpoint_program = endpoint_program;
    ctx.store.count = 0;
    ctx.store.string = String::new();
    ctx.store.bump = ctx.store_bump;
    ctx.peer.peer_address = remote_peer;
    ctx.peer.bump = ctx.peer_bump;
    assert(ctx.store.string@ =~= Seq::<char>::empty());
    Registration {
        endpoint_program,
        oapp: ctx.store_key,
        params: RegisterOAppParams { admin, delegate: admin },
        signer_seeds: store_signer_seed_list(ctx.store_bump),
    }
}

/// The accounts of a delivery: the counter's record (writable), the peer
/// record (read-only), and the accounts that clearing the slot takes.
pub open spec fn listed_accounts(ctx: LzReceiveTypes, accounts_for_clear: Seq<LzAccount>) -> Seq<
    LzAccount,
> {
    seq![
        LzAccount { pubkey: ctx.store_key, is_signer: false, is_writable: true },
        LzAccount { pubkey: ctx.peer_key, is_signer: false, is_writable: false },
    ] + accounts_for_clear
}

/// Lists every account that a delivery will touch, in the order it expects
/// them. `accounts_for_clear` are the accounts that clearing the message's
/// slot takes, as the endpoint names them.
pub fn lz_receive_types(ctx: &LzReceiveTypes, accounts_for_clear: &Vec<LzAccount>) -> (accounts:
    Vec<LzAccount>)
    ensures
        accounts@ == listed_accounts(*ctx, accounts_for_clear@),
{
    let mut accounts: Vec<LzAccount> = Vec::new();
    accounts.push(LzAccount { pubkey: ctx.store_key, is_signer: false, is_writable: true });
    accounts.push(LzAccount { pubkey: ctx.peer_key, is_signer: false, is_writable: false });
    let ghost head = accounts@;
    let mut i: usize = 0;
    while i < accounts_for_clear.len()
        invariant
            i <= accounts_for_clear.len(),
            accounts@ == head + accounts_for_clear@.subrange(0, i as int),
        decreases accounts_for_clear.len() - i,
    {
        accounts.push(accounts_for_clear[i]);
        assert(accounts@ =~= head + accounts_for_clear@.subrange(0, i + 1));
        i += 1;
    }
    assert(accounts_for_clear@.subrange(0, accounts_for_clear@.len() as int)
        =~= accounts_for_clear@);
    accounts
}

/// An outbound message.
#[derive(Clone, Debug, PartialEq, Eq)]
pub struct SendParams {
    pub dst_eid: u32,
    pub receiver: [u8; 32],
    pub message: Vec<u8>,
    pub options: Vec<u8>,
    pub native_fee: u64,
    pub lz_token_fee: u64,
}

/// The acknowledgement to send, the place of the sending's first account
/// among the accounts supplied, and the seeds that sign it.
#[derive(Clone, Debug, PartialEq, Eq)]
pub struct AckSend {
    pub params: SendParams,
    pub first_account: usize,
    pub signer_seeds: Vec<Vec<u8>>,
}

/// What the runtime is to do next.
#[derive(Clone, Debug, PartialEq, Eq)]
pub enum Action {
    /// Consume the message's slot, then report `Event::SlotConsumed`.
    ConsumeSlot(ClearRequest),
    /// Send the acknowledgement, then report `Event::CallReturned`.
    SendAck(AckSend),
    /// Nothing is left to do.
    Finish,
    /// Give the delivery up with this failure. No record has changed.
    Abort(LayerZeroError),
    /// The event does not belong to the phase. Nothing has changed.
    Ignore,
}

/// An action without what it carries.
pub enum Decision {
    ConsumeSlot,
    SendAck,
    Finish,
    Abort(LayerZeroError),
    Ignore,
}

impl Action {
    /// Which action this is.
    pub open spec fn decision(self) -> Decision {
        match self {
            Action::ConsumeSlot(_) => Decision::ConsumeSlot,
            Action::SendAck(_) => Decision::SendAck,
            Action::Finish => Decision::Finish,
            Action::Abort(e) => Decision::Abort(e),
            Action::Ignore => Decision::Ignore,
        }
    }
}

/// By how much an increment raises the counter: by its amount, and by one
/// where the amount is zero.
pub open spec fn increment_step(amount: u64) -> u64 {
    if amount == 0 {
        1
    } else {
        amount
    }
}

/// What authentication decides when a message arrives.
pub open spec fn on_delivered(peer: PeerConfig, params: LzReceiveParams) -> (Phase, Decision) {
    if params.sender != peer.peer_address {
        (Phase::Received, Decision::Abort(LayerZeroError::InvalidPeer))
    } else {
        (Phase::Authenticated, Decision::ConsumeSlot)
    }
}

/// What happens once the slot is consumed. An empty payload and one in none
/// of the formats end in `InvalidPayload`, an increment past `u64::MAX` in
/// `Overflow`. An increment that fits is acknowledged; a text and an
/// acknowledgement complete the delivery at once.
pub open spec fn on_slot_consumed(store: CounterView, message: Seq<u8>) -> (Phase, Decision) {
    if message.len() == 0 {
        (Phase::SlotConsumed, Decision::Abort(LayerZeroError::InvalidPayload))
    } else {
        match message_decoding(message) {
            Err(_) => (Phase::SlotConsumed, Decision::Abort(LayerZeroError::InvalidPayload)),
            Ok(DecodedMessageView::Text(_)) => (Phase::Complete, Decision::Finish),
            Ok(DecodedMessageView::Ack(_)) => (Phase::Complete, Decision::Finish),
            Ok(DecodedMessageView::Increment(amount)) => if store.count + increment_step(amount)
                > u64::MAX {
                (Phase::Decoded, Decision::Abort(LayerZeroError::Overflow))
            } else {
                (Phase::ExternalCallIssued, Decision::SendAck)
            },
        }
    }
}

/// The next phase and the kind of action, for every phase and event.
pub open spec fn next(
    store: CounterView,
    peer: PeerConfig,
    params: LzReceiveParams,
    phase: Phase,
    event: Event,
) -> (Phase, Decision) {
    match (phase, event) {
        (Phase::Received, Event::Delivered) => on_delivered(peer, params),
        (Phase::Authenticated, Event::SlotConsumed) => on_slot_consumed(store, params.message@),
        (Phase::ExternalCallIssued, Event::CallReturned) => (Phase::Complete, Decision::Finish),
        _ => (phase, Decision::Ignore),
    }
}

/// The counter's record once the slot is consumed and the message applied:
/// a text replaces the stored text, an increment that fits raises the
/// counter, and everything else leaves the record as it was.
pub open spec fn applied(store: CounterView, message: Seq<u8>) -> CounterView {
    if message.len() == 0 {
        store
    } else {
        match message_decoding(message) {
            Ok(DecodedMessageView::Text(text)) => CounterView { string: text, ..store },
            Ok(DecodedMessageView::Increment(amount)) => if store.count + increment_step(amount)
                > u64::MAX {
                store
            } else {
                CounterView { count: (store.count + increment_step(amount)) as u64, ..store }
            },
            _ => store,
        }
    }
}

/// The counter's record after a step: it changes only in the step that
/// follows the consumption of the slot.
pub open spec fn after(store: CounterView, message: Seq<u8>, phase: Phase, event: Event) -> CounterView {
    if phase == Phase::Authenticated && event == Event::SlotConsumed {
        applied(store, message)
    } else {
        store
    }
}

/// Whether `action` carries what the step asks for: the clearing of the
/// message's slot, or the acknowledgement of the counter's new value, sent
/// to the peer on the remote chain with no options and no fee.
pub open spec fn carries(
    action: Action,
    ctx: LzReceive,
    params: LzReceiveParams,
    clear_accounts: usize,
) -> bool {
    match action {
        Action::ConsumeSlot(request) => {
            &&& request.params@ == clear_params_for(ctx.store_key, params)
            &&& request.accounts == clear_accounts
            &&& seeds_view(request.signer_seeds@) == store_signer_seeds(ctx.store.bump)
        },
        Action::SendAck(ack) => {
            &&& ack.params.dst_eid == EVM_CHAIN_EID
            &&& ack.params.receiver == ctx.peer.peer_address
            &&& ack.params.message@ == opcode_encoding(
                OPCODE_ACK,
                applied(ctx.store@, params.message@).count,
            )
            &&& ack.params.options@ == Seq::<u8>::empty()
            &&& ack.params.native_fee == 0
            &&& ack.params.lz_token_fee == 0
            &&& ack.first_account == clear_accounts
            &&& seeds_view(ack.signer_seeds@) == store_signer_seeds(ctx.store.bump)
        },
        _ => true,
    }
}

/// Applies a message whose slot is consumed.
fn apply_message(ctx: &mut LzReceive, params: &LzReceiveParams, clear_accounts: usize) -> (step: (
    Phase,
    Action,
))
    ensures
        (step.0, step.1.decision()) == on_slot_consumed(old(ctx).store@, params.message@),
        carries(step.1, *old(ctx), *params, clear_accounts),
        final(ctx).store@ == applied(old(ctx).store@, params.message@),
        final(ctx).peer == old(ctx).peer,
        final(ctx).store_key == old(ctx).store_key,
{
    if params.message.len() == 0 {
        return (Phase::SlotConsumed, Action::Abort(LayerZeroError::InvalidPayload));
    }
    match decode_message(params.message.as_slice()) {
        Err(_) => (Phase::SlotConsumed, Action::Abort(LayerZeroError::InvalidPayload)),
        Ok(DecodedMessage::Text(text)) => {
            ctx.store.string = text;
            (Phase::Complete, Action::Finish)
        },
        Ok(DecodedMessage::Ack(_)) => (Phase::Complete, Action::Finish),
        Ok(DecodedMessage::Increment(amount)) => {
            let step: u64 = if amount == 0 {
                1
            } else {
                amount
            };
            match ctx.store.count.checked_add(step) {
                None => (Phase::Decoded, Action::Abort(LayerZeroError::Overflow)),
                Some(count) => {
                    let ack = AckSend {
                        params: SendParams {
                            dst_eid: EVM_CHAIN_EID,
                            receiver: ctx.peer.peer_address,
                            message: encode_ack(count),
                            options: Vec::new(),
                            native_fee: 0,
                            lz_token_fee: 0,
                        },
                        first_account: clear_accounts,
                        signer_seeds: store_signer_seed_list(ctx.store.bump),
                    };
                    ctx.store.count = count;
                    (Phase::ExternalCallIssued, Action::SendAck(ack))
                },
            }
        },
    }
}

/// Takes a delivery one step on.
///
/// Given the phase the delivery is in and what the runtime reports, this
/// returns the next phase and what the runtime is to do, and leaves the
/// counter's record as the step leaves it. `clear_accounts` is how many of
/// the accounts supplied the endpoint takes to clear a slot.
pub fn lz_receive(
    ctx: &mut LzReceive,
    params: &LzReceiveParams,
    clear_accounts: usize,
    phase: Phase,
    event: Event,
) -> (step: (Phase, Action))
    ensures
        (step.0, step.1.decision()) == next(old(ctx).store@, old(ctx).peer, *params, phase, event),
        carries(step.1, *old(ctx), *params, clear_accounts),
        final(ctx).store@ == after(old(ctx).store@, params.message@, phase, event),
        final(ctx).peer == old(ctx).peer,
        final(ctx).store_key == old(ctx).store_key,
{
    match (phase, event) {
        (Phase::Received, Event::Delivered) => {
            if !address_eq(&params.sender, &ctx.peer.peer_address) {
                return (Phase::Received, Action::Abort(LayerZeroError::InvalidPeer));
            }
            let request = ClearRequest {
                params: clear_params(ctx.store_key, params),
                accounts: clear_accounts,
                signer_seeds: store_signer_seed_list(ctx.store.bump),
            };
            (Phase::Authenticated, Action::ConsumeSlot(request))
        },
        (Phase::Authenticated, Event::SlotConsumed) => apply_message(ctx, params, clear_accounts),
        (Phase::ExternalCallIssued, Event::CallReturned) => (Phase::Complete, Action::Finish),
        _ => (phase, Action::Ignore),
    }
}

/// Why a delivery run against a slot ledger came to nothing.
#[derive(Clone, Copy, Debug, PartialEq, Eq, Structural)]
pub enum Refusal {
    /// The delivery was turned away with this failure.
    Rejected(LayerZeroError),
    /// The message's slot had been consumed before.
    SlotAlreadyConsumed,
}

/// What a delivery that went through leaves the runtime to do.
#[derive(Clone, Debug, PartialEq, Eq)]
pub enum Delivered {
    /// Send the acknowledgement.
    Acknowledge(AckSend),
    /// Nothing.
    Done,
}

/// The slot of a message.
pub open spec fn slot_of(params: LzReceiveParams) -> SequenceSlot {
    SequenceSlot { src_eid: params.src_eid, sender: params.sender, nonce: params.nonce }
}

/// A whole delivery against a set of consumed slots: the counter's record
/// and the slots afterwards, and why it came to nothing, if it did.
///
/// A delivery that is turned away before its slot is consumed leaves the
/// slot free. One that finds its slot consumed changes nothing. One that is
/// turned away afterwards has spent the slot and left the record alone.
pub open spec fn delivery(
    store: CounterView,
    peer: PeerConfig,
    params: LzReceiveParams,
    slots: Set<SequenceSlot>,
) -> (CounterView, Set<SequenceSlot>, Option<Refusal>) {
    match on_delivered(peer, params).1 {
        Decision::Abort(e) => (store, slots, Some(Refusal::Rejected(e))),
        _ => if slots.contains(slot_of(params)) {
            (store, slots, Some(Refusal::SlotAlreadyConsumed))
        } else {
            match on_slot_consumed(store, params.message@).1 {
                Decision::Abort(e) => (
                    store,
                    slots.insert(slot_of(params)),
                    Some(Refusal::Rejected(e)),
                ),
                _ => (applied(store, params.message@), slots.insert(slot_of(params)), None),
            }
        },
    }
}

/// The refusal of a delivery's outcome, if it is one.
pub open spec fn refusal_of(outcome: Result<Delivered, Refusal>) -> Option<Refusal> {
    match outcome {
        Ok(_) => None,
        Err(refusal) => Some(refusal),
    }
}

/// Runs a whole delivery against a slot ledger, which stands in for the
/// endpoint: the message is authenticated, its slot is consumed in the
/// ledger, and the message is applied. An increment that went through
/// returns the acknowledgement to send.
pub fn deliver(
    ctx: &mut LzReceive,
    params: &LzReceiveParams,
    clear_accounts: usize,
    slots: &mut SlotLedger,
) -> (outcome: Result<Delivered, Refusal>)
    ensures
        (final(ctx).store@, final(slots)@, refusal_of(outcome)) == delivery(
            old(ctx).store@,
            old(ctx).peer,
            *params,
            old(slots)@,
        ),
        final(ctx).peer == old(ctx).peer,
        final(ctx).store_key == old(ctx).store_key,
        outcome matches Ok(Delivered::Acknowledge(ack)) ==> carries(
            Action::SendAck(ack),
            *old(ctx),
            *params,
            clear_accounts,
        ),
        outcome matches Ok(done) ==> (done is Acknowledge <==> on_slot_consumed(
            old(ctx).store@,
            params.message@,
        ).1 is SendAck),
{
    let (_, first) = lz_receive(ctx, params, clear_accounts, Phase::Received, Event::Delivered);
    match first {
        Action::Abort(e) => {
            return Err(Refusal::Rejected(e));
        },
        _ => {},
    }
    let slot = SequenceSlot { src_eid: params.src_eid, sender: params.sender, nonce: params.nonce };
    if !slots.consume(slot) {
        assert(slots@ =~= old(slots)@);
        return Err(Refusal::SlotAlreadyConsumed);
    }
    let (_, second) = lz_receive(
        ctx,
        params,
        clear_accounts,
        Phase::Authenticated,
        Event::SlotConsumed,
    );
    match second {
        Action::SendAck(ack) => Ok(Delivered::Acknowledge(ack)),
        Action::Abort(e) => Err(Refusal::Rejected(e)),
        _ => Ok(Delivered::Done),
    }
}

/// A message delivered twice under one nonce is applied once. The first
/// delivery consumes the slot and, for an increment, raises the counter; the
/// second is refused and leaves the counter, the text and the consumed slots
/// as the first left them.
pub proof fn law_replayed_message_counts_once(
    store: CounterView,
    peer: PeerConfig,
    params: LzReceiveParams,
    slots: Set<SequenceSlot>,
)
    requires
        delivery(store, peer, params, slots).2 is None,
    ensures
        ({
            let once = delivery(store, peer, params, slots);
            let twice = delivery(once.0, peer, params, once.1);
            &&& once.1 == slots.insert(slot_of(params))
            &&& twice.2 == Some(Refusal::SlotAlreadyConsumed)
            &&& twice.0 == once.0
            &&& twice.1 == once.1
        }),
{
}

/// A message from a sender other than the trusted peer is turned away with
/// `InvalidPeer` on arrival: the record does not change, and the slot stays
/// free.
pub proof fn law_untrusted_sender_changes_nothing(
    store: CounterView,
    peer: PeerConfig,
    params: LzReceiveParams,
    slots: Set<SequenceSlot>,
)
    requires
        params.sender != peer.peer_address,
    ensures
        next(store, peer, params, Phase::Received, Event::Delivered) == (
            Phase::Received,
            Decision::Abort(LayerZeroError::InvalidPeer),
        ),
        after(store, params.message@, Phase::Received, Event::Delivered) == store,
        delivery(store, peer, params, slots) == (
            store,
            slots,
            Some(Refusal::Rejected(LayerZeroError::InvalidPeer)),
        ),
{
}

/// An increment raises the counter by its amount, or by one where the
/// amount is zero, and is acknowledged with the counter's new value; one
/// that would pass `u64::MAX` is refused with `Overflow` and changes
/// nothing.
pub proof fn law_increment_raises_and_acknowledges(store: CounterView, amount: u64)
    ensures
        ({
            let message = opcode_encoding(crate::msg_codec::OPCODE_INCREMENT, amount);
            let raised = store.count + increment_step(amount);
            &&& raised <= u64::MAX ==> on_slot_consumed(store, message) == (
                Phase::ExternalCallIssued,
                Decision::SendAck,
            ) && applied(store, message) == (CounterView { count: raised as u64, ..store })
            &&& raised > u64::MAX ==> on_slot_consumed(store, message) == (
                Phase::Decoded,
                Decision::Abort(LayerZeroError::Overflow),
            ) && applied(store, message) == store
        }),
{
    crate::msg_codec::law_message_round_trip(DecodedMessageView::Increment(amount));
    let message = opcode_encoding(crate::msg_codec::OPCODE_INCREMENT, amount);
    assert(message.len() == 9);
}

} // verus!
