//! The delivery of a deposit.
//!
//! A delivery passes through seven phases: received, authenticated, slot
//! consumed, decoded, state updated, external call issued, complete. Two of
//! the steps between them are the runtime's to perform: consuming the
//! message's sequence slot at the endpoint, and calling the lending program.
//! `LzReceive::apply` decides everything else. It is handed the phase a
//! delivery is in and what the runtime reports, and answers with the next
//! phase and what the runtime is to do.
//!
//! No record changes before the slot is consumed, and a delivery that is
//! turned away changes none at all.

use crate::address::{seeds_view, Address};
use crate::endpoint::{
    clear_params, clear_params_for, ClearRequest, Instruction, LzReceiveParams,
};
use crate::phase::{Event, Phase};
use crate::errors::MyOAppError;
use crate::endpoint::LzAccount;
use crate::instructions::lz_receive_types::{resolution, LzReceiveTypes};
use crate::lending::{build_deposit, deposit_instruction, keys_match_config};
use crate::msg_codec::{
    amount_of, evm_address_eq, evm_address_of, parse_amount, parse_evm_address, EvmAddress,
};
use crate::seeds::{store_signer_seed_list, store_signer_seeds};
use crate::slots::{SequenceSlot, SlotLedger};
use crate::state::{belongs_to, credit_overflows, credited, PeerConfig, Store, UserBalance};
use crate::DepositEvent;
use vstd::prelude::*;

verus! {

/// What a delivery reads and writes: the configuration record and its
/// address, the peer record of the message's source chain, the ledger record
/// of the sender named in the message with the bump of its address, and the
/// addresses of the further accounts supplied, in order.
#[derive(Clone, Debug, PartialEq, Eq)]
pub struct LzReceive {
    pub store_key: Address,
    pub store: Store,
    pub peer: PeerConfig,
    pub user_balance: UserBalance,
    pub user_balance_bump: u8,
    pub remaining_accounts: Vec<Address>,
}

/// What the runtime knows and the delivery does not: how many accounts the
/// endpoint takes to clear this message's slot, and the time.
#[derive(Clone, Copy, Debug, PartialEq, Eq)]
pub struct Runtime {
    pub clear_accounts: usize,
    pub unix_timestamp: i64,
}

/// The call into the lending program, the notice to publish with it, the
/// place of the call's first account among the accounts supplied, and the
/// seeds that sign it.
#[derive(Clone, Debug, PartialEq, Eq)]
pub struct DepositCall {
    pub event: DepositEvent,
    pub instruction: Instruction,
    pub first_account: usize,
    pub signer_seeds: Vec<Vec<u8>>,
}

/// What the runtime is to do next.
#[derive(Clone, Debug, PartialEq, Eq)]
pub enum Action {
    /// Consume the message's slot, then report `Event::SlotConsumed`.
    ConsumeSlot(ClearRequest),
    /// Publish the notice and make the call, then report `Event::CallReturned`.
    IssueCall(DepositCall),
    /// Nothing is left to do.
    Finish,
    /// Give the delivery up with this failure. No record has changed.
    Abort(MyOAppError),
    /// The event does not belong to the phase. Nothing has changed.
    Ignore,
}

/// An action without what it carries.
pub enum Decision {
    ConsumeSlot,
    IssueCall,
    Finish,
    Abort(MyOAppError),
    Ignore,
}

impl Action {
    /// Which action this is.
    pub open spec fn decision(self) -> Decision {
        match self {
            Action::ConsumeSlot(_) => Decision::ConsumeSlot,
            Action::IssueCall(_) => Decision::IssueCall,
            Action::Finish => Decision::Finish,
            Action::Abort(e) => Decision::Abort(e),
            Action::Ignore => Decision::Ignore,
        }
    }
}

/// The eighteen accounts of the deposit among those supplied: they follow
/// the accounts that clearing takes.
pub open spec fn deposit_keys(ctx: LzReceive, runtime: Runtime) -> Seq<Address> {
    ctx.remaining_accounts@.subrange(runtime.clear_accounts as int, runtime.clear_accounts + 18)
}

/// What authentication decides when a message arrives: `InvalidPeer` for a
/// sender other than the trusted peer, `InvalidMessageType` where fewer
/// accounts are supplied than clearing takes, and otherwise to consume the
/// slot.
pub open spec fn on_delivered(ctx: LzReceive, params: LzReceiveParams, runtime: Runtime) -> (
    Phase,
    Decision,
) {
    if params.sender != ctx.peer.peer_address {
        (Phase::Received, Decision::Abort(MyOAppError::InvalidPeer))
    } else if ctx.remaining_accounts@.len() < runtime.clear_accounts {
        (Phase::Received, Decision::Abort(MyOAppError::InvalidMessageType))
    } else {
        (Phase::Authenticated, Decision::ConsumeSlot)
    }
}

/// What happens once the slot is consumed. The payload is decoded
/// (`InvalidMessageType` below twenty-eight bytes), the ledger record is
/// checked to be the sender's (`InvalidAccount`) and to have room
/// (`Overflow`), and the accounts supplied are checked to be eighteen past
/// those for clearing and to agree with the configuration
/// (`InvalidMessageType`). The phase reported with a failure is the last one
/// reached.
pub open spec fn on_slot_consumed(ctx: LzReceive, params: LzReceiveParams, runtime: Runtime) -> (
    Phase,
    Decision,
) {
    let message = params.message@;
    if message.len() < 28 {
        (Phase::SlotConsumed, Decision::Abort(MyOAppError::InvalidMessageType))
    } else if !belongs_to(ctx.user_balance, evm_address_of(message)) {
        (Phase::Decoded, Decision::Abort(MyOAppError::InvalidAccount))
    } else if credit_overflows(ctx.user_balance, amount_of(message)) {
        (Phase::Decoded, Decision::Abort(MyOAppError::Overflow))
    } else if ctx.remaining_accounts@.len() < runtime.clear_accounts + 18 {
        (Phase::StateUpdated, Decision::Abort(MyOAppError::InvalidMessageType))
    } else if !keys_match_config(deposit_keys(ctx, runtime), ctx.store) {
        (Phase::StateUpdated, Decision::Abort(MyOAppError::InvalidMessageType))
    } else {
        (Phase::ExternalCallIssued, Decision::IssueCall)
    }
}

/// The next phase and the kind of action, for every phase and event.
pub open spec fn next(
    ctx: LzReceive,
    params: LzReceiveParams,
    runtime: Runtime,
    phase: Phase,
    event: Event,
) -> (Phase, Decision) {
    match (phase, event) {
        (Phase::Received, Event::Delivered) => on_delivered(ctx, params, runtime),
        (Phase::Authenticated, Event::SlotConsumed) => on_slot_consumed(ctx, params, runtime),
        (Phase::ExternalCallIssued, Event::CallReturned) => (Phase::Complete, Decision::Finish),
        _ => (phase, Decision::Ignore),
    }
}

/// The ledger record after the deposit that `params` carries.
pub open spec fn balance_after(ctx: LzReceive, params: LzReceiveParams, runtime: Runtime) -> UserBalance {
    credited(
        ctx.user_balance,
        evm_address_of(params.message@),
        ctx.user_balance_bump,
        amount_of(params.message@),
        runtime.unix_timestamp,
    )
}

/// The records after a step: the ledger record is credited where the step
/// issues the call, and nothing changes otherwise.
pub open spec fn after(
    ctx: LzReceive,
    params: LzReceiveParams,
    runtime: Runtime,
    phase: Phase,
    event: Event,
) -> LzReceive {
    if next(ctx, params, runtime, phase, event).1 is IssueCall {
        LzReceive { user_balance: balance_after(ctx, params, runtime), ..ctx }
    } else {
        ctx
    }
}

/// The notice of the deposit that `params` carries.
pub open spec fn deposit_event_of(ctx: LzReceive, params: LzReceiveParams, runtime: Runtime) -> DepositEvent {
    let balance = balance_after(ctx, params, runtime);
    DepositEvent {
        guid: params.guid,
        evm_address: evm_address_of(params.message@),
        amount: amount_of(params.message@),
        new_total: balance.total_deposited,
        deposit_index: balance.deposit_count,
        timestamp: runtime.unix_timestamp,
    }
}

/// Whether `action` carries what the step from `phase` on `event` asks for.
pub open spec fn carries(
    action: Action,
    ctx: LzReceive,
    params: LzReceiveParams,
    runtime: Runtime,
) -> bool {
    match action {
        Action::ConsumeSlot(request) => {
            &&& request.params@ == clear_params_for(ctx.store_key, params)
            &&& request.accounts == runtime.clear_accounts
            &&& seeds_view(request.signer_seeds@) == store_signer_seeds(ctx.store.bump)
        },
        Action::IssueCall(call) => {
            &&& call.event == deposit_event_of(ctx, params, runtime)
            &&& call.instruction@ == deposit_instruction(
                deposit_keys(ctx, runtime),
                amount_of(params.message@),
            )
            &&& call.first_account == runtime.clear_accounts
            &&& seeds_view(call.signer_seeds@) == store_signer_seeds(ctx.store.bump)
        },
        _ => true,
    }
}

/// Copies the eighteen addresses from `first` on.
fn take_keys(accounts: &Vec<Address>, first: usize) -> (keys: Vec<Address>)
    requires
        first + 18 <= accounts.len(),
    ensures
        keys@ == accounts@.subrange(first as int, first + 18),
{
    let mut keys: Vec<Address> = Vec::new();
    let mut i: usize = 0;
    while i < 18
        invariant
            i <= 18,
            first + 18 <= accounts.len(),
            keys@ == accounts@.subrange(first as int, first + i),
        decreases 18 - i,
    {
        keys.push(accounts[first + i]);
        assert(keys@ =~= accounts@.subrange(first as int, first + i + 1));
        i += 1;
    }
    keys
}

impl LzReceive {
    /// Authenticates a message that has arrived and asks for its slot.
    fn authenticate(ctx: &LzReceive, params: &LzReceiveParams, runtime: &Runtime) -> (step: (
        Phase,
        Action,
    ))
        ensures
            (step.0, step.1.decision()) == on_delivered(*ctx, *params, *runtime),
            carries(step.1, *ctx, *params, *runtime),
    {
        if !crate::address::address_eq(&params.sender, &ctx.peer.peer_address) {
            return (Phase::Received, Action::Abort(MyOAppError::InvalidPeer));
        }
        if ctx.remaining_accounts.len() < runtime.clear_accounts {
            return (Phase::Received, Action::Abort(MyOAppError::InvalidMessageType));
        }
        let request = ClearRequest {
            params: clear_params(ctx.store_key, params),
            accounts: runtime.clear_accounts,
            signer_seeds: store_signer_seed_list(ctx.store.bump),
        };
        (Phase::Authenticated, Action::ConsumeSlot(request))
    }

    /// Decodes the deposit, credits the ledger record and composes the call.
    fn deposit(ctx: &mut LzReceive, params: &LzReceiveParams, runtime: &Runtime) -> (step: (
        Phase,
        Action,
    ))
        ensures
            (step.0, step.1.decision()) == on_slot_consumed(*old(ctx), *params, *runtime),
            carries(step.1, *old(ctx), *params, *runtime),
            *final(ctx) == after(
                *old(ctx),
                *params,
                *runtime,
                Phase::Authenticated,
                Event::SlotConsumed,
            ),
    {
        let evm_address = match parse_evm_address(params.message.as_slice()) {
            Ok(address) => address,
            Err(e) => {
                return (Phase::SlotConsumed, Action::Abort(MyOAppError::InvalidMessageType));
            },
        };
        let amount = parse_amount(params.message.as_slice());
        let balance = ctx.user_balance;
        let first = balance.deposit_count == 0;
        if !first && !evm_address_eq(&balance.evm_address, &evm_address) {
            return (Phase::Decoded, Action::Abort(MyOAppError::InvalidAccount));
        }
        let total = match balance.total_deposited.checked_add(amount) {
            Some(total) => total,
            None => {
                return (Phase::Decoded, Action::Abort(MyOAppError::Overflow));
            },
        };
        let count = match balance.deposit_count.checked_add(1) {
            Some(count) => count,
            None => {
                return (Phase::Decoded, Action::Abort(MyOAppError::Overflow));
            },
        };
        let base = runtime.clear_accounts;
        let supplied = ctx.remaining_accounts.len();
        if supplied < base || supplied - base < 18 {
            return (Phase::StateUpdated, Action::Abort(MyOAppError::InvalidMessageType));
        }
        let keys = take_keys(&ctx.remaining_accounts, base);
        let instruction = match build_deposit(&keys, &ctx.store, amount) {
            Ok(instruction) => instruction,
            Err(e) => {
                return (Phase::StateUpdated, Action::Abort(MyOAppError::InvalidMessageType));
            },
        };
        let updated = UserBalance {
            evm_address: if first {
                evm_address
            } else {
                balance.evm_address
            },
            total_deposited: total,
            deposit_count: count,
            last_updated: runtime.unix_timestamp,
            bump: if first {
                ctx.user_balance_bump
            } else {
                balance.bump
            },
        };
        let event = DepositEvent {
            guid: params.guid,
            evm_address,
            amount,
            new_total: total,
            deposit_index: count,
            timestamp: runtime.unix_timestamp,
        };
        let call = DepositCall {
            event,
            instruction,
            first_account: base,
            signer_seeds: store_signer_seed_list(ctx.store.bump),
        };
        ctx.user_balance = updated;
        (Phase::ExternalCallIssued, Action::IssueCall(call))
    }

    /// Takes a delivery one step on.
    ///
    /// Given the phase the delivery is in and what the runtime reports, this
    /// returns the next phase and what the runtime is to do, and leaves the
    /// records as the step leaves them. Only the step that issues the call
    /// changes a record: it credits the sender's ledger record.
    pub fn apply(
        ctx: &mut LzReceive,
        params: &LzReceiveParams,
        runtime: &Runtime,
        phase: Phase,
        event: Event,
    ) -> (step: (Phase, Action))
        ensures
            (step.0, step.1.decision()) == next(*old(ctx), *params, *runtime, phase, event),
            carries(step.1, *old(ctx), *params, *runtime),
            *final(ctx) == after(*old(ctx), *params, *runtime, phase, event),
    {
        match (phase, event) {
            (Phase::Received, Event::Delivered) => LzReceive::authenticate(ctx, params, runtime),
            (Phase::Authenticated, Event::SlotConsumed) => LzReceive::deposit(
                ctx,
                params,
                runtime,
            ),
            (Phase::ExternalCallIssued, Event::CallReturned) => (Phase::Complete, Action::Finish),
            _ => (phase, Action::Ignore),
        }
    }
}

/// Why a delivery run against a slot ledger came to nothing.
#[derive(Clone, Copy, Debug, PartialEq, Eq, Structural)]
pub enum Refusal {
    /// The delivery was turned away with this failure.
    Rejected(MyOAppError),
    /// The message's slot had been consumed before.
    SlotAlreadyConsumed,
}

/// The slot of a message.
pub open spec fn slot_of(params: LzReceiveParams) -> SequenceSlot {
    SequenceSlot { src_eid: params.src_eid, sender: params.sender, nonce: params.nonce }
}

/// A whole delivery against a set of consumed slots: the records and the
/// slots afterwards, and why it came to nothing, if it did.
///
/// A delivery that is turned away before its slot is consumed leaves the
/// slot free. One that finds its slot consumed changes nothing. One that is
/// turned away afterwards has spent the slot and changed no record.
pub open spec fn delivery(
    ctx: LzReceive,
    params: LzReceiveParams,
    runtime: Runtime,
    slots: Set<SequenceSlot>,
) -> (LzReceive, Set<SequenceSlot>, Option<Refusal>) {
    match on_delivered(ctx, params, runtime).1 {
        Decision::Abort(e) => (ctx, slots, Some(Refusal::Rejected(e))),
        _ => if slots.contains(slot_of(params)) {
            (ctx, slots, Some(Refusal::SlotAlreadyConsumed))
        } else {
            match on_slot_consumed(ctx, params, runtime).1 {
                Decision::Abort(e) => (
                    ctx,
                    slots.insert(slot_of(params)),
                    Some(Refusal::Rejected(e)),
                ),
                _ => (
                    after(ctx, params, runtime, Phase::Authenticated, Event::SlotConsumed),
                    slots.insert(slot_of(params)),
                    None,
                ),
            }
        },
    }
}

/// The refusal of a delivery's outcome, if it is one.
pub open spec fn refusal_of(outcome: Result<DepositCall, Refusal>) -> Option<Refusal> {
    match outcome {
        Ok(_) => None,
        Err(refusal) => Some(refusal),
    }
}

/// Runs a whole delivery against a slot ledger, which stands in for the
/// endpoint: the message is authenticated, its slot is consumed in the
/// ledger, and the deposit is taken. On success the call to issue is
/// returned.
pub fn deliver(
    ctx: &mut LzReceive,
    params: &LzReceiveParams,
    runtime: &Runtime,
    slots: &mut SlotLedger,
) -> (outcome: Result<DepositCall, Refusal>)
    ensures
        (*final(ctx), final(slots)@, refusal_of(outcome)) == delivery(
            *old(ctx),
            *params,
            *runtime,
            old(slots)@,
        ),
        outcome matches Ok(call) ==> carries(
            Action::IssueCall(call),
            *old(ctx),
            *params,
            *runtime,
        ),
{
    let (_, first) = LzReceive::apply(ctx, params, runtime, Phase::Received, Event::Delivered);
    match first {
        Action::Abort(e) => {
            return Err(Refusal::Rejected(e));
        },
        _ => {},
    }
    let slot = SequenceSlot { src_eid: params.src_eid, sender: params.sender, nonce: params.nonce };
    if !slots.consume(slot) {
        assert(slots@ =~= old(slots)@);
        return Err(Refusal::SlotAlreadyConsumed);
    }
    let (_, second) = LzReceive::apply(
        ctx,
        params,
        runtime,
        Phase::Authenticated,
        Event::SlotConsumed,
    );
    match second {
        Action::IssueCall(call) => Ok(call),
        Action::Abort(e) => Err(Refusal::Rejected(e)),
        _ => {
            proof {
                assert(false);
            }
            Err(Refusal::SlotAlreadyConsumed)
        },
    }
}

/// A message from a sender other than the trusted peer is turned away with
/// `InvalidPeer` on arrival: no record changes, and its slot stays free.
pub proof fn law_untrusted_sender_changes_nothing(
    ctx: LzReceive,
    params: LzReceiveParams,
    runtime: Runtime,
    slots: Set<SequenceSlot>,
)
    requires
        params.sender != ctx.peer.peer_address,
    ensures
        next(ctx, params, runtime, Phase::Received, Event::Delivered) == (
            Phase::Received,
            Decision::Abort(MyOAppError::InvalidPeer),
        ),
        after(ctx, params, runtime, Phase::Received, Event::Delivered) == ctx,
        delivery(ctx, params, runtime, slots) == (
            ctx,
            slots,
            Some(Refusal::Rejected(MyOAppError::InvalidPeer)),
        ),
{
}

/// Two deposits from one remote address into its fresh ledger record leave
/// the sum of their amounts as the total and two as the count.
pub proof fn law_two_deposits_add_up(
    ctx: LzReceive,
    first: LzReceiveParams,
    first_runtime: Runtime,
    second: LzReceiveParams,
    second_runtime: Runtime,
    slots: Set<SequenceSlot>,
)
    requires
        ctx.user_balance.deposit_count == 0,
        ctx.user_balance.total_deposited == 0,
        evm_address_of(first.message@) == evm_address_of(second.message@),
        delivery(ctx, first, first_runtime, slots).2 is None,
        delivery(
            delivery(ctx, first, first_runtime, slots).0,
            second,
            second_runtime,
            delivery(ctx, first, first_runtime, slots).1,
        ).2 is None,
    ensures
        ({
            let once = delivery(ctx, first, first_runtime, slots);
            let twice = delivery(once.0, second, second_runtime, once.1);
            &&& twice.0.user_balance.total_deposited == amount_of(first.message@) + amount_of(
                second.message@,
            )
            &&& twice.0.user_balance.deposit_count == 2
            &&& twice.0.user_balance.evm_address == evm_address_of(first.message@)
        }),
{
}

/// A deposit that would carry the sender's total past `u64::MAX` is turned
/// away with `Overflow` once its slot is consumed: no call is composed, and
/// no record changes.
pub proof fn law_overfull_total_is_refused(
    ctx: LzReceive,
    params: LzReceiveParams,
    runtime: Runtime,
)
    requires
        params.message@.len() >= 28,
        belongs_to(ctx.user_balance, evm_address_of(params.message@)),
        ctx.user_balance.total_deposited + amount_of(params.message@) > u64::MAX,
    ensures
        next(ctx, params, runtime, Phase::Authenticated, Event::SlotConsumed) == (
            Phase::Decoded,
            Decision::Abort(MyOAppError::Overflow),
        ),
        after(ctx, params, runtime, Phase::Authenticated, Event::SlotConsumed) == ctx,
{
}

/// A message delivered a second time is refused: its slot was consumed by
/// the first delivery, and the second changes neither records nor slots.
pub proof fn law_second_delivery_is_refused(
    ctx: LzReceive,
    params: LzReceiveParams,
    first_runtime: Runtime,
    second_runtime: Runtime,
    slots: Set<SequenceSlot>,
)
    requires
        delivery(ctx, params, first_runtime, slots).2 is None,
    ensures
        ({
            let once = delivery(ctx, params, first_runtime, slots);
            let twice = delivery(once.0, params, second_runtime, once.1);
            &&& twice.2 is Some
            &&& twice.0 == once.0
            &&& twice.1 == once.1
        }),
{
}

/// No record changes before the slot is consumed: whatever the phase and
/// the event, a step that does not issue the call leaves the records as
/// they were, and the call is issued only from the authenticated phase on
/// the report that the slot is consumed.
pub proof fn law_records_change_only_with_the_call(
    ctx: LzReceive,
    params: LzReceiveParams,
    runtime: Runtime,
    phase: Phase,
    event: Event,
)
    ensures
        after(ctx, params, runtime, phase, event) != ctx ==> phase == Phase::Authenticated && event
            == Event::SlotConsumed && next(ctx, params, runtime, phase, event).1 is IssueCall,
        next(ctx, params, runtime, phase, event).1 is IssueCall ==> phase == Phase::Authenticated
            && event == Event::SlotConsumed,
{
}

/// The addresses of a list of accounts.
pub open spec fn keys_of(accounts: Seq<LzAccount>) -> Seq<Address> {
    Seq::new(accounts.len(), |i: int| accounts[i].pubkey)
}

/// The list that the account query gives is the list that the delivery
/// needs, entry for entry. It opens with the configuration record and the
/// peer record; what follows, supplied to the delivery as its further
/// accounts, is as long as the delivery asks, passes its check against the
/// configuration, and gives the call an argument list that names, at each
/// position, the account listed at that position with the writability
/// listed for it.
pub proof fn law_listed_accounts_are_those_required(
    query: LzReceiveTypes,
    accounts_for_clear: Seq<LzAccount>,
    ctx: LzReceive,
    params: LzReceiveParams,
    runtime: Runtime,
)
    requires
        ctx.store == query.store,
        ctx.store_key == query.store_key,
        runtime.clear_accounts == accounts_for_clear.len(),
        resolution(query, params.src_eid, accounts_for_clear) matches Some(listed)
            && ctx.remaining_accounts@ == keys_of(listed.subrange(2, listed.len() as int)),
    ensures
        ({
            let listed = resolution(query, params.src_eid, accounts_for_clear)->Some_0;
            let call = deposit_instruction(deposit_keys(ctx, runtime), amount_of(params.message@));
            let first: int = 2 + accounts_for_clear.len() as int;
            &&& listed.len() == 2 + accounts_for_clear.len() + 18
            &&& listed[0].pubkey == ctx.store_key
            &&& listed.subrange(2, first) == accounts_for_clear
            &&& ctx.remaining_accounts@.len() == runtime.clear_accounts + 18
            &&& keys_match_config(deposit_keys(ctx, runtime), ctx.store)
            &&& call.accounts.len() == 17
            &&& call.program_id == listed[first + 17].pubkey
            &&& forall|i: int|
                0 <= i < 17 ==> (#[trigger] call.accounts[i]).pubkey == listed[first + i].pubkey
                    && call.accounts[i].is_writable == listed[first + i].is_writable
        }),
{
    let listed = resolution(query, params.src_eid, accounts_for_clear)->Some_0;
    let first: int = 2 + accounts_for_clear.len() as int;
    let keys = deposit_keys(ctx, runtime);
    assert(listed.len() == 2 + accounts_for_clear.len() + 18);
    assert(listed.subrange(2, first) =~= accounts_for_clear);
    assert forall|i: int| 0 <= i < 18 implies #[trigger] keys[i] == listed[first + i].pubkey by {
        assert(keys[i] == ctx.remaining_accounts@[runtime.clear_accounts + i]);
        assert(listed.subrange(2, listed.len() as int)[runtime.clear_accounts + i] == listed[first
            + i]);
    }
    assert(keys[3] == listed[first + 3].pubkey);
    assert(keys[14] == listed[first + 14].pubkey);
    assert(keys[15] == listed[first + 15].pubkey);
    assert(keys[17] == listed[first + 17].pubkey);
}

/// Asking for the list twice gives the same list: it is a function of the
/// query's inputs.
pub proof fn law_listing_is_repeatable(
    query: LzReceiveTypes,
    src_eid: u32,
    accounts_for_clear: Seq<LzAccount>,
    first: Seq<LzAccount>,
    second: Seq<LzAccount>,
)
    requires
        resolution(query, src_eid, accounts_for_clear) == Some(first),
        resolution(query, src_eid, accounts_for_clear) == Some(second),
    ensures
        first == second,
{
}

} // verus!
