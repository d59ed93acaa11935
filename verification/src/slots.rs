//! Sequence slots and their one-time consumption.
//!
//! The endpoint keeps the slots; this is the rule it keeps them by, for use
//! where a delivery is run without one.

use crate::address::address_eq;
use vstd::prelude::*;

verus! {

/// The slot of one message: its source chain, its sender there, and its
/// place in the sender's sequence.
#[derive(Clone, Copy, Debug, PartialEq, Eq)]
pub struct SequenceSlot {
    pub src_eid: u32,
    pub sender: [u8; 32],
    pub nonce: u64,
}

/// The slots consumed so far.
#[derive(Clone, Debug)]
pub struct SlotLedger {
    consumed: Vec<SequenceSlot>,
}

impl View for SlotLedger {
    type V = Set<SequenceSlot>;

    closed spec fn view(&self) -> Set<SequenceSlot> {
        self.consumed@.to_set()
    }
}

impl SlotLedger {
    /// A ledger with no slot consumed.
    pub fn new() -> (ledger: SlotLedger)
        ensures
            ledger@ == Set::<SequenceSlot>::empty(),
    {
        let ledger = SlotLedger { consumed: Vec::new() };
        assert(ledger.consumed@.to_set() =~= Set::<SequenceSlot>::empty());
        ledger
    }

    /// Whether `slot` has been consumed.
    pub fn is_consumed(&self, slot: &SequenceSlot) -> (found: bool)
        ensures
            found == self@.contains(*slot),
    {
        let mut i: usize = 0;
        while i < self.consumed.len()
            invariant
                i <= self.consumed.len(),
                forall|j: int| 0 <= j < i ==> self.consumed@[j] != *slot,
            decreases self.consumed.len() - i,
        {
            let seen = &self.consumed[i];
            if seen.src_eid == slot.src_eid && seen.nonce == slot.nonce && address_eq(
                &seen.sender,
                &slot.sender,
            ) {
                assert(self.consumed@[i as int] == *slot);
                assert(self.consumed@.contains(*slot));
                return true;
            }
            i += 1;
        }
        assert(!self.consumed@.contains(*slot));
        false
    }

    /// Consumes `slot`. Returns whether it was still free; a slot that was
    /// consumed before stays consumed and nothing changes.
    pub fn consume(&mut self, slot: SequenceSlot) -> (fresh: bool)
        ensures
            fresh == !old(self)@.contains(slot),
            final(self)@ == old(self)@.insert(slot),
    {
        if self.is_consumed(&slot) {
            assert(self@.insert(slot) =~= self@);
            return false;
        }
        let ghost before = self.consumed@;
        self.consumed.push(slot);
        assert(self.consumed@ == before.push(slot));
        assert(self.consumed@.to_set() =~= before.to_set().insert(slot)) by {
            assert forall|s: SequenceSlot|
                self.consumed@.to_set().contains(s) <==> before.to_set().insert(slot).contains(
                    s,
                ) by {
                if before.contains(s) {
                    let k = choose|k: int| 0 <= k < before.len() && before[k] == s;
                    assert(self.consumed@[k] == s);
                }
                if s == slot {
                    assert(self.consumed@[before.len() as int] == s);
                }
            }
        }
        true
    }
}

} // verus!
