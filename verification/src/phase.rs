//! The phases of a delivery and what the runtime reports between them.

use vstd::prelude::*;

verus! {

/// Where a delivery stands.
#[derive(Clone, Copy, Debug, PartialEq, Eq, Structural)]
pub enum Phase {
    Received,
    Authenticated,
    SlotConsumed,
    Decoded,
    StateUpdated,
    ExternalCallIssued,
    Complete,
}

/// What the runtime reports.
#[derive(Clone, Copy, Debug, PartialEq, Eq, Structural)]
pub enum Event {
    /// The message has arrived.
    Delivered,
    /// The endpoint has consumed the message's slot.
    SlotConsumed,
    /// The call that the delivery asked for has returned.
    CallReturned,
}

} // verus!
