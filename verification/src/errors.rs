//! Why a message to the vault is turned away.

use vstd::prelude::*;

verus! {

/// The named failures of the vault's instructions.
#[derive(Clone, Copy, Debug, PartialEq, Eq, Structural)]
pub enum MyOAppError {
    /// The sender is not the peer trusted for the message's source chain.
    InvalidPeer,
    /// The payload is too short for a deposit, or the accounts supplied do
    /// not match the configuration.
    InvalidMessageType,
    /// A cumulative amount or a counter would pass the largest value it can hold.
    Overflow,
    /// An account supplied is not the one the configuration asks for.
    InvalidAccount,
}

impl MyOAppError {
    /// The name of the failure.
    pub fn name(&self) -> (text: String)
        ensures
            text@ == (match *self {
                MyOAppError::InvalidPeer => "InvalidPeer"@,
                MyOAppError::InvalidMessageType => "InvalidMessageType"@,
                MyOAppError::Overflow => "Overflow"@,
                MyOAppError::InvalidAccount => "InvalidAccount"@,
            }),
    {
        match self {
            MyOAppError::InvalidPeer => "InvalidPeer".to_owned(),
            MyOAppError::InvalidMessageType => "InvalidMessageType".to_owned(),
            MyOAppError::Overflow => "Overflow".to_owned(),
            MyOAppError::InvalidAccount => "InvalidAccount".to_owned(),
        }
    }
}

} // verus!
