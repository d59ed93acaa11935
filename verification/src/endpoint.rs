//! The values exchanged with the messaging endpoint and with the runtime.

use crate::address::Address;
use vstd::prelude::*;

verus! {

/// An inbound message as the endpoint delivers it.
#[derive(Clone, Debug, PartialEq, Eq)]
pub struct LzReceiveParams {
    /// The chain the message came from.
    pub src_eid: u32,
    /// The address that sent it on that chain.
    pub sender: [u8; 32],
    /// Its place in the sender's sequence.
    pub nonce: u64,
    /// Its globally unique identifier.
    pub guid: [u8; 32],
    /// Its body.
    pub message: Vec<u8>,
}

/// An account that an instruction will touch, as reported to the executor.
#[derive(Clone, Copy, Debug, PartialEq, Eq)]
pub struct LzAccount {
    pub pubkey: Address,
    pub is_signer: bool,
    pub is_writable: bool,
}

/// An account in the argument list of a cross-program call.
#[derive(Clone, Copy, Debug, PartialEq, Eq)]
pub struct AccountMeta {
    pub pubkey: Address,
    pub is_signer: bool,
    pub is_writable: bool,
}

/// A cross-program call: the program, its accounts in order, and its data.
#[derive(Clone, Debug, PartialEq, Eq)]
pub struct Instruction {
    pub program_id: Address,
    pub accounts: Vec<AccountMeta>,
    pub data: Vec<u8>,
}

/// The mathematical content of an `Instruction`.
pub struct InstructionView {
    pub program_id: Address,
    pub accounts: Seq<AccountMeta>,
    pub data: Seq<u8>,
}

impl View for Instruction {
    type V = InstructionView;

    open spec fn view(&self) -> InstructionView {
        InstructionView { program_id: self.program_id, accounts: self.accounts@, data: self.data@ }
    }
}

/// What the endpoint is asked to clear: the sequence slot of one message,
/// named by its receiver, source chain, sender and nonce, together with the
/// message itself.
#[derive(Clone, Debug, PartialEq, Eq)]
pub struct ClearParams {
    pub receiver: Address,
    pub src_eid: u32,
    pub sender: [u8; 32],
    pub nonce: u64,
    pub guid: [u8; 32],
    pub message: Vec<u8>,
}

/// The mathematical content of `ClearParams`.
pub struct ClearParamsView {
    pub receiver: Address,
    pub src_eid: u32,
    pub sender: [u8; 32],
    pub nonce: u64,
    pub guid: [u8; 32],
    pub message: Seq<u8>,
}

impl View for ClearParams {
    type V = ClearParamsView;

    open spec fn view(&self) -> ClearParamsView {
        ClearParamsView {
            receiver: self.receiver,
            src_eid: self.src_eid,
            sender: self.sender,
            nonce: self.nonce,
            guid: self.guid,
            message: self.message@,
        }
    }
}

/// The clearing request for a message delivered to `receiver`.
pub open spec fn clear_params_for(receiver: Address, params: LzReceiveParams) -> ClearParamsView {
    ClearParamsView {
        receiver,
        src_eid: params.src_eid,
        sender: params.sender,
        nonce: params.nonce,
        guid: params.guid,
        message: params.message@,
    }
}

/// Copies a byte string.
pub fn copy_bytes(bytes: &Vec<u8>) -> (copy: Vec<u8>)
    ensures
        copy@ == bytes@,
{
    let mut copy: Vec<u8> = Vec::new();
    copy.extend_from_slice(bytes.as_slice());
    copy
}

/// Builds the clearing request for a message delivered to `receiver`.
pub fn clear_params(receiver: Address, params: &LzReceiveParams) -> (clear: ClearParams)
    ensures
        clear@ == clear_params_for(receiver, *params),
{
    ClearParams {
        receiver,
        src_eid: params.src_eid,
        sender: params.sender,
        nonce: params.nonce,
        guid: params.guid,
        message: copy_bytes(&params.message),
    }
}

/// What the endpoint is to clear, with how many of the accounts supplied,
/// counted from the first, and under which signer seeds.
#[derive(Clone, Debug, PartialEq, Eq)]
pub struct ClearRequest {
    pub params: ClearParams,
    pub accounts: usize,
    pub signer_seeds: Vec<Vec<u8>>,
}

/// What registering with the endpoint takes.
#[derive(Clone, Copy, Debug, PartialEq, Eq)]
pub struct RegisterOAppParams {
    pub delegate: Address,
}

/// The registration to make at the endpoint on behalf of `oapp`.
#[derive(Clone, Debug, PartialEq, Eq)]
pub struct Registration {
    pub oapp: Address,
    pub params: RegisterOAppParams,
    pub signer_seeds: Vec<Vec<u8>>,
}

/// The mathematical contents of a list of instructions.
pub open spec fn instruction_views(instructions: Seq<Instruction>) -> Seq<InstructionView> {
    Seq::new(instructions.len(), |i: int| instructions[i]@)
}

} // verus!
