//! The payload formats that share one transport.
//!
//! Three formats coexist. The text format keeps the layout of an ABI-encoded
//! string: twenty-eight reserved bytes, a four-byte big-endian length, then
//! the UTF-8 bytes. The opcode format is one opcode byte and an eight-byte
//! little-endian argument. The deposit format is an eight-byte little-endian
//! amount, then optionally the twenty-byte address the funds came from and a
//! thirty-two-byte correlation identifier.
//!
//! No format carries a tag. An inbound counter message is read as an opcode
//! when it is long enough and starts with a known opcode, and as text
//! otherwise; deposits travel on a path of their own.

use crate::errors::MyOAppError;
use crate::wire::{get_u32_be, get_u64_le, put_u32_be, put_u64_le, u32_be, u32_from_be, u64_from_le,
    u64_le, lemma_u32_be_round_trip, lemma_u64_le_round_trip};
use vstd::prelude::*;
use vstd::utf8::{decode_utf8, encode_utf8, encode_utf8_decode_utf8, encode_utf8_valid_utf8,
    valid_utf8};

verus! {

/// Why a payload could not be decoded.
#[derive(Clone, Copy, Debug, PartialEq, Eq, Structural)]
pub enum MsgCodecError {
    /// Fewer bytes than the fixed part of the format.
    InvalidLength,
    /// The declared length reaches past the end of the payload.
    BodyTooShort,
    /// The text is not UTF-8.
    InvalidUtf8,
}

/// Where the text starts in the text format.
pub const STRING_OFFSET: usize = 32;

/// The reserved bytes ahead of the length in the text format.
pub const RESERVED_LEN: usize = 28;

/// The reserved bytes of the text format as written: all zero.
pub open spec fn reserved() -> Seq<u8> {
    Seq::new(28, |i: int| 0u8)
}

/// Whether a text fits the text format: the length of its UTF-8 encoding
/// can be written in four bytes.
pub open spec fn fits_text_format(text: Seq<char>) -> bool {
    encode_utf8(text).len() <= u32::MAX
}

/// The text format's bytes for a text that fits it: the reserved bytes, the
/// length of its UTF-8 encoding in four big-endian bytes, and the encoding
/// itself.
pub open spec fn string_encoding(text: Seq<char>) -> Seq<u8>
    recommends
        fits_text_format(text),
{
    let body = encode_utf8(text);
    reserved() + u32_be(body.len() as u32) + body
}

/// What the text format's decoder makes of a payload.
///
/// The reserved bytes are not looked at, and bytes after the declared length
/// are ignored.
pub open spec fn string_decoding(message: Seq<u8>) -> Result<Seq<char>, MsgCodecError> {
    if message.len() < 32 {
        Err(MsgCodecError::InvalidLength)
    } else {
        let len = u32_from_be(message.subrange(28, 32));
        if 32 + len > message.len() {
            Err(MsgCodecError::BodyTooShort)
        } else if !valid_utf8(message.subrange(32, 32 + len)) {
            Err(MsgCodecError::InvalidUtf8)
        } else {
            Ok(decode_utf8(message.subrange(32, 32 + len)))
        }
    }
}

/// Calls `core::str::from_utf8`.
///
/// It returns the text exactly when the bytes are well-formed UTF-8, and the
/// text it returns is the one those bytes encode.
#[verifier::external_body]
fn str_from_utf8(bytes: &[u8]) -> (text: Option<&str>)
    ensures
        text is Some <==> valid_utf8(bytes@),
        text matches Some(t) ==> t@ == decode_utf8(bytes@),
{
    core::str::from_utf8(bytes).ok()
}

/// Whether a text fits the text format.
pub fn fits_text(string: &str) -> (fits: bool)
    ensures
        fits == fits_text_format(string@),
{
    string.as_bytes().len() as u64 <= 0xffff_ffff
}

/// Encodes a text in the text format.
///
/// The text must fit the format: a longer one has no encoding that decodes
/// back to it.
pub fn encode_string(string: &str) -> (msg: Vec<u8>)
    requires
        fits_text_format(string@),
    ensures
        msg@ == string_encoding(string@),
{
    let string_bytes = string.as_bytes();
    let mut msg: Vec<u8> = Vec::new();
    let mut i: usize = 0;
    while i < RESERVED_LEN
        invariant
            i <= RESERVED_LEN,
            msg@ == Seq::new(i as nat, |j: int| 0u8),
        decreases RESERVED_LEN - i,
    {
        msg.push(0u8);
        i += 1;
        assert(msg@ =~= Seq::new(i as nat, |j: int| 0u8));
    }
    let len: u32 = string_bytes.len() as u32;
    put_u32_be(&mut msg, len);
    msg.extend_from_slice(string_bytes);
    msg
}

/// Encodes a text for the outbound path. The same as `encode_string`.
pub fn encode(s: &str) -> (msg: Vec<u8>)
    requires
        fits_text_format(s@),
    ensures
        msg@ == string_encoding(s@),
{
    encode_string(s)
}

/// Decodes a payload in the text format.
pub fn decode_string(message: &[u8]) -> (decoded: Result<String, MsgCodecError>)
    ensures
        match decoded {
            Ok(text) => string_decoding(message@) == Ok::<Seq<char>, MsgCodecError>(text@),
            Err(e) => string_decoding(message@) == Err::<Seq<char>, MsgCodecError>(e),
        },
{
    if message.len() < STRING_OFFSET {
        return Err(MsgCodecError::InvalidLength);
    }
    let len: u32 = get_u32_be(message, RESERVED_LEN);
    if STRING_OFFSET as u64 + len as u64 > message.len() as u64 {
        return Err(MsgCodecError::BodyTooShort);
    }
    let end: usize = STRING_OFFSET + len as usize;
    let body = vstd::slice::slice_subrange(message, STRING_OFFSET, end);
    match str_from_utf8(body) {
        Some(text) => Ok(text.to_owned()),
        None => Err(MsgCodecError::InvalidUtf8),
    }
}

/// Decoding undoes encoding in the text format, for every text that fits
/// the format.
pub proof fn law_string_round_trip(text: Seq<char>)
    requires
        fits_text_format(text),
    ensures
        string_decoding(string_encoding(text)) == Ok::<Seq<char>, MsgCodecError>(text),
{
    let body = encode_utf8(text);
    let len = body.len() as u32;
    let message = string_encoding(text);
    lemma_u32_be_round_trip(len);
    assert(message.subrange(28, 32) =~= u32_be(len));
    assert(message.subrange(32, 32 + len) =~= body);
    encode_utf8_valid_utf8(text);
    encode_utf8_decode_utf8(text);
}

/// The opcode that asks for the counter to be raised.
pub const OPCODE_INCREMENT: u8 = 1;

/// The opcode that acknowledges a counter value.
pub const OPCODE_ACK: u8 = 2;

/// The length of the opcode format: one opcode byte and eight argument bytes.
pub const OPCODE_LEN: usize = 9;

/// The opcode format's bytes for an opcode and its argument.
pub open spec fn opcode_encoding(opcode: u8, argument: u64) -> Seq<u8> {
    seq![opcode] + u64_le(argument)
}

/// What the opcode format's decoder makes of a payload: the opcode byte and
/// the argument, whatever the opcode is. Bytes after the ninth are ignored.
pub open spec fn opcode_decoding(message: Seq<u8>) -> Result<(u8, u64), MsgCodecError> {
    if message.len() < 9 {
        Err(MsgCodecError::InvalidLength)
    } else {
        Ok((message[0], u64_from_le(message.subrange(1, 9)) as u64))
    }
}

/// Encodes an opcode and its argument.
pub fn encode_opcode(opcode: u8, argument: u64) -> (msg: Vec<u8>)
    ensures
        msg@ == opcode_encoding(opcode, argument),
{
    let mut msg: Vec<u8> = Vec::new();
    msg.push(opcode);
    put_u64_le(&mut msg, argument);
    msg
}

/// Encodes the acknowledgement of a counter value.
pub fn encode_ack(counter: u64) -> (msg: Vec<u8>)
    ensures
        msg@ == opcode_encoding(OPCODE_ACK, counter),
{
    encode_opcode(OPCODE_ACK, counter)
}

/// Decodes a payload in the opcode format.
pub fn decode_opcode(message: &[u8]) -> (decoded: Result<(u8, u64), MsgCodecError>)
    ensures
        decoded == opcode_decoding(message@),
{
    if message.len() < OPCODE_LEN {
        return Err(MsgCodecError::InvalidLength);
    }
    let argument = get_u64_le(message, 1);
    proof {
        crate::wire::lemma_u64_from_le_round_trip(message@.subrange(1, 9));
    }
    Ok((message[0], argument))
}

/// A decoded counter message.
#[derive(Clone, Debug, PartialEq, Eq)]
pub enum DecodedMessage {
    /// A text to store.
    Text(String),
    /// A request to raise the counter by the amount; zero stands for one.
    Increment(u64),
    /// The acknowledgement of a counter value. It changes nothing here.
    Ack(u64),
}

/// The mathematical content of a `DecodedMessage`.
pub enum DecodedMessageView {
    Text(Seq<char>),
    Increment(u64),
    Ack(u64),
}

impl View for DecodedMessage {
    type V = DecodedMessageView;

    open spec fn view(&self) -> DecodedMessageView {
        match *self {
            DecodedMessage::Text(text) => DecodedMessageView::Text(text@),
            DecodedMessage::Increment(amount) => DecodedMessageView::Increment(amount),
            DecodedMessage::Ack(counter) => DecodedMessageView::Ack(counter),
        }
    }
}

/// Whether a payload is read as an opcode: it is long enough for the opcode
/// format and starts with a known opcode.
pub open spec fn reads_as_opcode(message: Seq<u8>) -> bool {
    message.len() >= 9 && (message[0] == OPCODE_INCREMENT || message[0] == OPCODE_ACK)
}

/// What a counter message decodes to: an opcode where the payload reads as
/// one, and otherwise whatever the text format makes of it.
pub open spec fn message_decoding(message: Seq<u8>) -> Result<DecodedMessageView, MsgCodecError> {
    if reads_as_opcode(message) {
        let argument = u64_from_le(message.subrange(1, 9)) as u64;
        if message[0] == OPCODE_INCREMENT {
            Ok(DecodedMessageView::Increment(argument))
        } else {
            Ok(DecodedMessageView::Ack(argument))
        }
    } else {
        match string_decoding(message) {
            Ok(text) => Ok(DecodedMessageView::Text(text)),
            Err(e) => Err(e),
        }
    }
}

/// Whether a decoded counter message has an encoding: a text must fit the
/// text format.
pub open spec fn fits_message_format(decoded: DecodedMessageView) -> bool {
    decoded matches DecodedMessageView::Text(text) ==> fits_text_format(text)
}

/// The bytes that stand for a decoded counter message that has an encoding.
pub open spec fn message_encoding(decoded: DecodedMessageView) -> Seq<u8>
    recommends
        fits_message_format(decoded),
{
    match decoded {
        DecodedMessageView::Text(text) => string_encoding(text),
        DecodedMessageView::Increment(amount) => opcode_encoding(OPCODE_INCREMENT, amount),
        DecodedMessageView::Ack(counter) => opcode_encoding(OPCODE_ACK, counter),
    }
}

/// Decodes a counter message: the opcode format is tried first, the text
/// format where the payload does not read as an opcode.
pub fn decode_message(message: &[u8]) -> (decoded: Result<DecodedMessage, MsgCodecError>)
    ensures
        match decoded {
            Ok(m) => message_decoding(message@) == Ok::<DecodedMessageView, MsgCodecError>(m@),
            Err(e) => message_decoding(message@) == Err::<DecodedMessageView, MsgCodecError>(e),
        },
{
    if message.len() >= OPCODE_LEN {
        match decode_opcode(message) {
            Ok((opcode, argument)) => {
                if opcode == OPCODE_INCREMENT {
                    return Ok(DecodedMessage::Increment(argument));
                }
                if opcode == OPCODE_ACK {
                    return Ok(DecodedMessage::Ack(argument));
                }
            },
            Err(_) => {},
        }
    }
    match decode_string(message) {
        Ok(text) => Ok(DecodedMessage::Text(text)),
        Err(e) => Err(e),
    }
}

/// Encodes a decoded counter message. A text must fit the text format.
pub fn encode_message(decoded: &DecodedMessage) -> (msg: Vec<u8>)
    requires
        fits_message_format(decoded@),
    ensures
        msg@ == message_encoding(decoded@),
{
    match decoded {
        DecodedMessage::Text(text) => encode_string(text.as_str()),
        DecodedMessage::Increment(amount) => encode_opcode(OPCODE_INCREMENT, *amount),
        DecodedMessage::Ack(counter) => encode_opcode(OPCODE_ACK, *counter),
    }
}

/// Decoding undoes encoding in the opcode format, for every opcode and
/// argument.
pub proof fn law_opcode_round_trip(opcode: u8, argument: u64)
    ensures
        opcode_decoding(opcode_encoding(opcode, argument)) == Ok::<(u8, u64), MsgCodecError>(
            (opcode, argument),
        ),
{
    let message = opcode_encoding(opcode, argument);
    lemma_u64_le_round_trip(argument);
    assert(message.subrange(1, 9) =~= u64_le(argument));
}

/// An acknowledgement decodes to the counter value it was made from.
pub proof fn law_ack_round_trip(counter: u64)
    ensures
        message_decoding(opcode_encoding(OPCODE_ACK, counter)) == Ok::<
            DecodedMessageView,
            MsgCodecError,
        >(DecodedMessageView::Ack(counter)),
{
    law_opcode_round_trip(OPCODE_ACK, counter);
}

/// A counter message that has an encoding decodes to what it was encoded
/// from, whichever format it uses.
pub proof fn law_message_round_trip(decoded: DecodedMessageView)
    requires
        fits_message_format(decoded),
    ensures
        message_decoding(message_encoding(decoded)) == Ok::<DecodedMessageView, MsgCodecError>(
            decoded,
        ),
{
    match decoded {
        DecodedMessageView::Text(text) => {
            law_string_round_trip(text);
            assert(string_encoding(text)[0] == 0u8);
        },
        DecodedMessageView::Increment(amount) => {
            law_opcode_round_trip(OPCODE_INCREMENT, amount);
        },
        DecodedMessageView::Ack(counter) => {
            law_opcode_round_trip(OPCODE_ACK, counter);
        },
    }
}

/// The address of an account on the remote chain.
pub type EvmAddress = [u8; 20];

/// The length of a deposit that carries only the amount.
pub const DEPOSIT_MIN_LEN: usize = 8;

/// The length of a deposit that carries the amount and the address the funds
/// came from.
pub const DEPOSIT_ADDRESS_LEN: usize = 28;

/// The length of a deposit that also carries a correlation identifier.
pub const DEPOSIT_FULL_LEN: usize = 60;

/// A decoded deposit.
#[derive(Clone, Copy, Debug, PartialEq, Eq)]
pub struct DepositMessage {
    /// The amount deposited, in base units.
    pub amount: u64,
    /// The address on the remote chain that the funds came from, where the
    /// payload is long enough to hold one.
    pub evm_address: Option<EvmAddress>,
    /// The correlation identifier, where the payload is long enough to hold one.
    pub correlation_id: Option<[u8; 32]>,
}

/// The amount that a deposit of at least eight bytes carries.
pub open spec fn amount_of(message: Seq<u8>) -> u64 {
    u64_from_le(message.subrange(0, 8)) as u64
}

/// The address that a deposit of at least twenty-eight bytes carries.
pub open spec fn evm_address_of(message: Seq<u8>) -> EvmAddress {
    choose|address: EvmAddress| address@ == message.subrange(8, 28)
}

/// Whether `deposit` is what the deposit format's decoder makes of a payload
/// of at least eight bytes: the amount from bytes 0 to 8, the address from
/// bytes 8 to 28 and the correlation identifier from bytes 28 to 60, each
/// optional field present exactly when the payload reaches its end.
pub open spec fn is_deposit_of(message: Seq<u8>, deposit: DepositMessage) -> bool {
    &&& message.len() >= 8
    &&& deposit.amount == u64_from_le(message.subrange(0, 8))
    &&& deposit.evm_address is Some <==> message.len() >= 28
    &&& deposit.evm_address matches Some(address) ==> address@ == message.subrange(8, 28)
    &&& deposit.correlation_id is Some <==> message.len() >= 60
    &&& deposit.correlation_id matches Some(id) ==> id@ == message.subrange(28, 60)
}

/// The deposit format's bytes for a deposit. A correlation identifier is
/// written only behind an address.
pub open spec fn deposit_encoding(deposit: DepositMessage) -> Seq<u8> {
    let amount = u64_le(deposit.amount);
    match deposit.evm_address {
        None => amount,
        Some(address) => match deposit.correlation_id {
            None => amount + address@,
            Some(id) => amount + address@ + id@,
        },
    }
}

/// Copies the twenty bytes of `bytes` from `at` on.
fn copy_20(bytes: &[u8], at: usize) -> (out: [u8; 20])
    requires
        at + 20 <= bytes.len(),
    ensures
        out@ == bytes@.subrange(at as int, at + 20),
{
    let mut out: [u8; 20] = [0u8; 20];
    let mut i: usize = 0;
    while i < 20
        invariant
            i <= 20,
            at + 20 <= bytes.len(),
            forall|j: int| 0 <= j < i ==> out[j] == bytes[at + j],
        decreases 20 - i,
    {
        out[i] = bytes[at + i];
        i += 1;
    }
    assert(out@ =~= bytes@.subrange(at as int, at + 20));
    out
}

/// Copies the thirty-two bytes of `bytes` from `at` on.
fn copy_32(bytes: &[u8], at: usize) -> (out: [u8; 32])
    requires
        at + 32 <= bytes.len(),
    ensures
        out@ == bytes@.subrange(at as int, at + 32),
{
    let mut out: [u8; 32] = [0u8; 32];
    let mut i: usize = 0;
    while i < 32
        invariant
            i <= 32,
            at + 32 <= bytes.len(),
            forall|j: int| 0 <= j < i ==> out[j] == bytes[at + j],
        decreases 32 - i,
    {
        out[i] = bytes[at + i];
        i += 1;
    }
    assert(out@ =~= bytes@.subrange(at as int, at + 32));
    out
}

/// Decodes a payload in the deposit format.
///
/// Fails with `InvalidMessageType` exactly when the payload has fewer than
/// eight bytes.
pub fn decode_deposit(message: &[u8]) -> (decoded: Result<DepositMessage, MyOAppError>)
    ensures
        decoded is Ok <==> message@.len() >= 8,
        decoded matches Ok(deposit) ==> is_deposit_of(message@, deposit),
        decoded matches Err(e) ==> e == MyOAppError::InvalidMessageType,
{
    if message.len() < DEPOSIT_MIN_LEN {
        return Err(MyOAppError::InvalidMessageType);
    }
    let amount = get_u64_le(message, 0);
    proof {
        crate::wire::lemma_u64_from_le_round_trip(message@.subrange(0, 8));
    }
    let evm_address = if message.len() >= DEPOSIT_ADDRESS_LEN {
        Some(copy_20(message, 8))
    } else {
        None
    };
    let correlation_id = if message.len() >= DEPOSIT_FULL_LEN {
        Some(copy_32(message, 28))
    } else {
        None
    };
    Ok(DepositMessage { amount, evm_address, correlation_id })
}

/// Reads the address the funds came from out of a deposit.
///
/// Fails with `InvalidMessageType` exactly when the payload has fewer than
/// twenty-eight bytes.
pub fn parse_evm_address(message: &[u8]) -> (parsed: Result<EvmAddress, MyOAppError>)
    ensures
        parsed is Ok <==> message@.len() >= 28,
        parsed matches Ok(address) ==> address@ == message@.subrange(8, 28) && address
            == evm_address_of(message@),
        parsed matches Err(e) ==> e == MyOAppError::InvalidMessageType,
{
    if message.len() < DEPOSIT_ADDRESS_LEN {
        return Err(MyOAppError::InvalidMessageType);
    }
    let address = copy_20(message, 8);
    assert(address =~= evm_address_of(message@));
    Ok(address)
}

/// Reads the amount out of a deposit of at least eight bytes.
pub fn parse_amount(message: &[u8]) -> (amount: u64)
    requires
        message@.len() >= 8,
    ensures
        amount == amount_of(message@),
{
    proof {
        crate::wire::lemma_u64_from_le_round_trip(message@.subrange(0, 8));
    }
    get_u64_le(message, 0)
}

/// Whether two remote addresses are the same.
pub fn evm_address_eq(a: &EvmAddress, b: &EvmAddress) -> (same: bool)
    ensures
        same == (*a == *b),
{
    let mut i: usize = 0;
    while i < 20
        invariant
            i <= 20,
            forall|j: int| 0 <= j < i ==> a[j] == b[j],
        decreases 20 - i,
    {
        if a[i] != b[i] {
            return false;
        }
        i += 1;
    }
    assert(*a =~= *b);
    true
}

/// Encodes a deposit.
pub fn encode_deposit(deposit: &DepositMessage) -> (msg: Vec<u8>)
    ensures
        msg@ == deposit_encoding(*deposit),
{
    let mut msg: Vec<u8> = Vec::new();
    put_u64_le(&mut msg, deposit.amount);
    match &deposit.evm_address {
        None => {},
        Some(address) => {
            msg.extend_from_slice(address.as_slice());
            match &deposit.correlation_id {
                None => {},
                Some(id) => {
                    msg.extend_from_slice(id.as_slice());
                },
            }
        },
    }
    msg
}

/// Decoding undoes encoding in the deposit format, for every deposit that
/// has an address wherever it has a correlation identifier.
pub proof fn law_deposit_round_trip(deposit: DepositMessage)
    requires
        deposit.correlation_id is Some ==> deposit.evm_address is Some,
    ensures
        is_deposit_of(deposit_encoding(deposit), deposit),
{
    let message = deposit_encoding(deposit);
    lemma_u64_le_round_trip(deposit.amount);
    assert(message.subrange(0, 8) =~= u64_le(deposit.amount));
    match deposit.evm_address {
        None => {},
        Some(address) => {
            assert(message.subrange(8, 28) =~= address@);
            match deposit.correlation_id {
                None => {},
                Some(id) => {
                    assert(message.subrange(28, 60) =~= id@);
                },
            }
        },
    }
}

} // verus!
