//! Framing of wire messages: an 8-byte header, then a body.
//!
//! The header is two words: the id of the object the message is for, and a
//! word whose high 16 bits give the length of the whole message in bytes and
//! whose low 16 bits give the opcode.

use crate::byte_order::ByteOrder;
use crate::error::ConnectionError;
use vstd::prelude::*;
use vstd::string::StringSliceAdditionalSpecFns;

verus! {

/// Number of bytes in a message header.
pub const HEADER_LEN: usize = 8;

/// Largest length that the 16-bit size field of a header can announce.
pub const MAX_MESSAGE_LEN: usize = 0xFFFF;

/// Longest string, in bytes, that fits a `global` event next to the header and
/// the two words around it.
pub const MAX_INTERFACE_LEN: usize = 65515;

/// A decoded message header.
#[derive(Clone, Copy, Debug, PartialEq, Eq, Structural)]
pub struct Header {
    /// The object that the message is addressed to.
    pub object_id: u32,
    /// Length of the whole message in bytes, header included.
    pub size: u32,
    /// Which request or event of that object this is.
    pub opcode: u16,
}

/// The size that the second header word announces: its high 16 bits.
pub open spec fn size_of_word(word: u32) -> u32 {
    word / 0x1_0000
}

/// The opcode in the second header word: its low 16 bits.
pub open spec fn opcode_of_word(word: u32) -> u16 {
    (word % 0x1_0000) as u16
}

/// The second header word for a message of `size` bytes with this opcode.
pub open spec fn size_opcode_word(size: int, opcode: u16) -> u32
    recommends
        0 <= size <= 0xFFFF,
{
    (size * 0x1_0000 + opcode) as u32
}

/// The header that the first eight bytes of `bytes` hold.
pub open spec fn header_of(order: ByteOrder, bytes: Seq<u8>) -> Header
    recommends
        bytes.len() >= 8,
{
    let word = order.word_at(bytes.subrange(4, 8));
    Header {
        object_id: order.word_at(bytes.subrange(0, 4)),
        size: size_of_word(word),
        opcode: opcode_of_word(word),
    }
}

/// Length of the body that follows a header announcing `size` bytes.
pub open spec fn body_len_of(size: u32) -> Result<usize, ConnectionError> {
    if size >= 8 {
        Ok((size - 8) as usize)
    } else {
        Err(ConnectionError::SizeBelowHeader)
    }
}

/// The bytes of an event: header, then payload.
pub open spec fn event_bytes(order: ByteOrder, object_id: u32, opcode: u16, payload: Seq<u8>) -> Seq<u8> {
    order.word_bytes(object_id) + order.word_bytes(size_opcode_word(8 + payload.len() as int, opcode))
        + payload
}

/// Length of a string on the wire: its bytes and a terminating zero, rounded
/// up to a multiple of four.
pub open spec fn padded_len(n: nat) -> nat {
    ((n + 1 + 3) / 4 * 4) as nat
}

/// A string on the wire: its bytes, then zeros up to `padded_len`.
pub open spec fn padded(s: Seq<u8>) -> Seq<u8> {
    s + Seq::new((padded_len(s.len()) - s.len()) as nat, |i: int| 0u8)
}

/// Splits an 8-byte header into object id, size and opcode. Nothing is
/// checked: a size under 8 comes back as it is.
pub fn decode_header(order: ByteOrder, bytes: &[u8; 8]) -> (header: Header)
    ensures
        header == header_of(order, bytes@),
{
    let all: &[u8] = bytes.as_slice();
    let object_id: u32 = order.read_word(all, 0).unwrap();
    let word: u32 = order.read_word(all, 4).unwrap();
    assert(word >> 16 == word / 0x1_0000) by (bit_vector);
    assert(word & 0xFFFF == word % 0x1_0000) by (bit_vector);
    Header { object_id, size: word >> 16, opcode: (word & 0xFFFF) as u16 }
}

/// How many bytes of body follow a header that announces `size` bytes, or the
/// framing error where `size` does not even cover the header.
pub fn body_len(size: u32) -> (len: Result<usize, ConnectionError>)
    ensures
        len == body_len_of(size),
{
    if size >= 8 {
        Ok((size - 8) as usize)
    } else {
        Err(ConnectionError::SizeBelowHeader)
    }
}

/// Appends `bytes` to `out`.
fn append(out: &mut Vec<u8>, bytes: &[u8])
    ensures
        final(out)@ == old(out)@ + bytes@,
{
    let mut i: usize = 0;
    while i < bytes.len()
        invariant
            i <= bytes@.len(),
            out@ == old(out)@ + bytes@.take(i as int),
        decreases bytes@.len() - i,
    {
        out.push(bytes[i]);
        i += 1;
        assert(out@ =~= old(out)@ + bytes@.take(i as int));
    }
    assert(bytes@.take(i as int) =~= bytes@);
}

/// Frames an event for `object_id`: header, then `payload` as it is.
pub fn encode_event(order: ByteOrder, object_id: u32, opcode: u16, payload: &[u8]) -> (msg: Vec<u8>)
    requires
        payload@.len() % 4 == 0,
        HEADER_LEN + payload@.len() <= MAX_MESSAGE_LEN,
    ensures
        msg@ == event_bytes(order, object_id, opcode, payload@),
{
    let size: u32 = (HEADER_LEN + payload.len()) as u32;
    let opcode_bits: u32 = opcode as u32;
    assert((size << 16) | opcode_bits == size * 0x1_0000 + opcode_bits) by (bit_vector)
        requires
            size <= 0xFFFF,
            opcode_bits <= 0xFFFF,
    ;
    let mut msg: Vec<u8> = Vec::new();
    order.write_word(object_id, &mut msg);
    order.write_word((size << 16) | opcode_bits, &mut msg);
    append(&mut msg, payload);
    msg
}

/// Encodes `s` as a string argument: its bytes, a terminating zero, and zeros
/// up to the next multiple of four.
pub fn pad_string(s: &str) -> (out: Vec<u8>)
    ensures
        out@ == padded(s.spec_bytes()),
        out@.len() == padded_len(s.spec_bytes().len()),
{
    let bytes: &[u8] = s.as_bytes();
    let mut out: Vec<u8> = Vec::new();
    append(&mut out, bytes);
    out.push(0);
    let ghost target = padded_len(bytes@.len());
    while out.len() % 4 != 0
        invariant
            bytes@.len() < out@.len() <= target,
            target == padded_len(bytes@.len()),
            out@ == bytes@ + Seq::new((out@.len() - bytes@.len()) as nat, |i: int| 0u8),
        decreases target - out@.len(),
    {
        out.push(0);
        assert(out@ =~= bytes@ + Seq::new((out@.len() - bytes@.len()) as nat, |i: int| 0u8));
    }
    out
}

/// A padded string is the string, then between one and four zeros, and ends
/// on a multiple of four bytes.
pub proof fn lemma_padded_shape(s: Seq<u8>)
    ensures
        padded(s).len() == padded_len(s.len()),
        padded_len(s.len()) % 4 == 0,
        s.len() < padded_len(s.len()) <= s.len() + 4,
        padded(s).subrange(0, s.len() as int) == s,
        forall|i: int| s.len() <= i < padded(s).len() ==> padded(s)[i] == 0,
{
    assert(padded(s).subrange(0, s.len() as int) =~= s);
}

/// An event read back gives what was framed: the header names the object, the
/// opcode and the whole length, and the `size - 8` bytes that follow the
/// header are the payload.
pub proof fn lemma_frame_round_trip(order: ByteOrder, object_id: u32, opcode: u16, payload: Seq<u8>)
    requires
        HEADER_LEN + payload.len() <= MAX_MESSAGE_LEN,
    ensures
        ({
            let msg = event_bytes(order, object_id, opcode, payload);
            let header = header_of(order, msg.subrange(0, 8));
            &&& msg.len() == 8 + payload.len()
            &&& header.object_id == object_id
            &&& header.opcode == opcode
            &&& header.size == msg.len()
            &&& body_len_of(header.size) == Ok::<usize, ConnectionError>(payload.len() as usize)
            &&& msg.subrange(8, header.size as int) == payload
        }),
{
    let word = size_opcode_word(8 + payload.len() as int, opcode);
    let msg = event_bytes(order, object_id, opcode, payload);
    order.lemma_word_round_trip(object_id);
    order.lemma_word_round_trip(word);
    assert(msg.subrange(0, 8).subrange(0, 4) =~= order.word_bytes(object_id));
    assert(msg.subrange(0, 8).subrange(4, 8) =~= order.word_bytes(word));
    assert(msg.subrange(8, msg.len() as int) =~= payload);
}

} // verus!
