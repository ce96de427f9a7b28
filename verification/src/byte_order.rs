//! 32-bit words as four bytes, in either byte order.
//!
//! The wire format carries every word in the byte order of the machine that
//! runs the compositor, so the order is a value here and the rest of the
//! library is written once for both.

use vstd::prelude::*;

verus! {

/// The order in which the four bytes of a word stand on the wire.
#[derive(Clone, Copy, Debug, PartialEq, Eq, Structural)]
pub enum ByteOrder {
    /// Least significant byte first.
    LittleEndian,
    /// Most significant byte first.
    BigEndian,
}

/// Number of bytes in one word.
pub const WORD_LEN: usize = 4;

/// The word whose bytes are `b0` (least significant) to `b3` (most significant).
pub open spec fn word_of(b0: u8, b1: u8, b2: u8, b3: u8) -> u32 {
    (b0 + b1 * 0x100 + b2 * 0x1_0000 + b3 * 0x100_0000) as u32
}

/// Byte `i` of `x`, counted from the least significant one.
pub open spec fn byte_of(x: u32, i: int) -> u8 {
    if i == 0 {
        (x % 0x100) as u8
    } else if i == 1 {
        (x / 0x100 % 0x100) as u8
    } else if i == 2 {
        (x / 0x1_0000 % 0x100) as u8
    } else {
        (x / 0x100_0000 % 0x100) as u8
    }
}

/// `byte_of` takes a word apart into the bytes that `word_of` put together.
pub proof fn lemma_bytes_of_word(b0: u8, b1: u8, b2: u8, b3: u8)
    ensures
        byte_of(word_of(b0, b1, b2, b3), 0) == b0,
        byte_of(word_of(b0, b1, b2, b3), 1) == b1,
        byte_of(word_of(b0, b1, b2, b3), 2) == b2,
        byte_of(word_of(b0, b1, b2, b3), 3) == b3,
{
    let hi1: int = b1 + b2 * 0x100 + b3 * 0x1_0000;
    let hi2: int = b2 + b3 * 0x100;
    let x: int = b0 + hi1 * 0x100;
    assert(word_of(b0, b1, b2, b3) == x);
    assert(x / 0x100 == hi1 && x % 0x100 == b0);
    assert(hi1 == b1 + hi2 * 0x100);
    assert(hi1 / 0x100 == hi2 && hi1 % 0x100 == b1);
    assert(hi2 / 0x100 == b3 && hi2 % 0x100 == b2);
    assert(x / 0x1_0000 == hi2);
    assert(x / 0x100_0000 == b3);
}

/// `word_of` puts a word together from the bytes that `byte_of` took apart.
pub proof fn lemma_word_of_bytes(x: u32)
    ensures
        word_of(byte_of(x, 0), byte_of(x, 1), byte_of(x, 2), byte_of(x, 3)) == x,
{
}

/// `u32::to_ne_bytes`: the four bytes of `x` as this machine keeps them in
/// memory. Which of the two orders that is depends on the machine, so the
/// contract only says that it is one of them.
#[verifier::external_body]
fn native_bytes(x: u32) -> (b: [u8; 4])
    ensures
        b@ == ByteOrder::LittleEndian.word_bytes(x) || b@ == ByteOrder::BigEndian.word_bytes(x),
{
    x.to_ne_bytes()
}

impl ByteOrder {
    /// The four bytes that stand for `x`.
    pub open spec fn word_bytes(self, x: u32) -> Seq<u8> {
        match self {
            ByteOrder::LittleEndian => seq![byte_of(x, 0), byte_of(x, 1), byte_of(x, 2), byte_of(x, 3)],
            ByteOrder::BigEndian => seq![byte_of(x, 3), byte_of(x, 2), byte_of(x, 1), byte_of(x, 0)],
        }
    }

    /// The word that the first four bytes of `b` stand for.
    pub open spec fn word_at(self, b: Seq<u8>) -> u32
        recommends
            b.len() >= 4,
    {
        match self {
            ByteOrder::LittleEndian => word_of(b[0], b[1], b[2], b[3]),
            ByteOrder::BigEndian => word_of(b[3], b[2], b[1], b[0]),
        }
    }

    /// Decoding what `word_bytes` wrote gives the word back.
    pub proof fn lemma_word_round_trip(self, x: u32)
        ensures
            self.word_bytes(x).len() == 4,
            self.word_at(self.word_bytes(x)) == x,
    {
        lemma_word_of_bytes(x);
    }

    /// Encoding what `word_at` read gives the four bytes back.
    pub proof fn lemma_bytes_round_trip(self, b: Seq<u8>)
        requires
            b.len() == 4,
        ensures
            self.word_bytes(self.word_at(b)) == b,
    {
        lemma_bytes_of_word(b[0], b[1], b[2], b[3]);
        lemma_bytes_of_word(b[3], b[2], b[1], b[0]);
        assert(self.word_bytes(self.word_at(b)) =~= b);
    }

    /// The order under which `probe` stands for the word 1, or `None` where
    /// it does so under neither.
    pub fn detect(probe: &[u8; 4]) -> (order: Option<ByteOrder>)
        ensures
            match order {
                Some(o) => probe@ == o.word_bytes(1),
                None => forall|o: ByteOrder| probe@ != o.word_bytes(1),
            },
    {
        if probe[0] == 1 && probe[1] == 0 && probe[2] == 0 && probe[3] == 0 {
            assert(probe@ =~= ByteOrder::LittleEndian.word_bytes(1));
            Some(ByteOrder::LittleEndian)
        } else if probe[0] == 0 && probe[1] == 0 && probe[2] == 0 && probe[3] == 1 {
            assert(probe@ =~= ByteOrder::BigEndian.word_bytes(1));
            Some(ByteOrder::BigEndian)
        } else {
            None
        }
    }

    /// The byte order of the machine this runs on: it asks the machine for the
    /// bytes of the word 1 and hands them to `detect`. Nothing is promised
    /// about which order comes back.
    pub fn native() -> ByteOrder {
        let probe: [u8; 4] = native_bytes(1);
        match Self::detect(&probe) {
            Some(order) => order,
            None => vstd::pervasive::unreached(),
        }
    }

    /// Reads the word that starts at index `at` of `bytes`, or `None` where
    /// fewer than four bytes follow `at`.
    pub fn read_word(self, bytes: &[u8], at: usize) -> (word: Option<u32>)
        ensures
            word == if at + 4 <= bytes@.len() {
                Some(self.word_at(bytes@.subrange(at as int, at + 4)))
            } else {
                None
            },
    {
        if bytes.len() < WORD_LEN || at > bytes.len() - WORD_LEN {
            return None;
        }
        let a: u32 = bytes[at] as u32;
        let b: u32 = bytes[at + 1] as u32;
        let c: u32 = bytes[at + 2] as u32;
        let d: u32 = bytes[at + 3] as u32;
        let word: u32 = match self {
            ByteOrder::LittleEndian => a + b * 0x100 + c * 0x1_0000 + d * 0x100_0000,
            ByteOrder::BigEndian => d + c * 0x100 + b * 0x1_0000 + a * 0x100_0000,
        };
        Some(word)
    }

    /// Appends the four bytes of `x` to `out`.
    pub fn write_word(self, x: u32, out: &mut Vec<u8>)
        ensures
            final(out)@ == old(out)@ + self.word_bytes(x),
    {
        let b0: u8 = (x % 0x100) as u8;
        let b1: u8 = (x / 0x100 % 0x100) as u8;
        let b2: u8 = (x / 0x1_0000 % 0x100) as u8;
        let b3: u8 = (x / 0x100_0000 % 0x100) as u8;
        match self {
            ByteOrder::LittleEndian => {
                out.push(b0);
                out.push(b1);
                out.push(b2);
                out.push(b3);
            },
            ByteOrder::BigEndian => {
                out.push(b3);
                out.push(b2);
                out.push(b1);
                out.push(b0);
            },
        }
        assert(out@ =~= old(out)@ + self.word_bytes(x));
    }
}

} // verus!
