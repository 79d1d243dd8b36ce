//! Byte orders of the numbers in a swap header.

use vstd::prelude::*;

verus! {

/// The byte order in which the numbers of a swap area are stored.
#[derive(Clone, Copy, Debug, PartialEq, Eq, Structural)]
pub enum Endian {
    /// The byte order of the machine that runs the program.
    Native,
    /// Least significant byte first.
    Little,
    /// Most significant byte first.
    Big,
}

/// The four bytes of `x`, least significant first.
pub open spec fn le_bytes(x: u32) -> Seq<u8> {
    seq![
        (x % 0x100) as u8,
        (x / 0x100 % 0x100) as u8,
        (x / 0x1_0000 % 0x100) as u8,
        (x / 0x100_0000) as u8,
    ]
}

/// The four bytes of `x`, most significant first.
pub open spec fn be_bytes(x: u32) -> Seq<u8> {
    seq![
        (x / 0x100_0000) as u8,
        (x / 0x1_0000 % 0x100) as u8,
        (x / 0x100 % 0x100) as u8,
        (x % 0x100) as u8,
    ]
}

/// The four bytes of `x` as the machine keeps them in memory.
pub open spec fn ne_bytes(x: u32) -> Seq<u8> {
    match vstd::endian::endianness() {
        vstd::endian::Endian::Little => le_bytes(x),
        vstd::endian::Endian::Big => be_bytes(x),
    }
}

/// `x` with its four bytes in reverse order.
pub open spec fn swap_bytes(x: u32) -> u32 {
    (x % 0x100 * 0x100_0000 + x / 0x100 % 0x100 * 0x1_0000 + x / 0x1_0000 % 0x100 * 0x100 + x
        / 0x100_0000) as u32
}

/// `u32::to_le` of std: nothing changes on a little-endian machine, the bytes are
/// swapped on a big-endian one.
pub assume_specification[ u32::to_le ](x: u32) -> (r: u32)
    ensures
        r == match vstd::endian::endianness() {
            vstd::endian::Endian::Little => x,
            vstd::endian::Endian::Big => swap_bytes(x),
        },
;

/// `u32::to_be` of std: nothing changes on a big-endian machine, the bytes are
/// swapped on a little-endian one.
pub assume_specification[ u32::to_be ](x: u32) -> (r: u32)
    ensures
        r == match vstd::endian::endianness() {
            vstd::endian::Endian::Little => swap_bytes(x),
            vstd::endian::Endian::Big => x,
        },
;

/// `u32::to_ne_bytes` of std: the bytes of `x` in the machine's byte order.
#[verifier::external_body]
pub(crate) fn native_bytes(x: u32) -> (r: [u8; 4])
    ensures
        r@ == ne_bytes(x),
{
    x.to_ne_bytes()
}

impl Endian {
    /// The number whose native memory representation is `value` in this byte order.
    pub open spec fn converted(self, value: u32) -> u32 {
        match (self, vstd::endian::endianness()) {
            (Endian::Native, _) => value,
            (Endian::Little, vstd::endian::Endian::Little) => value,
            (Endian::Big, vstd::endian::Endian::Big) => value,
            _ => swap_bytes(value),
        }
    }

    /// The bytes that stand for `value` in this byte order.
    pub open spec fn bytes(self, value: u32) -> Seq<u8> {
        match self {
            Endian::Native => ne_bytes(value),
            Endian::Little => le_bytes(value),
            Endian::Big => be_bytes(value),
        }
    }

    /// Converts a native-endian value to this endianness.
    pub fn convert(&self, value: u32) -> (r: u32)
        ensures
            r == self.converted(value),
            ne_bytes(r) == self.bytes(value),
    {
        proof {
            lemma_converted(*self, value);
        }
        match self {
            Endian::Native => value,
            Endian::Little => value.to_le(),
            Endian::Big => value.to_be(),
        }
    }
}

/// Swapping the bytes of a number turns one byte order into the other, and swapping
/// them twice changes nothing.
pub proof fn lemma_swap_bytes(x: u32)
    ensures
        le_bytes(swap_bytes(x)) == be_bytes(x),
        be_bytes(swap_bytes(x)) == le_bytes(x),
        swap_bytes(swap_bytes(x)) == x,
{
}

/// A converted number, kept in memory as the machine keeps its numbers, has the bytes of the
/// byte order it was converted to; converting it once more gives the number back.
pub proof fn lemma_converted(endianness: Endian, value: u32)
    ensures
        ne_bytes(endianness.converted(value)) == endianness.bytes(value),
        endianness.converted(endianness.converted(value)) == value,
{
    lemma_swap_bytes(value);
}

} // verus!
