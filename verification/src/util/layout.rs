//! How the host lays out the integers of a property buffer in memory.

use vstd::prelude::*;
use vstd::slice::slice_subrange;

verus! {

/// The order in which the bytes of an integer lie in memory.
#[derive(Copy, Clone, Debug, PartialEq, Eq, Structural)]
pub enum ByteOrder {
    /// The least significant byte comes first.
    LittleEndian,
    /// The most significant byte comes first.
    BigEndian,
}

/// The size of the machine word in which Xlib hands out one item of a
/// property of format 32.
#[derive(Copy, Clone, Debug, PartialEq, Eq, Structural)]
pub enum WordSize {
    /// Four bytes, as on a 32-bit host.
    Four,
    /// Eight bytes, as on a 64-bit host.
    Eight,
}

/// The memory layout of the host that a property buffer was copied from.
#[derive(Copy, Clone, Debug, PartialEq, Eq, Structural)]
pub struct Layout {
    /// The byte order of the host.
    pub byte_order: ByteOrder,
    /// The size of the host's machine word.
    pub word_size: WordSize,
}

/// 256 to the power of `n`: the number of values that `n` bytes can hold.
pub open spec fn byte_range(n: nat) -> nat
    decreases n,
{
    if n == 0 {
        1
    } else {
        256 * byte_range((n - 1) as nat)
    }
}

/// The number that `bytes` hold when the most significant byte comes first.
pub open spec fn big_endian(bytes: Seq<u8>) -> nat
    decreases bytes.len(),
{
    if bytes.len() == 0 {
        0
    } else {
        256 * big_endian(bytes.drop_last()) + bytes.last() as nat
    }
}

/// The number that `bytes` hold when the least significant byte comes first.
pub open spec fn little_endian(bytes: Seq<u8>) -> nat
    decreases bytes.len(),
{
    if bytes.len() == 0 {
        0
    } else {
        bytes.first() as nat + 256 * little_endian(bytes.drop_first())
    }
}

/// A number written in `n` bytes is below 256 to the power of `n`, in
/// either byte order.
pub proof fn lemma_value_below_byte_range(bytes: Seq<u8>)
    ensures
        big_endian(bytes) < byte_range(bytes.len()),
        little_endian(bytes) < byte_range(bytes.len()),
    decreases bytes.len(),
{
    if bytes.len() > 0 {
        lemma_value_below_byte_range(bytes.drop_last());
        lemma_value_below_byte_range(bytes.drop_first());
    }
}

/// Eight bytes hold exactly the numbers of a `u64`, and fewer bytes hold
/// fewer numbers.
pub proof fn lemma_byte_range_fits_u64(n: nat)
    requires
        n <= 8,
    ensures
        byte_range(n) <= 0x1_0000_0000_0000_0000,
{
    reveal_with_fuel(byte_range, 9);
}

impl ByteOrder {
    /// The number that `bytes` hold in this byte order.
    pub open spec fn value(self, bytes: Seq<u8>) -> nat {
        match self {
            ByteOrder::LittleEndian => little_endian(bytes),
            ByteOrder::BigEndian => big_endian(bytes),
        }
    }

    /// Reads the unsigned integer that `bytes` hold in this byte order.
    /// At most eight bytes fit the result; a longer slice gives `None`.
    pub fn read(self, bytes: &[u8]) -> (number: Option<u64>)
        ensures
            bytes@.len() <= 8 ==> number == Some(self.value(bytes@) as u64),
            bytes@.len() <= 8 ==> self.value(bytes@) <= u64::MAX,
            bytes@.len() > 8 ==> number is None,
    {
        let n: usize = bytes.len();
        if n > 8 {
            return None;
        }
        let mut acc: u64 = 0;
        match self {
            ByteOrder::BigEndian => {
                let mut i: usize = 0;
                while i < n
                    invariant
                        n == bytes@.len(),
                        n <= 8,
                        i <= n,
                        acc == big_endian(bytes@.take(i as int)),
                    decreases n - i,
                {
                    proof {
                        let next = bytes@.take(i + 1);
                        assert(next.drop_last() =~= bytes@.take(i as int));
                        lemma_value_below_byte_range(next);
                        lemma_byte_range_fits_u64(next.len());
                    }
                    acc = acc * 256 + bytes[i] as u64;
                    i = i + 1;
                }
                proof {
                    assert(bytes@.take(n as int) =~= bytes@);
                }
            },
            ByteOrder::LittleEndian => {
                let mut i: usize = n;
                while i > 0
                    invariant
                        n == bytes@.len(),
                        n <= 8,
                        i <= n,
                        acc == little_endian(bytes@.skip(i as int)),
                    decreases i,
                {
                    proof {
                        let next = bytes@.skip(i - 1);
                        assert(next.drop_first() =~= bytes@.skip(i as int));
                        lemma_value_below_byte_range(next);
                        lemma_byte_range_fits_u64(next.len());
                    }
                    acc = acc * 256 + bytes[i - 1] as u64;
                    i = i - 1;
                }
                proof {
                    assert(bytes@.skip(0) =~= bytes@);
                }
            },
        }
        proof {
            lemma_value_below_byte_range(bytes@);
            lemma_byte_range_fits_u64(bytes@.len());
        }
        Some(acc)
    }
}

impl WordSize {
    /// The number of bytes in a word of this size.
    pub open spec fn spec_bytes(self) -> usize {
        match self {
            WordSize::Four => 4,
            WordSize::Eight => 8,
        }
    }

    /// The number of bytes in a word of this size.
    #[verifier::when_used_as_spec(spec_bytes)]
    pub fn bytes(self) -> (n: usize)
        ensures
            n == self.spec_bytes(),
    {
        match self {
            WordSize::Four => 4,
            WordSize::Eight => 8,
        }
    }
}

/// The two bytes of `number` as they lie in the memory of this host, from
/// `u16::to_ne_bytes`. Which of the two byte orders the host has is not
/// said: the bytes hold the number in one of them.
#[verifier::external_body]
fn native_bytes(number: u16) -> (bytes: [u8; 2])
    ensures
        little_endian(bytes@) == number || big_endian(bytes@) == number,
{
    number.to_ne_bytes()
}

impl ByteOrder {
    /// The byte order of a host in whose memory the number 1, as a 16-bit
    /// integer, lies as the two bytes `one`: little-endian where the first
    /// of them is 1, big-endian otherwise.
    pub fn of_one(one: [u8; 2]) -> (order: ByteOrder)
        ensures
            order == if one@[0] == 1 {
                ByteOrder::LittleEndian
            } else {
                ByteOrder::BigEndian
            },
            little_endian(one@) == 1 || big_endian(one@) == 1 ==> order.value(one@) == 1,
    {
        proof {
            reveal_with_fuel(little_endian, 3);
            reveal_with_fuel(big_endian, 3);
        }
        if one[0] == 1 {
            ByteOrder::LittleEndian
        } else {
            ByteOrder::BigEndian
        }
    }
}

impl Layout {
    /// The layout of the host that this runs on. Its word has the size of
    /// a `usize`; its byte order is found by looking at how the host
    /// stores the number 1.
    pub fn native() -> (layout: Layout)
        ensures
            layout.word_size.spec_bytes() * 8 == usize::BITS,
    {
        let byte_order: ByteOrder = ByteOrder::of_one(native_bytes(1));
        let word_size: WordSize = if usize::BITS == 64 {
            WordSize::Eight
        } else {
            WordSize::Four
        };
        Layout { byte_order, word_size }
    }
}

/// One byte holds its own number, in either byte order.
pub proof fn lemma_value_of_one_byte(byte: u8)
    ensures
        little_endian(seq![byte]) == byte,
        big_endian(seq![byte]) == byte,
{
    reveal_with_fuel(little_endian, 2);
    reveal_with_fuel(big_endian, 2);
}

/// Two bytes hold 256 times the more significant byte and the less
/// significant byte: the second byte is the more significant one in
/// little-endian order, the first in big-endian order.
pub proof fn lemma_value_of_two_bytes(first: u8, second: u8)
    ensures
        little_endian(seq![first, second]) == first + 256 * second,
        big_endian(seq![first, second]) == 256 * first + second,
{
    let bytes = seq![first, second];
    assert(bytes.drop_first() =~= seq![second]);
    assert(bytes.drop_last() =~= seq![first]);
    lemma_value_of_one_byte(first);
    lemma_value_of_one_byte(second);
}

/// The two byte orders read the same bytes in opposite directions.
pub proof fn lemma_little_endian_is_big_endian_reversed(bytes: Seq<u8>)
    ensures
        little_endian(bytes) == big_endian(bytes.reverse()),
    decreases bytes.len(),
{
    if bytes.len() > 0 {
        lemma_little_endian_is_big_endian_reversed(bytes.drop_first());
        assert(bytes.reverse().drop_last() =~= bytes.drop_first().reverse());
    }
}

} // verus!
