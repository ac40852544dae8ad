//! Transmit descriptors of the Ethernet DMA.

use crate::bits::{u32_get_bit, u32_get_bits, u32_set_bit, u32_set_bits};
use vstd::prelude::*;

verus! {

/// The bit of descriptor word 0 that says the DMA owns the descriptor.
pub const OWN_BIT: usize = 31;
/// The bit of descriptor word 0 that marks the first segment of a frame.
pub const FIRST_SEGMENT_BIT: usize = 28;
/// The bit of descriptor word 0 that marks the last segment of a frame.
pub const LAST_SEGMENT_BIT: usize = 29;
/// The bit of descriptor word 0 that marks the last descriptor of the ring.
pub const END_OF_RING_BIT: usize = 21;
/// The number of bits of the buffer 1 size field in descriptor word 1.
pub const BUFFER_SIZE_BITS: usize = 13;

/// Whether bit `bit` of `word` is set.
pub open spec fn bit_of(word: u32, bit: usize) -> bool {
    (word >> (bit as u32)) & 1u32 == 1u32
}

/// `word` with bit `bit` set to `value`.
pub open spec fn with_bit(word: u32, bit: usize, value: bool) -> u32 {
    if value {
        word | (1u32 << (bit as u32))
    } else {
        word & !(1u32 << (bit as u32))
    }
}

/// The buffer 1 size field of descriptor word 1.
pub open spec fn size_field(word: u32) -> u32 {
    word & 0x1fffu32
}

/// `word` with the buffer 1 size field set to `size`.
pub open spec fn with_size_field(word: u32, size: u32) -> u32 {
    (word & !0x1fffu32) | size
}

/// Setting a bit of a word sets that bit and leaves all other bits as they are.
pub proof fn lemma_with_bit(word: u32, bit: usize, value: bool)
    requires
        bit < 32,
    ensures
        bit_of(with_bit(word, bit, value), bit) == value,
        forall|other: usize|
            other < 32 && other != bit ==> #[trigger] bit_of(with_bit(word, bit, value), other)
                == bit_of(word, other),
{
    let b = bit as u32;
    if value {
        assert(((word | (1u32 << b)) >> b) & 1u32 == 1u32) by (bit_vector)
            requires
                b < 32,
        ;
        assert forall|other: usize| other < 32 && other != bit implies #[trigger] bit_of(
            with_bit(word, bit, value),
            other,
        ) == bit_of(word, other) by {
            let o = other as u32;
            assert((((word | (1u32 << b)) >> o) & 1u32 == 1u32) == ((word >> o) & 1u32 == 1u32))
                by (bit_vector)
                requires
                    b < 32,
                    o < 32,
                    o != b,
            ;
        }
    } else {
        assert(((word & !(1u32 << b)) >> b) & 1u32 == 0u32) by (bit_vector)
            requires
                b < 32,
        ;
        assert forall|other: usize| other < 32 && other != bit implies #[trigger] bit_of(
            with_bit(word, bit, value),
            other,
        ) == bit_of(word, other) by {
            let o = other as u32;
            assert((((word & !(1u32 << b)) >> o) & 1u32 == 1u32) == ((word >> o) & 1u32 == 1u32))
                by (bit_vector)
                requires
                    b < 32,
                    o < 32,
                    o != b,
            ;
        }
    }
}

/// A size written into the size field reads back unchanged, and the other bits of the word
/// keep their values.
pub proof fn lemma_size_field_round_trip(word: u32, size: u32)
    requires
        size < 0x2000,
    ensures
        size_field(with_size_field(word, size)) == size,
        with_size_field(word, size) & !0x1fffu32 == word & !0x1fffu32,
{
    assert(((word & !0x1fffu32) | size) & 0x1fffu32 == size) by (bit_vector)
        requires
            size < 0x2000u32,
    ;
    assert(((word & !0x1fffu32) | size) & !0x1fffu32 == word & !0x1fffu32) by (bit_vector)
        requires
            size < 0x2000u32,
    ;
}

/// A transmit descriptor: four 32-bit words that the Ethernet DMA reads.
#[derive(Debug, Clone, Copy)]
pub struct TxDescriptor {
    word_0: u32,
    word_1: u32,
    word_2: u32,
    word_3: u32,
}

impl TxDescriptor {
    /// Word 0: status and control bits.
    pub closed spec fn word0(&self) -> u32 {
        self.word_0
    }

    /// Word 1: buffer sizes.
    pub closed spec fn word1(&self) -> u32 {
        self.word_1
    }

    /// Word 2: the address of buffer 1.
    pub closed spec fn word2(&self) -> u32 {
        self.word_2
    }

    /// Word 3: the address of buffer 2 or of the next descriptor.
    pub closed spec fn word3(&self) -> u32 {
        self.word_3
    }

    /// Whether the DMA owns the descriptor.
    pub open spec fn spec_own(&self) -> bool {
        bit_of(self.word0(), OWN_BIT)
    }

    /// Whether the descriptor is the last of the ring.
    pub open spec fn spec_end_of_ring(&self) -> bool {
        bit_of(self.word0(), END_OF_RING_BIT)
    }

    /// Whether the descriptor holds the first segment of a frame.
    pub open spec fn spec_first_segment(&self) -> bool {
        bit_of(self.word0(), FIRST_SEGMENT_BIT)
    }

    /// Whether the descriptor holds the last segment of a frame.
    pub open spec fn spec_last_segment(&self) -> bool {
        bit_of(self.word0(), LAST_SEGMENT_BIT)
    }

    /// The address of buffer 1 (0 when the descriptor holds no buffer).
    pub open spec fn spec_buffer_address(&self) -> u32 {
        self.word2()
    }

    /// The size of buffer 1.
    pub open spec fn spec_buffer_size(&self) -> u32 {
        size_field(self.word1())
    }

    /// Creates a descriptor with all words zero.
    pub fn empty() -> (d: TxDescriptor)
        ensures
            d.word0() == 0,
            d.word1() == 0,
            d.word2() == 0,
            d.word3() == 0,
            !d.spec_own(),
            !d.spec_end_of_ring(),
            d.spec_buffer_address() == 0,
    {
        let d = TxDescriptor { word_0: 0, word_1: 0, word_2: 0, word_3: 0 };
        assert((0u32 >> 31u32) & 1u32 == 0u32) by (bit_vector);
        assert((0u32 >> 21u32) & 1u32 == 0u32) by (bit_vector);
        d
    }

    /// Marks the descriptor as the last descriptor of the ring, or unmarks it.
    pub fn set_end_of_ring(&mut self, value: bool)
        ensures
            final(self).word0() == with_bit(old(self).word0(), END_OF_RING_BIT, value),
            final(self).word1() == old(self).word1(),
            final(self).word2() == old(self).word2(),
            final(self).word3() == old(self).word3(),
            final(self).spec_end_of_ring() == value,
            final(self).spec_own() == old(self).spec_own(),
    {
        u32_set_bit(&mut self.word_0, END_OF_RING_BIT, value);
        proof {
            lemma_with_bit(old(self).word_0, END_OF_RING_BIT, value);
        }
    }

    /// Hands a buffer to the DMA for sending: the buffer's address and size are stored, the
    /// descriptor is marked as holding a whole frame and becomes owned by the DMA.
    ///
    /// Returns the buffer that the descriptor held before, if any, so that it can be freed.
    /// The descriptor must not be owned by the DMA.
    pub fn set_data(&mut self, buffer_address: usize, buffer_size: usize) -> (old_buffer: Option<
        (usize, usize),
    >)
        requires
            !old(self).spec_own(),
            buffer_address <= u32::MAX,
            buffer_size < 0x2000,
        ensures
            old_buffer == (if old(self).spec_buffer_address() == 0 {
                None
            } else {
                Some(
                    (
                        old(self).spec_buffer_address() as usize,
                        old(self).spec_buffer_size() as usize,
                    ),
                )
            }),
            final(self).spec_buffer_address() == buffer_address,
            final(self).spec_buffer_size() == buffer_size,
            final(self).word1() == with_size_field(old(self).word1(), buffer_size as u32),
            final(self).word0() == with_bit(
                with_bit(with_bit(old(self).word0(), FIRST_SEGMENT_BIT, true), LAST_SEGMENT_BIT, true),
                OWN_BIT,
                true,
            ),
            final(self).word3() == old(self).word3(),
            final(self).spec_own(),
            final(self).spec_first_segment(),
            final(self).spec_last_segment(),
            final(self).spec_end_of_ring() == old(self).spec_end_of_ring(),
    {
        let old_buffer = self.buffer();
        self.set_buffer(buffer_address, buffer_size);
        self.set_first_segment(true);
        self.set_last_segment(true);
        self.set_own(true);
        proof {
            let w = old(self).word_0;
            lemma_with_bit(w, FIRST_SEGMENT_BIT, true);
            lemma_with_bit(with_bit(w, FIRST_SEGMENT_BIT, true), LAST_SEGMENT_BIT, true);
            lemma_with_bit(
                with_bit(with_bit(w, FIRST_SEGMENT_BIT, true), LAST_SEGMENT_BIT, true),
                OWN_BIT,
                true,
            );
        }
        old_buffer
    }

    /// Whether the DMA owns the descriptor.
    pub fn own(&self) -> (r: bool)
        ensures
            r == self.spec_own(),
    {
        u32_get_bit(self.word_0, OWN_BIT)
    }

    /// Takes the buffer out of the descriptor: returns its address and size and clears the
    /// address, or returns `None` when the descriptor holds no buffer.
    ///
    /// The descriptor must not be owned by the DMA.
    pub fn buffer(&mut self) -> (r: Option<(usize, usize)>)
        requires
            !old(self).spec_own(),
        ensures
            r == (if old(self).spec_buffer_address() == 0 {
                None
            } else {
                Some(
                    (
                        old(self).spec_buffer_address() as usize,
                        old(self).spec_buffer_size() as usize,
                    ),
                )
            }),
            final(self).spec_buffer_address() == 0,
            final(self).word0() == old(self).word0(),
            final(self).word1() == old(self).word1(),
            final(self).word3() == old(self).word3(),
    {
        let address = self.buffer_1_address();
        if address == 0 {
            None
        } else {
            self.set_buffer_1_address(0);
            let size = self.buffer_1_size();
            Some((address, size))
        }
    }

    /// Marks the descriptor as owned by the DMA, or releases it.
    pub fn set_own(&mut self, value: bool)
        ensures
            final(self).word0() == with_bit(old(self).word0(), OWN_BIT, value),
            final(self).word1() == old(self).word1(),
            final(self).word2() == old(self).word2(),
            final(self).word3() == old(self).word3(),
    {
        u32_set_bit(&mut self.word_0, OWN_BIT, value);
    }

    /// Marks the descriptor as holding the first segment of a frame, or unmarks it.
    pub fn set_first_segment(&mut self, value: bool)
        ensures
            final(self).word0() == with_bit(old(self).word0(), FIRST_SEGMENT_BIT, value),
            final(self).word1() == old(self).word1(),
            final(self).word2() == old(self).word2(),
            final(self).word3() == old(self).word3(),
    {
        u32_set_bit(&mut self.word_0, FIRST_SEGMENT_BIT, value);
    }

    /// Marks the descriptor as holding the last segment of a frame, or unmarks it.
    pub fn set_last_segment(&mut self, value: bool)
        ensures
            final(self).word0() == with_bit(old(self).word0(), LAST_SEGMENT_BIT, value),
            final(self).word1() == old(self).word1(),
            final(self).word2() == old(self).word2(),
            final(self).word3() == old(self).word3(),
    {
        u32_set_bit(&mut self.word_0, LAST_SEGMENT_BIT, value);
    }

    /// Stores the address and size of buffer 1. The descriptor must hold no buffer.
    pub fn set_buffer(&mut self, buffer_address: usize, buffer_size: usize)
        requires
            old(self).spec_buffer_address() == 0,
            buffer_address <= u32::MAX,
            buffer_size < 0x2000,
        ensures
            final(self).word0() == old(self).word0(),
            final(self).word1() == with_size_field(old(self).word1(), buffer_size as u32),
            final(self).word2() == buffer_address,
            final(self).word3() == old(self).word3(),
            final(self).spec_buffer_size() == buffer_size,
    {
        self.set_buffer_1_address(buffer_address);
        self.set_buffer_1_size(buffer_size);
    }

    /// The address of buffer 1.
    pub fn buffer_1_address(&self) -> (r: usize)
        ensures
            r == self.word2(),
    {
        self.word_2 as usize
    }

    /// Stores the address of buffer 1, which must fit into 32 bits.
    pub fn set_buffer_1_address(&mut self, buffer_address: usize)
        requires
            buffer_address <= u32::MAX,
        ensures
            final(self).word2() == buffer_address,
            final(self).word0() == old(self).word0(),
            final(self).word1() == old(self).word1(),
            final(self).word3() == old(self).word3(),
    {
        self.word_2 = buffer_address as u32;
    }

    /// The size of buffer 1.
    pub fn buffer_1_size(&self) -> (r: usize)
        ensures
            r == self.spec_buffer_size(),
    {
        let val = u32_get_bits(self.word_1, 0, BUFFER_SIZE_BITS);
        let w = self.word_1;
        assert((w >> 0u32) & (((1u32 << 13u32) - 1) as u32) == w & 0x1fffu32) by (bit_vector);
        val as usize
    }

    /// Stores the size of buffer 1, which must fit into the 13 bits of its field.
    pub fn set_buffer_1_size(&mut self, size: usize)
        requires
            size < 0x2000,
        ensures
            final(self).word1() == with_size_field(old(self).word1(), size as u32),
            final(self).spec_buffer_size() == size,
            final(self).word0() == old(self).word0(),
            final(self).word2() == old(self).word2(),
            final(self).word3() == old(self).word3(),
    {
        let s = size as u32;
        let w = self.word_1;
        assert(s < (1u32 << 13u32)) by (bit_vector)
            requires
                s < 0x2000u32,
        ;
        u32_set_bits(&mut self.word_1, 0, BUFFER_SIZE_BITS, s);
        assert((w & !((((1u32 << 13u32) - 1) as u32) << 0u32)) | (s << 0u32) == (w & !0x1fffu32)
            | s) by (bit_vector);
        assert(((w & !0x1fffu32) | s) & 0x1fffu32 == s) by (bit_vector)
            requires
                s < 0x2000u32,
        ;
    }
}

} // verus!
