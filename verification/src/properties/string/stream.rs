//! The length-and-compression word of a string.
use vstd::prelude::*;

verus! {

/// The size of a string in bytes and whether the string is compressed: the
/// high bit is the flag, the low 31 bits are the length of the stored bytes.
#[derive(Clone, Copy, Debug, PartialEq, Eq, Hash, Structural)]
pub struct CountOfBytesWithCompressionFlag {
    pub bits: u32,
}

impl CountOfBytesWithCompressionFlag {
    /// Whether the string is compressed.
    pub const COMPRESSION_FLAG: u32 = 0x8000_0000;
    /// The size of the string in bytes; for a compressed string, the size after compression.
    pub const COUNT_OF_BYTES: u32 = 0x7FFF_FFFF;

    /// An empty string.
    #[allow(non_snake_case)]
    #[verifier::allow_in_spec]
    pub fn EMPTY() -> (r: CountOfBytesWithCompressionFlag)
        returns
            (CountOfBytesWithCompressionFlag { bits: 0 }),
    {
        CountOfBytesWithCompressionFlag { bits: 0 }
    }

    /// Every word is a length and a flag.
    pub fn from_bits(bits: u32) -> (r: Option<CountOfBytesWithCompressionFlag>)
        ensures
            r == Some(CountOfBytesWithCompressionFlag { bits }),
    {
        Some(CountOfBytesWithCompressionFlag { bits })
    }

    /// The word that stores a length below 2^31 and a flag.
    pub open spec fn spec_encode(len: u32, compressed: bool) -> u32 {
        (if compressed { 1u32 } else { 0u32 }) << 31 | len
    }

    /// The raw word.
    #[verifier::allow_in_spec]
    pub fn bits(&self) -> (r: u32)
        returns
            self.bits,
    {
        self.bits
    }

    /// The length in bytes of the stored string.
    #[verifier::allow_in_spec]
    pub fn len(&self) -> (r: u32)
        returns
            (self.bits & CountOfBytesWithCompressionFlag::COUNT_OF_BYTES),
    {
        self.bits & CountOfBytesWithCompressionFlag::COUNT_OF_BYTES
    }

    /// Whether the stored string has one byte for each character.
    #[verifier::allow_in_spec]
    pub fn compressed(&self) -> (r: bool)
        returns
            (self.bits & CountOfBytesWithCompressionFlag::COMPRESSION_FLAG
                == CountOfBytesWithCompressionFlag::COMPRESSION_FLAG),
    {
        self.bits & CountOfBytesWithCompressionFlag::COMPRESSION_FLAG
            == CountOfBytesWithCompressionFlag::COMPRESSION_FLAG
    }
}

/// A length below 2^31 and a flag, stored in a word, come out of it again as
/// they went in; and a word is the encoding of the length and flag it holds.
pub proof fn lemma_length_and_compression_round_trip(len: u32, compressed: bool, word: u32)
    requires
        len < 0x8000_0000,
    ensures
        (CountOfBytesWithCompressionFlag {
            bits: CountOfBytesWithCompressionFlag::spec_encode(len, compressed),
        }).len() == len,
        (CountOfBytesWithCompressionFlag {
            bits: CountOfBytesWithCompressionFlag::spec_encode(len, compressed),
        }).compressed() == compressed,
        (CountOfBytesWithCompressionFlag { bits: word }).len() < 0x8000_0000,
        CountOfBytesWithCompressionFlag::spec_encode(
            (CountOfBytesWithCompressionFlag { bits: word }).len(),
            (CountOfBytesWithCompressionFlag { bits: word }).compressed(),
        ) == word,
{
    assert((0u32 << 31 | len) & 0x7FFF_FFFF == len && (1u32 << 31 | len) & 0x7FFF_FFFF == len
        && (0u32 << 31 | len) & 0x8000_0000 != 0x8000_0000 && (1u32 << 31 | len) & 0x8000_0000
        == 0x8000_0000) by (bit_vector)
        requires
            len < 0x8000_0000,
    ;
    assert(word & 0x7FFF_FFFF < 0x8000_0000 && (word & 0x8000_0000 == 0x8000_0000 ==> (1u32 << 31
        | (word & 0x7FFF_FFFF)) == word) && (word & 0x8000_0000 != 0x8000_0000 ==> (0u32 << 31 | (
    word & 0x7FFF_FFFF)) == word)) by (bit_vector);
}

} // verus!
