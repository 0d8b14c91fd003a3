//! Uniform words handed to the WGSL kernels and their byte layout.

use vstd::prelude::*;

verus! {

/// The four `u32` words of a uniform entry, as the WGSL kernels read them (`U.x` .. `U.w`).
#[derive(Debug, Clone, Copy, PartialEq, Eq, Structural)]
pub struct UniformWords {
    pub x: u32,
    pub y: u32,
    pub z: u32,
    pub w: u32,
}

/// The little-endian bytes of a word.
pub open spec fn u32_le_bytes(word: u32) -> Seq<u8> {
    seq![
        (word % 0x100) as u8,
        ((word / 0x100) % 0x100) as u8,
        ((word / 0x10000) % 0x100) as u8,
        (word / 0x1000000) as u8,
    ]
}

/// The words laid out one after the other, each in little-endian byte order.
pub open spec fn words_le_bytes(words: Seq<u32>) -> Seq<u8>
    decreases words.len(),
{
    if words.len() == 0 {
        seq![]
    } else {
        words_le_bytes(words.drop_last()) + u32_le_bytes(words.last())
    }
}

/// The words laid out one after the other, each in big-endian byte order.
pub open spec fn words_be_bytes(words: Seq<u32>) -> Seq<u8>
    decreases words.len(),
{
    if words.len() == 0 {
        seq![]
    } else {
        words_be_bytes(words.drop_last()) + u32_le_bytes(words.last()).reverse()
    }
}

/// The words as the bytes of their in-memory representation.
///
/// Calls `bytemuck::cast_slice::<u32, u8>`, which reinterprets the words' memory: the
/// bytes are the words in the machine's native byte order, which the contract leaves open
/// between little- and big-endian.
#[verifier::external_body]
fn cast_words_to_bytes(words: &[u32]) -> (r: Vec<u8>)
    ensures
        r@ == words_le_bytes(words@) || r@ == words_be_bytes(words@),
{
    bytemuck::cast_slice::<u32, u8>(words).to_vec()
}

impl UniformWords {
    /// The words in order.
    pub open spec fn spec_words(self) -> Seq<u32> {
        seq![self.x, self.y, self.z, self.w]
    }

    /// The words as an array, in order.
    pub fn to_array(&self) -> (r: [u32; 4])
        ensures
            r@ == self.spec_words(),
    {
        let r = [self.x, self.y, self.z, self.w];
        assert(r@ =~= self.spec_words());
        r
    }

    /// The 16 bytes written to the uniform buffer: the words in native byte order.
    pub fn to_bytes(&self) -> (r: Vec<u8>)
        ensures
            r@ == words_le_bytes(self.spec_words()) || r@ == words_be_bytes(self.spec_words()),
            r@.len() == 16,
    {
        let words = self.to_array();
        proof {
            reveal_with_fuel(words_le_bytes, 5);
            reveal_with_fuel(words_be_bytes, 5);
            assert(self.spec_words().drop_last().drop_last().drop_last().drop_last().len() == 0);
        }
        cast_words_to_bytes(&words)
    }
}

} // verus!
