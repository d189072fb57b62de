//! The cube mesh: vertex and index data, and their little-endian byte
//! layout.
//!
//! Each vertex is six single-precision values — position x, y, z then color
//! r, g, b — carried as bit patterns. The index list covers the cube's
//! twelve triangles with 36 entries of 16 bits each.

use vstd::bytes::{spec_u16_to_le_bytes, spec_u32_to_le_bytes, u16_to_le_bytes, u32_to_le_bytes};
use vstd::prelude::*;

verus! {

/// Bit pattern of single-precision `-1.0` (the cube's half extent, negated).
pub const NEG_ONE_BITS: u32 = 0xBF80_0000;

/// Bit pattern of single-precision `0.2`.
pub const F32_02_BITS: u32 = 0x3E4C_CCCD;

/// Bit pattern of single-precision `0.3`.
pub const F32_03_BITS: u32 = 0x3E99_999A;

/// Bit pattern of single-precision `0.8`.
pub const F32_08_BITS: u32 = 0x3F4C_CCCD;

/// The 48 words of the vertex buffer: eight corners, each position then
/// color. The front face is tinted red, the back face blue.
pub open spec fn cube_vertex_words() -> Seq<u32> {
    let one = crate::desc::F32_ONE_BITS;
    let neg = NEG_ONE_BITS;
    seq![
        // front face, upper pair (bright red)
        neg, one, neg, one, F32_03_BITS, F32_03_BITS,
        one, one, neg, one, F32_03_BITS, F32_03_BITS,
        // front face, lower pair (dark red)
        neg, neg, neg, F32_08_BITS, F32_02_BITS, F32_02_BITS,
        one, neg, neg, F32_08_BITS, F32_02_BITS, F32_02_BITS,
        // back face, upper pair (bright blue)
        one, one, one, F32_03_BITS, F32_03_BITS, one,
        neg, one, one, F32_03_BITS, F32_03_BITS, one,
        // back face, lower pair (dark blue)
        one, neg, one, F32_02_BITS, F32_02_BITS, F32_08_BITS,
        neg, neg, one, F32_02_BITS, F32_02_BITS, F32_08_BITS,
    ]
}

/// The 36 index entries: twelve triangles, two per cube face.
pub open spec fn cube_index_values() -> Seq<u16> {
    seq![
        0u16, 1, 2, 1, 3, 2, // front
        1, 4, 3, 4, 6, 3, // right
        4, 5, 6, 5, 7, 6, // back
        5, 0, 7, 0, 2, 7, // left
        5, 4, 0, 4, 1, 0, // top
        2, 3, 7, 3, 6, 7, // bottom
    ]
}

/// A word sequence laid out as consecutive little-endian 4-byte groups.
pub open spec fn words_to_le_bytes(s: Seq<u32>) -> Seq<u8>
    decreases s.len(),
{
    if s.len() == 0 {
        Seq::empty()
    } else {
        spec_u32_to_le_bytes(s[0]) + words_to_le_bytes(s.skip(1))
    }
}

/// A 16-bit sequence laid out as consecutive little-endian 2-byte groups.
pub open spec fn shorts_to_le_bytes(s: Seq<u16>) -> Seq<u8>
    decreases s.len(),
{
    if s.len() == 0 {
        Seq::empty()
    } else {
        spec_u16_to_le_bytes(s[0]) + shorts_to_le_bytes(s.skip(1))
    }
}

/// The vertex buffer's byte payload.
pub open spec fn cube_vertex_bytes() -> Seq<u8> {
    words_to_le_bytes(cube_vertex_words())
}

/// The index buffer's byte payload.
pub open spec fn cube_index_bytes() -> Seq<u8> {
    shorts_to_le_bytes(cube_index_values())
}

proof fn lemma_words_to_le_bytes_push(s: Seq<u32>, w: u32)
    ensures
        words_to_le_bytes(s.push(w)) == words_to_le_bytes(s) + spec_u32_to_le_bytes(w),
    decreases s.len(),
{
    if s.len() == 0 {
        assert(s.push(w)[0] == w);
        assert(s.push(w).skip(1) =~= Seq::<u32>::empty());
        assert(s =~= Seq::<u32>::empty());
        assert(words_to_le_bytes(Seq::<u32>::empty()) == Seq::<u8>::empty());
        assert(words_to_le_bytes(s.push(w)) =~= words_to_le_bytes(s) + spec_u32_to_le_bytes(w));
    } else {
        assert(s.push(w)[0] == s[0]);
        assert(s.push(w).skip(1) =~= s.skip(1).push(w));
        lemma_words_to_le_bytes_push(s.skip(1), w);
        assert(words_to_le_bytes(s.push(w)) =~= words_to_le_bytes(s) + spec_u32_to_le_bytes(w));
    }
}

proof fn lemma_shorts_to_le_bytes_push(s: Seq<u16>, w: u16)
    ensures
        shorts_to_le_bytes(s.push(w)) == shorts_to_le_bytes(s) + spec_u16_to_le_bytes(w),
    decreases s.len(),
{
    if s.len() == 0 {
        assert(s.push(w)[0] == w);
        assert(s.push(w).skip(1) =~= Seq::<u16>::empty());
        assert(s =~= Seq::<u16>::empty());
        assert(shorts_to_le_bytes(Seq::<u16>::empty()) == Seq::<u8>::empty());
        assert(shorts_to_le_bytes(s.push(w)) =~= shorts_to_le_bytes(s) + spec_u16_to_le_bytes(w));
    } else {
        assert(s.push(w)[0] == s[0]);
        assert(s.push(w).skip(1) =~= s.skip(1).push(w));
        lemma_shorts_to_le_bytes_push(s.skip(1), w);
        assert(shorts_to_le_bytes(s.push(w)) =~= shorts_to_le_bytes(s) + spec_u16_to_le_bytes(w));
    }
}

/// Lay a word list out as little-endian bytes.
pub fn encode_words_le(words: &Vec<u32>) -> (out: Vec<u8>)
    ensures
        out@ == words_to_le_bytes(words@),
        out@.len() == 4 * words@.len(),
{
    let mut out: Vec<u8> = Vec::new();
    let n: usize = words.len();
    let mut i: usize = 0;
    proof {
        assert(words@.take(0) =~= Seq::<u32>::empty());
    }
    while i < n
        invariant
            n == words@.len(),
            i <= n,
            out@ == words_to_le_bytes(words@.take(i as int)),
            out@.len() == 4 * i,
        decreases n - i,
    {
        let mut group: Vec<u8> = u32_to_le_bytes(words[i]);
        out.append(&mut group);
        proof {
            assert(words@.take(i + 1) =~= words@.take(i as int).push(words@[i as int]));
            lemma_words_to_le_bytes_push(words@.take(i as int), words@[i as int]);
            vstd::bytes::lemma_auto_spec_u32_to_from_le_bytes();
        }
        i = i + 1;
    }
    proof {
        assert(words@.take(n as int) =~= words@);
    }
    out
}

/// Lay a 16-bit list out as little-endian bytes.
pub fn encode_shorts_le(shorts: &Vec<u16>) -> (out: Vec<u8>)
    ensures
        out@ == shorts_to_le_bytes(shorts@),
        out@.len() == 2 * shorts@.len(),
{
    let mut out: Vec<u8> = Vec::new();
    let n: usize = shorts.len();
    let mut i: usize = 0;
    proof {
        assert(shorts@.take(0) =~= Seq::<u16>::empty());
    }
    while i < n
        invariant
            n == shorts@.len(),
            i <= n,
            out@ == shorts_to_le_bytes(shorts@.take(i as int)),
            out@.len() == 2 * i,
        decreases n - i,
    {
        let mut group: Vec<u8> = u16_to_le_bytes(shorts[i]);
        out.append(&mut group);
        proof {
            assert(shorts@.take(i + 1) =~= shorts@.take(i as int).push(shorts@[i as int]));
            lemma_shorts_to_le_bytes_push(shorts@.take(i as int), shorts@[i as int]);
            vstd::bytes::lemma_auto_spec_u16_to_from_le_bytes();
        }
        i = i + 1;
    }
    proof {
        assert(shorts@.take(n as int) =~= shorts@);
    }
    out
}

/// Build the vertex buffer payload.
#[verifier::rlimit(100)]
pub fn cube_vertex_buffer_bytes() -> (out: Vec<u8>)
    ensures
        out@ == cube_vertex_bytes(),
        out@.len() == 192,
{
    let mut words: Vec<u32> = Vec::new();
    let one: u32 = crate::desc::F32_ONE_BITS;
    let neg: u32 = NEG_ONE_BITS;
    words.push(neg); words.push(one); words.push(neg);
    words.push(one); words.push(F32_03_BITS); words.push(F32_03_BITS);
    words.push(one); words.push(one); words.push(neg);
    words.push(one); words.push(F32_03_BITS); words.push(F32_03_BITS);
    words.push(neg); words.push(neg); words.push(neg);
    words.push(F32_08_BITS); words.push(F32_02_BITS); words.push(F32_02_BITS);
    words.push(one); words.push(neg); words.push(neg);
    words.push(F32_08_BITS); words.push(F32_02_BITS); words.push(F32_02_BITS);
    words.push(one); words.push(one); words.push(one);
    words.push(F32_03_BITS); words.push(F32_03_BITS); words.push(one);
    words.push(neg); words.push(one); words.push(one);
    words.push(F32_03_BITS); words.push(F32_03_BITS); words.push(one);
    words.push(one); words.push(neg); words.push(one);
    words.push(F32_02_BITS); words.push(F32_02_BITS); words.push(F32_08_BITS);
    words.push(neg); words.push(neg); words.push(one);
    words.push(F32_02_BITS); words.push(F32_02_BITS); words.push(F32_08_BITS);
    proof {
        assert(words@ =~= cube_vertex_words());
    }
    encode_words_le(&words)
}

/// Build the index buffer payload.
#[verifier::rlimit(100)]
pub fn cube_index_buffer_bytes() -> (out: Vec<u8>)
    ensures
        out@ == cube_index_bytes(),
        out@.len() == 72,
{
    let mut shorts: Vec<u16> = Vec::new();
    shorts.push(0); shorts.push(1); shorts.push(2);
    shorts.push(1); shorts.push(3); shorts.push(2);
    shorts.push(1); shorts.push(4); shorts.push(3);
    shorts.push(4); shorts.push(6); shorts.push(3);
    shorts.push(4); shorts.push(5); shorts.push(6);
    shorts.push(5); shorts.push(7); shorts.push(6);
    shorts.push(5); shorts.push(0); shorts.push(7);
    shorts.push(0); shorts.push(2); shorts.push(7);
    shorts.push(5); shorts.push(4); shorts.push(0);
    shorts.push(4); shorts.push(1); shorts.push(0);
    shorts.push(2); shorts.push(3); shorts.push(7);
    shorts.push(3); shorts.push(6); shorts.push(7);
    proof {
        assert(shorts@ =~= cube_index_values());
    }
    encode_shorts_le(&shorts)
}

} // verus!
