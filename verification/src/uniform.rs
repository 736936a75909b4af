//! The per-frame uniform record and its byte layout.
//!
//! The shader reads a sixteen-byte record of four 32-bit fields — the
//! animation angle, the window's aspect ratio, the shape's radius, and a
//! padding word — each laid out as a little-endian 32-bit word. The fields
//! are bit patterns here: which real number a pattern stands for is the
//! shader's reading of it, and only the layout is this crate's concern.

use vstd::prelude::*;

verus! {

/// Number of bytes in the uniform record.
pub const UNIFORM_BYTES: usize = 16;

/// The little-endian bytes of a 32-bit word, least significant first.
pub open spec fn le_bytes(x: u32) -> Seq<u8> {
    seq![
        (x & 0xff) as u8,
        ((x >> 8) & 0xff) as u8,
        ((x >> 16) & 0xff) as u8,
        ((x >> 24) & 0xff) as u8,
    ]
}

/// Equal little-endian bytes come only from equal words.
pub proof fn lemma_le_bytes_injective(x: u32, y: u32)
    requires
        le_bytes(x) == le_bytes(y),
    ensures
        x == y,
{
    assert(le_bytes(x)[0] == le_bytes(y)[0]);
    assert(le_bytes(x)[1] == le_bytes(y)[1]);
    assert(le_bytes(x)[2] == le_bytes(y)[2]);
    assert(le_bytes(x)[3] == le_bytes(y)[3]);
    assert(x == y) by (bit_vector)
        requires
            (x & 0xff) as u8 == (y & 0xff) as u8,
            ((x >> 8) & 0xff) as u8 == ((y >> 8) & 0xff) as u8,
            ((x >> 16) & 0xff) as u8 == ((y >> 16) & 0xff) as u8,
            ((x >> 24) & 0xff) as u8 == ((y >> 24) & 0xff) as u8,
    ;
}

/// The uniform record: the bit patterns of the animation angle, the
/// aspect ratio, the shape radius, and one padding word.
#[derive(Clone, Copy, Debug, PartialEq, Eq, Structural)]
pub struct FrameUniform {
    pub angle_bits: u32,
    pub aspect_bits: u32,
    pub radius_bits: u32,
    pub pad_bits: u32,
}

impl FrameUniform {
    /// The sixteen bytes of the record: each field as a little-endian
    /// word, in field order.
    pub open spec fn encoding(self) -> Seq<u8> {
        le_bytes(self.angle_bits) + le_bytes(self.aspect_bits) + le_bytes(self.radius_bits)
            + le_bytes(self.pad_bits)
    }

    /// Build a record from the three meaningful fields; the padding word
    /// is zero.
    pub fn new(angle_bits: u32, aspect_bits: u32, radius_bits: u32) -> (u: FrameUniform)
        ensures
            u == (FrameUniform { angle_bits, aspect_bits, radius_bits, pad_bits: 0 }),
    {
        FrameUniform { angle_bits, aspect_bits, radius_bits, pad_bits: 0 }
    }

    /// Lay the record out as the sixteen bytes the shader expects.
    pub fn encode(&self) -> (bytes: Vec<u8>)
        ensures
            bytes@ == self.encoding(),
            bytes@.len() == UNIFORM_BYTES,
    {
        let mut bytes: Vec<u8> = Vec::new();
        push_le_word(&mut bytes, self.angle_bits);
        push_le_word(&mut bytes, self.aspect_bits);
        push_le_word(&mut bytes, self.radius_bits);
        push_le_word(&mut bytes, self.pad_bits);
        proof {
            assert(bytes@ =~= self.encoding());
        }
        bytes
    }

    /// Read a record back from its byte layout. Returns a record exactly
    /// when the slice has the record's length, and then the one record
    /// whose encoding the slice is.
    pub fn decode(bytes: &[u8]) -> (r: Option<FrameUniform>)
        ensures
            match r {
                Some(u) => bytes@.len() == UNIFORM_BYTES && u.encoding() == bytes@,
                None => bytes@.len() != UNIFORM_BYTES,
            },
    {
        if bytes.len() != UNIFORM_BYTES {
            return None;
        }
        let u = FrameUniform {
            angle_bits: read_le_word(bytes, 0),
            aspect_bits: read_le_word(bytes, 4),
            radius_bits: read_le_word(bytes, 8),
            pad_bits: read_le_word(bytes, 12),
        };
        proof {
            assert(u.encoding() =~= bytes@);
        }
        Some(u)
    }
}

/// A record is determined by its sixteen bytes: equal encodings come only
/// from equal records, so decoding inverts encoding.
pub proof fn lemma_encoding_injective(a: FrameUniform, b: FrameUniform)
    requires
        a.encoding() == b.encoding(),
    ensures
        a == b,
{
    assert(le_bytes(a.angle_bits) =~= a.encoding().subrange(0, 4));
    assert(le_bytes(a.aspect_bits) =~= a.encoding().subrange(4, 8));
    assert(le_bytes(a.radius_bits) =~= a.encoding().subrange(8, 12));
    assert(le_bytes(a.pad_bits) =~= a.encoding().subrange(12, 16));
    assert(le_bytes(b.angle_bits) =~= b.encoding().subrange(0, 4));
    assert(le_bytes(b.aspect_bits) =~= b.encoding().subrange(4, 8));
    assert(le_bytes(b.radius_bits) =~= b.encoding().subrange(8, 12));
    assert(le_bytes(b.pad_bits) =~= b.encoding().subrange(12, 16));
    lemma_le_bytes_injective(a.angle_bits, b.angle_bits);
    lemma_le_bytes_injective(a.aspect_bits, b.aspect_bits);
    lemma_le_bytes_injective(a.radius_bits, b.radius_bits);
    lemma_le_bytes_injective(a.pad_bits, b.pad_bits);
}

/// Append the little-endian bytes of one word.
fn push_le_word(bytes: &mut Vec<u8>, x: u32)
    ensures
        final(bytes)@ == old(bytes)@ + le_bytes(x),
{
    proof {
        assert(x & 0xff < 256 && (x >> 8) & 0xff < 256 && (x >> 16) & 0xff < 256 && (x >> 24)
            & 0xff < 256) by (bit_vector);
    }
    bytes.push((x & 0xff) as u8);
    bytes.push(((x >> 8) & 0xff) as u8);
    bytes.push(((x >> 16) & 0xff) as u8);
    bytes.push(((x >> 24) & 0xff) as u8);
    proof {
        assert(bytes@ =~= old(bytes)@ + le_bytes(x));
    }
}

/// Assemble the word whose little-endian bytes stand at `off`.
fn read_le_word(bytes: &[u8], off: usize) -> (x: u32)
    requires
        off + 4 <= bytes@.len(),
    ensures
        le_bytes(x) == bytes@.subrange(off as int, off as int + 4),
{
    let b0 = bytes[off];
    let b1 = bytes[off + 1];
    let b2 = bytes[off + 2];
    let b3 = bytes[off + 3];
    let x = (b0 as u32) | ((b1 as u32) << 8) | ((b2 as u32) << 16) | ((b3 as u32) << 24);
    proof {
        assert((x & 0xff) as u8 == b0 && ((x >> 8) & 0xff) as u8 == b1 && ((x >> 16)
            & 0xff) as u8 == b2 && ((x >> 24) & 0xff) as u8 == b3) by (bit_vector)
            requires
                x == (b0 as u32) | ((b1 as u32) << 8) | ((b2 as u32) << 16) | ((b3 as u32) << 24),
        ;
        assert(le_bytes(x) =~= bytes@.subrange(off as int, off as int + 4));
    }
    x
}

} // verus!
