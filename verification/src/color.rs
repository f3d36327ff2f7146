//! RGBA colors stored as one little-endian 32 bit word.
use vstd::prelude::*;

verus! {

/// Value of four little-endian bytes (red, green, blue, alpha) as a word.
pub open spec fn spec_word(bytes: Seq<u8>) -> int {
    bytes[0] + 256 * bytes[1] + 65536 * bytes[2] + 16777216 * bytes[3]
}

/// The four little-endian bytes of a word.
pub open spec fn spec_bytes(word: u32) -> Seq<u8> {
    seq![
        (word % 256) as u8,
        ((word / 256) % 256) as u8,
        ((word / 65536) % 256) as u8,
        (word / 16777216) as u8,
    ]
}

/// A color with 8 bit channels, red in the lowest byte.
#[derive(Debug, Clone, Copy, PartialEq, Eq, Structural)]
pub struct Color(u32);

impl Color {
    /// The color's word.
    pub closed spec fn word(self) -> u32 {
        self.0
    }

    /// Channels in the order red, green, blue, alpha.
    pub fn as_u8(&self) -> (channels: [u8; 4])
        ensures
            channels@ == spec_bytes(self.word()),
    {
        let v = self.0;
        let r = (v & 0xff) as u8;
        let g = ((v >> 8) & 0xff) as u8;
        let b = ((v >> 16) & 0xff) as u8;
        let a = (v >> 24) as u8;
        assert(r == (v % 256) as u8 && g == ((v / 256) % 256) as u8 && b == ((v / 65536) % 256) as u8
            && a == (v / 16777216) as u8) by (bit_vector)
            requires
                r == (v & 0xff) as u8,
                g == ((v >> 8) & 0xff) as u8,
                b == ((v >> 16) & 0xff) as u8,
                a == (v >> 24) as u8,
        ;
        let channels = [r, g, b, a];
        assert(channels@ =~= spec_bytes(v));
        channels
    }

    /// The color with the given channels (red, green, blue, alpha).
    pub fn from_u8(value: [u8; 4]) -> (color: Self)
        ensures
            color.word() == spec_word(value@),
    {
        let r = value[0] as u32;
        let g = value[1] as u32;
        let b = value[2] as u32;
        let a = value[3] as u32;
        let word = r | (g << 8) | (b << 16) | (a << 24);
        assert(word == r + 256 * g + 65536 * b + 16777216 * a) by (bit_vector)
            requires
                r < 256,
                g < 256,
                b < 256,
                a < 256,
                word == r | (g << 8) | (b << 16) | (a << 24),
        ;
        Color(word)
    }

    /// Replaces the alpha channel.
    pub fn set_alpha_u8(&mut self, alpha: u8)
        ensures
            spec_bytes(final(self).word()) == spec_bytes(old(self).word()).update(3, alpha),
    {
        let mut value = self.as_u8();
        value[3] = alpha;
        *self = Self::from_u8(value);
        proof { lemma_bytes_of_word(value@); }
    }
}

/// Reading the bytes of a word built from four bytes gives those bytes back.
pub proof fn lemma_bytes_of_word(bytes: Seq<u8>)
    requires
        bytes.len() == 4,
    ensures
        0 <= spec_word(bytes) <= u32::MAX,
        spec_bytes(spec_word(bytes) as u32) == bytes,
{
    let b0 = bytes[0] as u32;
    let b1 = bytes[1] as u32;
    let b2 = bytes[2] as u32;
    let b3 = bytes[3] as u32;
    let w: u32 = (b0 + 256 * b1 + 65536 * b2 + 16777216 * b3) as u32;
    assert(b0 + 256 * b1 + 65536 * b2 + 16777216 * b3 <= u32::MAX) by (nonlinear_arith)
        requires
            b0 < 256,
            b1 < 256,
            b2 < 256,
            b3 < 256,
    ;
    assert(w % 256 == b0 && (w / 256) % 256 == b1 && (w / 65536) % 256 == b2 && w / 16777216 == b3)
        by (nonlinear_arith)
        requires
            b0 < 256,
            b1 < 256,
            b2 < 256,
            b3 < 256,
            w == b0 + 256 * b1 + 65536 * b2 + 16777216 * b3,
    ;
    assert(spec_bytes(w) =~= bytes);
}

/// Building a word from the bytes of a word gives that word back.
pub proof fn lemma_word_of_bytes(word: u32)
    ensures
        spec_word(spec_bytes(word)) == word,
{
    let w = word as int;
    assert(w == (w % 256) + 256 * ((w / 256) % 256) + 65536 * ((w / 65536) % 256) + 16777216 * (w / 16777216))
        by (nonlinear_arith)
        requires
            0 <= w <= u32::MAX,
    ;
}

/// `from_u8` and `as_u8` undo each other.
pub proof fn lemma_color_roundtrip(color: Color, bytes: Seq<u8>)
    requires
        bytes.len() == 4,
    ensures
        spec_bytes(spec_word(bytes) as u32) == bytes,
        spec_word(spec_bytes(color.word())) == color.word(),
{
    lemma_bytes_of_word(bytes);
    lemma_word_of_bytes(color.word());
}

} // verus!
