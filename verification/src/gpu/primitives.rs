//! Values carried by GP0 drawing commands: colours, vertices, texture
//! coordinates, texture descriptors and semi-transparency modes.

use vstd::prelude::*;

verus! {

/// A 24-bit RGB colour as sent in GP0 command words.
#[derive(Debug, Clone, Copy, PartialEq, Eq, Structural)]
pub struct Color {
    pub r: u8,
    pub g: u8,
    pub b: u8,
}

/// A 15-bit BGR colour from 8-bit channels: each channel keeps its top 5 bits.
pub open spec fn rgb15_spec(r: u8, g: u8, b: u8) -> u16 {
    (((b >> 3u8) as u16) << 10u16) | (((g >> 3u8) as u16) << 5u16) | ((r >> 3u8) as u16)
}

/// The 5-bit red, green and blue channels of a 15-bit colour.
pub open spec fn red5(c: u16) -> u16 {
    c & 0x1F
}

pub open spec fn green5(c: u16) -> u16 {
    (c >> 5u16) & 0x1F
}

pub open spec fn blue5(c: u16) -> u16 {
    (c >> 10u16) & 0x1F
}

/// A 15-bit colour from three 5-bit channels.
pub open spec fn pack15_spec(r: u16, g: u16, b: u16) -> u16 {
    (b << 10u16) | (g << 5u16) | r
}

impl Color {
    /// The colour in the low 24 bits of a command word: red in bits 0-7,
    /// green in 8-15, blue in 16-23.
    pub fn from_u32(word: u32) -> (c: Color)
        ensures
            c.r == (word & 0xFF) as u8,
            c.g == ((word >> 8u32) & 0xFF) as u8,
            c.b == ((word >> 16u32) & 0xFF) as u8,
    {
        Color {
            r: (word & 0xFF) as u8,
            g: ((word >> 8u32) & 0xFF) as u8,
            b: ((word >> 16u32) & 0xFF) as u8,
        }
    }

    /// The colour in 15-bit VRAM format.
    pub fn to_rgb15(&self) -> (c: u16)
        ensures
            c == rgb15_spec(self.r, self.g, self.b),
            c <= 0x7FFF,
    {
        proof { lemma_rgb15_bound(self.r, self.g, self.b); }
        (((self.b >> 3u8) as u16) << 10u16) | (((self.g >> 3u8) as u16) << 5u16) | ((self.r
            >> 3u8) as u16)
    }
}

/// A 15-bit colour fits in 15 bits and its channels are the top five bits
/// of the 8-bit channels.
pub proof fn lemma_rgb15_bound(r: u8, g: u8, b: u8)
    ensures
        rgb15_spec(r, g, b) <= 0x7FFF,
        red5(rgb15_spec(r, g, b)) == (r >> 3u8) as u16,
        green5(rgb15_spec(r, g, b)) == (g >> 3u8) as u16,
        blue5(rgb15_spec(r, g, b)) == (b >> 3u8) as u16,
{
    let r5 = (r >> 3u8) as u16;
    let g5 = (g >> 3u8) as u16;
    let b5 = (b >> 3u8) as u16;
    assert(r5 < 32 && g5 < 32 && b5 < 32) by (bit_vector)
        requires r5 == (r >> 3u8) as u16, g5 == (g >> 3u8) as u16, b5 == (b >> 3u8) as u16;
    lemma_pack15(r5, g5, b5);
}

/// Packing three 5-bit channels and unpacking them gives them back.
pub proof fn lemma_pack15(r: u16, g: u16, b: u16)
    requires
        r < 32,
        g < 32,
        b < 32,
    ensures
        pack15_spec(r, g, b) <= 0x7FFF,
        red5(pack15_spec(r, g, b)) == r,
        green5(pack15_spec(r, g, b)) == g,
        blue5(pack15_spec(r, g, b)) == b,
{
    assert(((b << 10u16) | (g << 5u16) | r) <= 0x7FFF && ((b << 10u16) | (g << 5u16) | r) & 0x1F
        == r && (((b << 10u16) | (g << 5u16) | r) >> 5u16) & 0x1F == g && (((b << 10u16) | (g
        << 5u16) | r) >> 10u16) & 0x1F == b) by (bit_vector)
        requires r < 32, g < 32, b < 32;
}

/// A screen vertex.
#[derive(Debug, Clone, Copy, PartialEq, Eq, Structural)]
pub struct Vertex {
    pub x: i16,
    pub y: i16,
}

/// The signed value of an 11-bit two's complement field.
pub open spec fn sext11_spec(bits: u32) -> i16 {
    if bits & 0x7FF >= 0x400 {
        ((bits & 0x7FF) as int - 0x800) as i16
    } else {
        (bits & 0x7FF) as i16
    }
}

/// Sign-extend an 11-bit field.
pub fn sext11(bits: u32) -> (r: i16)
    ensures
        r == sext11_spec(bits),
        -1024 <= r <= 1023,
{
    let b = bits & 0x7FF;
    assert(bits & 0x7FF <= 0x7FF) by (bit_vector);
    if b >= 0x400 {
        (b as i16) - 0x800
    } else {
        b as i16
    }
}

impl Vertex {
    /// A vertex word: X in bits 0-10 and Y in bits 16-26, both signed
    /// 11-bit values (-1024..1023).
    pub fn from_u32(word: u32) -> (v: Vertex)
        ensures
            v.x == sext11_spec(word),
            v.y == sext11_spec(word >> 16u32),
            -1024 <= v.x <= 1023,
            -1024 <= v.y <= 1023,
    {
        Vertex { x: sext11(word), y: sext11(word >> 16u32) }
    }
}

/// A texel coordinate within a texture page.
#[derive(Debug, Clone, Copy, PartialEq, Eq, Structural)]
pub struct TexCoord {
    pub u: u8,
    pub v: u8,
}

impl TexCoord {
    /// U in bits 0-7, V in bits 8-15 of a texture coordinate word.
    pub fn from_u32(word: u32) -> (t: TexCoord)
        ensures
            t.u == (word & 0xFF) as u8,
            t.v == ((word >> 8u32) & 0xFF) as u8,
    {
        TexCoord { u: (word & 0xFF) as u8, v: ((word >> 8u32) & 0xFF) as u8 }
    }
}

/// Texel format of a texture page.
#[derive(Debug, Clone, Copy, PartialEq, Eq, Structural)]
pub enum TextureDepth {
    /// 4-bit CLUT indices, four texels per VRAM halfword.
    T4Bit,
    /// 8-bit CLUT indices, two texels per VRAM halfword.
    T8Bit,
    /// Direct 15-bit colours.
    T15Bit,
}

/// The texture depth of a 2-bit field; the reserved value 3 means 15-bit.
pub open spec fn texture_depth_spec(bits: u8) -> TextureDepth {
    if bits & 3 == 0 {
        TextureDepth::T4Bit
    } else if bits & 3 == 1 {
        TextureDepth::T8Bit
    } else {
        TextureDepth::T15Bit
    }
}

impl TextureDepth {
    /// Decode the 2-bit texture depth field.
    pub fn from_bits(bits: u8) -> (d: TextureDepth)
        ensures
            d == texture_depth_spec(bits),
    {
        let b = bits & 3;
        if b == 0 {
            TextureDepth::T4Bit
        } else if b == 1 {
            TextureDepth::T8Bit
        } else {
            TextureDepth::T15Bit
        }
    }
}

/// Where a textured primitive reads its texels and colour table.
#[derive(Debug, Clone, Copy, PartialEq, Eq, Structural)]
pub struct TextureInfo {
    /// Texture page X base in VRAM pixels.
    pub page_x: u16,
    /// Texture page Y base in VRAM lines.
    pub page_y: u16,
    /// Colour table X in VRAM pixels.
    pub clut_x: u16,
    /// Colour table Y in VRAM lines.
    pub clut_y: u16,
    /// Texel format.
    pub depth: TextureDepth,
}

/// Semi-transparency formula applied between the background B and the
/// foreground F, per 5-bit channel.
#[derive(Debug, Clone, Copy, PartialEq, Eq, Structural)]
pub enum BlendMode {
    /// B/2 + F/2 (computed as (B + F) / 2).
    Average,
    /// min(B + F, 31).
    Additive,
    /// max(B - F, 0).
    Subtractive,
    /// min(B + F/4, 31).
    AddQuarter,
}

/// The blend mode of the low two bits of a semi-transparency field.
pub open spec fn blend_mode_spec(bits: u8) -> BlendMode {
    if bits & 3 == 0 {
        BlendMode::Average
    } else if bits & 3 == 1 {
        BlendMode::Additive
    } else if bits & 3 == 2 {
        BlendMode::Subtractive
    } else {
        BlendMode::AddQuarter
    }
}

/// One 5-bit channel blended.
pub open spec fn blend_channel_spec(mode: BlendMode, b: u16, f: u16) -> u16 {
    match mode {
        BlendMode::Average => ((b + f) / 2) as u16,
        BlendMode::Additive => if b + f > 31 { 31 } else { (b + f) as u16 },
        BlendMode::Subtractive => if b < f { 0 } else { (b - f) as u16 },
        BlendMode::AddQuarter => if b + f / 4 > 31 { 31 } else { (b + f / 4) as u16 },
    }
}

/// Two 15-bit colours blended channel by channel; bit 15 of the result is 0.
pub open spec fn blend_spec(mode: BlendMode, background: u16, foreground: u16) -> u16 {
    pack15_spec(
        blend_channel_spec(mode, red5(background), red5(foreground)),
        blend_channel_spec(mode, green5(background), green5(foreground)),
        blend_channel_spec(mode, blue5(background), blue5(foreground)),
    )
}

impl BlendMode {
    /// The blend mode of a 2-bit semi-transparency field (higher bits ignored).
    pub fn from_bits(bits: u8) -> (m: BlendMode)
        ensures
            m == blend_mode_spec(bits),
    {
        let b = bits & 3;
        if b == 0 {
            BlendMode::Average
        } else if b == 1 {
            BlendMode::Additive
        } else if b == 2 {
            BlendMode::Subtractive
        } else {
            BlendMode::AddQuarter
        }
    }

    /// Blend one 5-bit channel.
    pub fn blend_channel(&self, b: u16, f: u16) -> (r: u16)
        requires
            b < 32,
            f < 32,
        ensures
            r == blend_channel_spec(*self, b, f),
            r < 32,
    {
        match self {
            BlendMode::Average => (b + f) / 2,
            BlendMode::Additive => if b + f > 31 { 31 } else { b + f },
            BlendMode::Subtractive => if b < f { 0 } else { b - f },
            BlendMode::AddQuarter => if b + f / 4 > 31 { 31 } else { b + f / 4 },
        }
    }

    /// Blend a foreground colour onto a background colour.
    pub fn blend(&self, background: u16, foreground: u16) -> (r: u16)
        ensures
            r == blend_spec(*self, background, foreground),
            r <= 0x7FFF,
    {
        proof { lemma_channels(background); lemma_channels(foreground); }
        let r = self.blend_channel(background & 0x1F, foreground & 0x1F);
        let g = self.blend_channel((background >> 5u16) & 0x1F, (foreground >> 5u16) & 0x1F);
        let b = self.blend_channel((background >> 10u16) & 0x1F, (foreground >> 10u16) & 0x1F);
        proof { lemma_pack15(r, g, b); }
        (b << 10u16) | (g << 5u16) | r
    }
}

/// Each channel of a 15-bit colour is below 32.
pub proof fn lemma_channels(c: u16)
    ensures
        red5(c) < 32,
        green5(c) < 32,
        blue5(c) < 32,
{
    assert(c & 0x1F < 32 && (c >> 5u16) & 0x1F < 32 && (c >> 10u16) & 0x1F < 32) by (bit_vector);
}

/// Blending keeps each channel within the two inputs' range for the average,
/// saturates instead of wrapping for the additive modes, and never goes below
/// zero for the subtractive one; blending never sets bit 15.
pub proof fn law_blend_channels(mode: BlendMode, background: u16, foreground: u16)
    ensures
        blend_spec(mode, background, foreground) <= 0x7FFF,
        red5(blend_spec(mode, background, foreground)) == blend_channel_spec(
            mode,
            red5(background),
            red5(foreground),
        ),
        green5(blend_spec(mode, background, foreground)) == blend_channel_spec(
            mode,
            green5(background),
            green5(foreground),
        ),
        blue5(blend_spec(mode, background, foreground)) == blend_channel_spec(
            mode,
            blue5(background),
            blue5(foreground),
        ),
        mode == BlendMode::Additive ==> red5(blend_spec(mode, background, foreground)) >= red5(
            background,
        ),
        mode == BlendMode::Subtractive ==> red5(blend_spec(mode, background, foreground))
            <= red5(background),
{
    lemma_channels(background);
    lemma_channels(foreground);
    let r = blend_channel_spec(mode, red5(background), red5(foreground));
    let g = blend_channel_spec(mode, green5(background), green5(foreground));
    let b = blend_channel_spec(mode, blue5(background), blue5(foreground));
    lemma_pack15(r, g, b);
}

} // verus!
