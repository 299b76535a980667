//! Software rasterizer over the 1024x512 15-bit VRAM: pixel writes with
//! optional blending, clipped scanlines, rectangles (flat and textured),
//! texture sampling and colour conversions.

use vstd::prelude::*;

use super::primitives::{
    BlendMode, Color, TextureDepth, TextureInfo, blend_mode_spec, blend_spec, lemma_rgb15_bound,
    rgb15_spec,
};
use super::registers::{DrawMode, DrawingArea, TextureWindow};

verus! {

/// VRAM width in pixels.
pub const VRAM_WIDTH: usize = 1024;
/// VRAM height in lines.
pub const VRAM_HEIGHT: usize = 512;
/// Number of 16-bit pixels in VRAM.
pub const VRAM_SIZE: usize = 524288;

/// Column of a VRAM index.
pub open spec fn px_col(i: int) -> int {
    i % 1024
}

/// Line of a VRAM index.
pub open spec fn px_row(i: int) -> int {
    i / 1024
}

/// Whether (x, y) lies inside VRAM.
pub open spec fn in_vram(x: int, y: int) -> bool {
    0 <= x < 1024 && 0 <= y < 512
}

/// VRAM with pixel (x, y) set to `c`; unchanged when (x, y) lies outside VRAM.
pub open spec fn put_pixel_spec(vram: Seq<u16>, x: int, y: int, c: u16) -> Seq<u16> {
    if in_vram(x, y) {
        vram.update(y * 1024 + x, c)
    } else {
        vram
    }
}

/// The pixel at (x, y), or 0 outside VRAM.
pub open spec fn vram_pixel_spec(vram: Seq<u16>, x: int, y: int) -> u16 {
    if in_vram(x, y) {
        vram[y * 1024 + x]
    } else {
        0
    }
}

/// VRAM with `f` applied to every pixel of line `y` whose column lies in [lo, hi].
pub open spec fn span_spec(vram: Seq<u16>, y: int, lo: int, hi: int, f: spec_fn(u16) -> u16) -> Seq<u16> {
    Seq::new(
        vram.len(),
        |i: int|
            if px_row(i) == y && lo <= px_col(i) <= hi {
                f(vram[i])
            } else {
                vram[i]
            },
    )
}

/// VRAM with `f` applied to every pixel whose column lies in [x1, x2) and
/// whose line lies in [y1, y2).
pub open spec fn box_spec(vram: Seq<u16>, x1: int, y1: int, x2: int, y2: int, f: spec_fn(u16) -> u16) -> Seq<u16> {
    Seq::new(
        vram.len(),
        |i: int|
            if x1 <= px_col(i) < x2 && y1 <= px_row(i) < y2 {
                f(vram[i])
            } else {
                vram[i]
            },
    )
}

/// The pixel transformation of an opaque fill.
pub open spec fn fill_with(c: u16) -> spec_fn(u16) -> u16 {
    |b: u16| c
}

/// The pixel transformation of a blended fill.
pub open spec fn blend_with(mode: BlendMode, c: u16) -> spec_fn(u16) -> u16 {
    |b: u16| blend_spec(mode, b, c)
}

pub open spec fn min_int(a: int, b: int) -> int {
    if a <= b {
        a
    } else {
        b
    }
}

pub open spec fn max_int(a: int, b: int) -> int {
    if a >= b {
        a
    } else {
        b
    }
}

/// A scanline from x1 to x2 (in either order) on line y, clipped to `clip`
/// (left, top, right, bottom, inclusive).
pub open spec fn scanline_spec(
    vram: Seq<u16>,
    clip: (i16, i16, i16, i16),
    y: i16,
    x1: i16,
    x2: i16,
    f: spec_fn(u16) -> u16,
) -> Seq<u16> {
    if y < clip.1 || y > clip.3 {
        vram
    } else {
        span_spec(
            vram,
            y as int,
            max_int(min_int(x1 as int, x2 as int), clip.0 as int),
            min_int(max_int(x1 as int, x2 as int), clip.2 as int),
            f,
        )
    }
}

/// i16 addition saturating at the type's bounds.
pub open spec fn sat_add_i16_spec(a: i16, b: i16) -> i16 {
    if a + b > i16::MAX {
        i16::MAX
    } else if a + b < i16::MIN {
        i16::MIN
    } else {
        (a + b) as i16
    }
}

/// i16 addition wrapping around.
pub open spec fn wrap_add_i16_spec(a: i16, b: i16) -> i16 {
    vstd::wrapping::i16_specs::wrapping_add(a, b)
}

/// The clipped extent [x1, x2) x [y1, y2) of a rectangle drawn at (x, y)
/// plus the drawing offset, with the given size, inside the drawing area.
pub open spec fn rect_extent_spec(
    area: DrawingArea,
    offset: (i16, i16),
    x: i16,
    y: i16,
    width: u16,
    height: u16,
) -> (int, int, int, int) {
    let x0 = wrap_add_i16_spec(x, offset.0);
    let y0 = wrap_add_i16_spec(y, offset.1);
    let xe = sat_add_i16_spec(x0, width as i16);
    let ye = sat_add_i16_spec(y0, height as i16);
    (
        max_int(x0 as int, (area.left as i16) as int),
        max_int(y0 as int, (area.top as i16) as int),
        min_int(xe as int, (area.right as i16) + 1),
        min_int(ye as int, (area.bottom as i16) + 1),
    )
}

/// Whether a drawing area's right and bottom edges can be made exclusive
/// without leaving the i16 range.
pub open spec fn area_ok(area: DrawingArea) -> bool {
    (area.right as i16) < i16::MAX && (area.bottom as i16) < i16::MAX
}

/// A 15-bit colour as 8-bit red, green and blue.
pub open spec fn rgb24_spec(c: u16) -> (u8, u8, u8) {
    (((c & 0x1F) << 3u16) as u8, (((c >> 5u16) & 0x1F) << 3u16) as u8, (((c >> 10u16) & 0x1F)
        << 3u16) as u8)
}

/// The texture window applied to a texel coordinate: masked bits are taken
/// from the offset (mask and offset are in units of 8).
pub open spec fn window_spec(t: u8, mask: u8, offset: u8) -> u8 {
    (t & !((mask * 8) as u8)) | ((offset * 8) as u8 & (mask * 8) as u8)
}

/// The VRAM word holding the texel at (u, v) of a page, with the given
/// number of texels per word (4, 2 or 1).
pub open spec fn texel_word_spec(vram: Seq<u16>, u: u8, v: u8, info: TextureInfo, per_word: int) -> u16 {
    vram_pixel_spec(
        vram,
        ((info.page_x + (u as int) / per_word) as u32 & 0x3FF) as int,
        ((info.page_y + v as int) as u32 & 0x1FF) as int,
    )
}

/// The CLUT index of a 4-bit texel.
pub open spec fn index4_spec(vram: Seq<u16>, u: u8, v: u8, info: TextureInfo) -> u16 {
    (texel_word_spec(vram, u, v, info, 4) >> ((u % 4) * 4) as u16) & 0xF
}

/// The CLUT index of an 8-bit texel.
pub open spec fn index8_spec(vram: Seq<u16>, u: u8, v: u8, info: TextureInfo) -> u16 {
    if u % 2 == 0 {
        texel_word_spec(vram, u, v, info, 2) & 0xFF
    } else {
        (texel_word_spec(vram, u, v, info, 2) >> 8u16) & 0xFF
    }
}

/// The CLUT entry `index` (the CLUT X coordinate wraps at 16 bits and is
/// read as a signed coordinate).
pub open spec fn clut_entry_spec(vram: Seq<u16>, info: TextureInfo, index: u16) -> u16 {
    vram_pixel_spec(
        vram,
        ((info.clut_x + index) as u16 as i16) as int,
        (info.clut_y as i16) as int,
    )
}

/// The colour of texel (u, v) of a texture.
pub open spec fn sample_spec(vram: Seq<u16>, u: u8, v: u8, info: TextureInfo) -> (u8, u8, u8) {
    match info.depth {
        TextureDepth::T4Bit => rgb24_spec(clut_entry_spec(vram, info, index4_spec(vram, u, v, info))),
        TextureDepth::T8Bit => rgb24_spec(clut_entry_spec(vram, info, index8_spec(vram, u, v, info))),
        TextureDepth::T15Bit => rgb24_spec(texel_word_spec(vram, u, v, info, 1)),
    }
}

/// The 15-bit colour of an 8-bit texel colour.
pub open spec fn texel15_spec(t: (u8, u8, u8)) -> u16 {
    (((t.2 >> 3u8) as u16) << 10u16) | (((t.1 >> 3u8) as u16) << 5u16) | ((t.0 >> 3u8) as u16)
}

/// A texel colour modulated by a colour (128 is neutral), as 15 bits.
pub open spec fn modulate_spec(t: (u8, u8, u8), c: Color) -> u16 {
    let r = ((t.0 as int * c.r as int) / 128) as u8;
    let g = ((t.1 as int * c.g as int) / 128) as u8;
    let b = ((t.2 as int * c.b as int) / 128) as u8;
    (((b >> 3u8) as u16) << 10u16) | (((g >> 3u8) as u16) << 5u16) | ((r >> 3u8) as u16)
}

/// The parameters of a textured rectangle, resolved.
pub struct TexRect {
    /// Unclipped top-left corner (after the drawing offset).
    pub x0: int,
    pub y0: int,
    /// Clipped extent [cx1, cx2) x [cy1, cy2).
    pub cx1: int,
    pub cy1: int,
    pub cx2: int,
    pub cy2: int,
    pub tex_u: u8,
    pub tex_v: u8,
    pub info: TextureInfo,
    pub color: Color,
    pub semi: bool,
    pub modulated: bool,
    pub mode: BlendMode,
}

/// VRAM after drawing pixel (x, y) of a textured rectangle, reading texels
/// from the VRAM as it is at that point: fully black texels of 4-bit and
/// 8-bit textures are transparent.
pub open spec fn tex_pixel_spec(vram: Seq<u16>, p: TexRect, x: int, y: int) -> Seq<u16> {
    if !in_vram(x, y) {
        vram
    } else {
    let u = ((p.tex_u as int + (x - p.x0)) % 256) as u8;
    let v = ((p.tex_v as int + (y - p.y0)) % 256) as u8;
    let t = sample_spec(vram, u, v, p.info);
    let t15 = texel15_spec(t);
    if t15 == 0 && p.info.depth != TextureDepth::T15Bit {
        vram
    } else {
        let c = if p.modulated {
            modulate_spec(t, p.color)
        } else {
            t15
        };
        let idx = y * 1024 + x;
        vram.update(idx, if p.semi { blend_spec(p.mode, vram[idx], c) } else { c })
    }
    }
}

/// VRAM after drawing the pixels [cx1, x_end) of line y, left to right.
pub open spec fn tex_row_spec(vram: Seq<u16>, p: TexRect, y: int, x_end: int) -> Seq<u16>
    decreases x_end - p.cx1,
{
    if x_end <= p.cx1 {
        vram
    } else {
        tex_pixel_spec(tex_row_spec(vram, p, y, x_end - 1), p, x_end - 1, y)
    }
}

/// VRAM after drawing the lines [cy1, y_end) of a textured rectangle, top to bottom.
pub open spec fn tex_rows_spec(vram: Seq<u16>, p: TexRect, y_end: int) -> Seq<u16>
    decreases y_end - p.cy1,
{
    if y_end <= p.cy1 {
        vram
    } else {
        tex_row_spec(tex_rows_spec(vram, p, y_end - 1), p, y_end - 1, p.cx2)
    }
}

/// The VRAM word that a texel of a texture takes its colour from: the
/// colour table entry selected by the texel's index for 4-bit and 8-bit
/// textures, the texel word itself for 15-bit textures.
pub open spec fn texel_source_spec(vram: Seq<u16>, u: u8, v: u8, info: TextureInfo) -> u16 {
    match info.depth {
        TextureDepth::T4Bit => clut_entry_spec(vram, info, index4_spec(vram, u, v, info)),
        TextureDepth::T8Bit => clut_entry_spec(vram, info, index8_spec(vram, u, v, info)),
        TextureDepth::T15Bit => texel_word_spec(vram, u, v, info, 1),
    }
}

/// Converting a 15-bit colour to 8-bit channels and back keeps its colour
/// bits.
proof fn lemma_texel15_rgb24(e: u16)
    ensures
        texel15_spec(rgb24_spec(e)) == e & 0x7FFF,
{
    let r = ((e & 0x1F) << 3u16) as u8;
    let g = (((e >> 5u16) & 0x1F) << 3u16) as u8;
    let b = (((e >> 10u16) & 0x1F) << 3u16) as u8;
    assert((((b >> 3u8) as u16) << 10u16) | (((g >> 3u8) as u16) << 5u16) | ((r >> 3u8) as u16)
        == e & 0x7FFF) by (bit_vector)
        requires
            r == ((e & 0x1F) << 3u16) as u8,
            g == (((e >> 5u16) & 0x1F) << 3u16) as u8,
            b == (((e >> 10u16) & 0x1F) << 3u16) as u8,
    ;
}

/// A textured-rectangle pixel inside VRAM: when the texture is 4-bit or
/// 8-bit and the colour-table entry of its texel has no colour bits set
/// (black), the pixel is transparent and VRAM is unchanged; otherwise, and
/// for every texel of a 15-bit texture, an opaque unmodulated draw writes
/// the colour bits of the texel's source word to that pixel and nothing else.
pub proof fn law_textured_pixel_transparency(vram: Seq<u16>, p: TexRect, x: int, y: int)
    requires
        vram.len() == VRAM_SIZE,
        in_vram(x, y),
    ensures
        ({
            let u = ((p.tex_u as int + (x - p.x0)) % 256) as u8;
            let v = ((p.tex_v as int + (y - p.y0)) % 256) as u8;
            let e = texel_source_spec(vram, u, v, p.info);
            let r = tex_pixel_spec(vram, p, x, y);
            &&& p.info.depth != TextureDepth::T15Bit && e & 0x7FFF == 0 ==> r == vram
            &&& (p.info.depth == TextureDepth::T15Bit || e & 0x7FFF != 0) && !p.semi && !p.modulated
                ==> r == vram.update(y * 1024 + x, e & 0x7FFF)
        }),
{
    let u = ((p.tex_u as int + (x - p.x0)) % 256) as u8;
    let v = ((p.tex_v as int + (y - p.y0)) % 256) as u8;
    lemma_texel15_rgb24(texel_source_spec(vram, u, v, p.info));
}

/// Index arithmetic of VRAM positions.
pub proof fn lemma_index(x: int, y: int)
    requires
        0 <= x < 1024,
        0 <= y,
    ensures
        px_col(y * 1024 + x) == x,
        px_row(y * 1024 + x) == y,
{
    vstd::arithmetic::div_mod::lemma_fundamental_div_mod_converse(y * 1024 + x, 1024, y, x);
}

/// Every VRAM index is the position of its column and line.
pub proof fn lemma_index_inverse(i: int)
    requires
        0 <= i < 524288,
    ensures
        0 <= px_col(i) < 1024,
        0 <= px_row(i) < 512,
        i == px_row(i) * 1024 + px_col(i),
{
    vstd::arithmetic::div_mod::lemma_fundamental_div_mod(i, 1024);
}

/// The rasterizer: holds the clip rectangle used by scanlines and lines.
pub struct Rasterizer {
    clip_rect: (i16, i16, i16, i16),
}

impl Rasterizer {
    /// The clip rectangle (left, top, right, bottom), inclusive.
    pub closed spec fn clip_spec(&self) -> (i16, i16, i16, i16) {
        self.clip_rect
    }

    /// A rasterizer clipping to the whole of VRAM.
    pub fn new() -> (r: Self)
        ensures
            r.clip_spec() == (0i16, 0i16, 1023i16, 511i16),
    {
        Rasterizer { clip_rect: (0, 0, 1023, 511) }
    }

    /// Set the clip rectangle (inclusive bounds).
    pub fn set_clip_rect(&mut self, left: i16, top: i16, right: i16, bottom: i16)
        ensures
            final(self).clip_spec() == (left, top, right, bottom),
    {
        self.clip_rect = (left, top, right, bottom);
    }

    /// The clip rectangle (left, top, right, bottom), inclusive.
    pub fn clip_rect(&self) -> (r: (i16, i16, i16, i16))
        ensures
            r == self.clip_spec(),
    {
        self.clip_rect
    }

    /// Write a pixel; positions outside VRAM are ignored.
    pub fn write_pixel(vram: &mut [u16], x: i16, y: i16, color: u16)
        requires
            old(vram)@.len() == VRAM_SIZE,
        ensures
            final(vram)@ == put_pixel_spec(old(vram)@, x as int, y as int, color),
    {
        if !(0 <= x && x < 1024) || !(0 <= y && y < 512) {
            return;
        }
        let index = (y as usize) * 1024 + (x as usize);
        vram[index] = color;
    }

    /// Blend a pixel onto VRAM with the given mode; positions outside VRAM
    /// are ignored.
    pub fn write_pixel_blended(
        &mut self,
        vram: &mut [u16],
        x: i16,
        y: i16,
        color: u16,
        blend_mode: BlendMode,
    )
        requires
            old(vram)@.len() == VRAM_SIZE,
        ensures
            *final(self) == *old(self),
            final(vram)@ == put_pixel_spec(
                old(vram)@,
                x as int,
                y as int,
                blend_spec(blend_mode, vram_pixel_spec(old(vram)@, x as int, y as int), color),
            ),
    {
        if !(0 <= x && x < 1024) || !(0 <= y && y < 512) {
            return;
        }
        let index = (y as usize) * 1024 + (x as usize);
        let background = vram[index];
        let blended = blend_mode.blend(background, color);
        vram[index] = blended;
    }

    /// The pixel at (x, y), or 0 outside VRAM.
    pub fn read_vram_pixel(vram: &[u16], x: i16, y: i16) -> (r: u16)
        requires
            vram@.len() == VRAM_SIZE,
        ensures
            r == vram_pixel_spec(vram@, x as int, y as int),
    {
        if !(0 <= x && x < 1024) || !(0 <= y && y < 512) {
            return 0;
        }
        let index = (y as usize) * 1024 + (x as usize);
        vram[index]
    }

    /// Fill the span between x1 and x2 (either order) on line y with `color`,
    /// clipped to the clip rectangle.
    pub fn draw_scanline(&mut self, vram: &mut [u16], y: i16, x1: i16, x2: i16, color: u16)
        requires
            old(vram)@.len() == VRAM_SIZE,
        ensures
            *final(self) == *old(self),
            final(vram)@ == scanline_spec(old(vram)@, old(self).clip_spec(), y, x1, x2, fill_with(color)),
    {
        let (a, b) = if x1 > x2 {
            (x2, x1)
        } else {
            (x1, x2)
        };
        let (clip_left, clip_top, clip_right, clip_bottom) = self.clip_rect;
        if y < clip_top || y > clip_bottom {
            return;
        }
        let lo: i16 = if a > clip_left {
            a
        } else {
            clip_left
        };
        let hi: i16 = if b < clip_right {
            b
        } else {
            clip_right
        };
        if lo > hi {
            proof {
                assert(old(vram)@ =~= span_spec(old(vram)@, y as int, lo as int, hi as int, fill_with(color)));
            }
            return;
        }
        let ghost old_vram = old(vram)@;
        let mut x: i32 = lo as i32;
        while x <= hi as i32
            invariant
                vram@.len() == VRAM_SIZE,
                old_vram.len() == VRAM_SIZE,
                lo <= x <= hi as i32 + 1,
                forall|i: int|
                    0 <= i < VRAM_SIZE ==> #[trigger] vram@[i] == (if px_row(i) == y && lo
                        <= px_col(i) < x { color } else { old_vram[i] }),
            decreases hi as i32 + 1 - x,
        {
            let ghost before = vram@;
            Self::write_pixel(vram, x as i16, y, color);
            proof {
                assert forall|i: int| 0 <= i < VRAM_SIZE implies #[trigger] vram@[i] == (if px_row(i)
                    == y && lo <= px_col(i) < x + 1 { color } else { old_vram[i] }) by {
                    lemma_index_inverse(i);
                    if in_vram(x as int, y as int) {
                        lemma_index(x as int, y as int);
                    }
                }
            }
            x = x + 1;
        }
        proof {
            let f = fill_with(color);
            assert(vram@ =~= span_spec(old_vram, y as int, lo as int, hi as int, f));
        }
    }

    /// Blend the span between x1 and x2 (either order) on line y with
    /// `color`, clipped to the clip rectangle.
    pub fn draw_scanline_blended(
        &mut self,
        vram: &mut [u16],
        y: i16,
        x1: i16,
        x2: i16,
        color: u16,
        blend_mode: BlendMode,
    )
        requires
            old(vram)@.len() == VRAM_SIZE,
        ensures
            *final(self) == *old(self),
            final(vram)@ == scanline_spec(
                old(vram)@,
                old(self).clip_spec(),
                y,
                x1,
                x2,
                blend_with(blend_mode, color),
            ),
    {
        let (a, b) = if x1 > x2 {
            (x2, x1)
        } else {
            (x1, x2)
        };
        let (clip_left, clip_top, clip_right, clip_bottom) = self.clip_rect;
        if y < clip_top || y > clip_bottom {
            return;
        }
        let lo: i16 = if a > clip_left {
            a
        } else {
            clip_left
        };
        let hi: i16 = if b < clip_right {
            b
        } else {
            clip_right
        };
        if lo > hi {
            proof {
                assert(old(vram)@ =~= span_spec(old(vram)@, y as int, lo as int, hi as int, blend_with(blend_mode, color)));
            }
            return;
        }
        let ghost old_vram = old(vram)@;
        let ghost g = blend_with(blend_mode, color);
        let mut x: i32 = lo as i32;
        while x <= hi as i32
            invariant
                vram@.len() == VRAM_SIZE,
                old_vram.len() == VRAM_SIZE,
                lo <= x <= hi as i32 + 1,
                g == blend_with(blend_mode, color),
                forall|i: int|
                    0 <= i < VRAM_SIZE ==> #[trigger] vram@[i] == (if px_row(i) == y && lo
                        <= px_col(i) < x { g(old_vram[i]) } else { old_vram[i] }),
                *self == *old(self),
            decreases hi as i32 + 1 - x,
        {
            self.write_pixel_blended(vram, x as i16, y, color, blend_mode);
            proof {
                assert forall|i: int| 0 <= i < VRAM_SIZE implies #[trigger] vram@[i] == (if px_row(i)
                    == y && lo <= px_col(i) < x + 1 { g(old_vram[i]) } else { old_vram[i] }) by {
                    lemma_index_inverse(i);
                    if in_vram(x as int, y as int) {
                        lemma_index(x as int, y as int);
                    }
                }
            }
            x = x + 1;
        }
        proof {
            assert(vram@ =~= span_spec(old_vram, y as int, lo as int, hi as int, g));
        }
    }

    /// 8-bit channels to a 15-bit colour (top 5 bits of each channel).
    pub fn rgb_to_rgb15(r: u8, g: u8, b: u8) -> (c: u16)
        ensures
            c == rgb15_spec(r, g, b),
            c <= 0x7FFF,
    {
        proof { lemma_rgb15_bound(r, g, b); }
        (((b >> 3u8) as u16) << 10u16) | (((g >> 3u8) as u16) << 5u16) | ((r >> 3u8) as u16)
    }

    /// A 15-bit colour to 8-bit channels (each 5-bit channel shifted left by 3).
    pub fn rgb15_to_rgb24(color: u16) -> (c: (u8, u8, u8))
        ensures
            c == rgb24_spec(color),
    {
        let r = ((color & 0x1F) << 3u16) as u8;
        let g = (((color >> 5u16) & 0x1F) << 3u16) as u8;
        let b = (((color >> 10u16) & 0x1F) << 3u16) as u8;
        (r, g, b)
    }

    /// Apply a texture window to a texel coordinate.
    pub fn apply_texture_window(&self, u: u8, v: u8, window: &TextureWindow) -> (r: (u8, u8))
        ensures
            r == (window_spec(u, window.mask_x, window.offset_x), window_spec(v, window.mask_y, window.offset_y)),
    {
        let mask_x = (window.mask_x as u32 * 8) as u8;
        let mask_y = (window.mask_y as u32 * 8) as u8;
        let offset_x = (window.offset_x as u32 * 8) as u8;
        let offset_y = (window.offset_y as u32 * 8) as u8;
        let u = (u & !mask_x) | (offset_x & mask_x);
        let v = (v & !mask_y) | (offset_y & mask_y);
        (u, v)
    }
}


impl Default for Rasterizer {
    /// The same as [`Rasterizer::new`].
    fn default() -> (r: Self)
        ensures
            r.clip_spec() == (0i16, 0i16, 1023i16, 511i16),
    {
        Self::new()
    }
}

/// i16 addition saturating at the type's bounds.
pub fn sat_add_i16(a: i16, b: i16) -> (r: i16)
    ensures
        r == sat_add_i16_spec(a, b),
{
    let s = a as i32 + b as i32;
    if s > i16::MAX as i32 {
        i16::MAX
    } else if s < i16::MIN as i32 {
        i16::MIN
    } else {
        s as i16
    }
}

/// The larger of two i16 values.
pub fn max_i16(a: i16, b: i16) -> (r: i16)
    ensures
        r as int == max_int(a as int, b as int),
{
    if a >= b {
        a
    } else {
        b
    }
}

/// The smaller of two i16 values.
pub fn min_i16(a: i16, b: i16) -> (r: i16)
    ensures
        r as int == min_int(a as int, b as int),
{
    if a <= b {
        a
    } else {
        b
    }
}

/// Drawing the pixels of a line that lies outside VRAM changes nothing.
pub proof fn lemma_tex_row_outside(vram: Seq<u16>, p: TexRect, y: int, x_end: int)
    requires
        !(0 <= y < 512),
    ensures
        tex_row_spec(vram, p, y, x_end) == vram,
    decreases x_end - p.cx1,
{
    if x_end > p.cx1 {
        lemma_tex_row_outside(vram, p, y, x_end - 1);
    }
}

impl Rasterizer {
    /// Sample a 4-bit texel: the 4-bit index selects an entry of the colour table.
    pub fn sample_4bit_texture(&self, vram: &[u16], u: u8, v: u8, info: &TextureInfo) -> (r: (u8, u8, u8))
        requires
            vram@.len() == VRAM_SIZE,
        ensures
            r == rgb24_spec(clut_entry_spec(vram@, *info, index4_spec(vram@, u, v, *info))),
    {
        let tex_x = ((info.page_x as u32 + (u as u32 / 4)) & 0x3FF) as u16;
        let tex_y = ((info.page_y as u32 + v as u32) & 0x1FF) as u16;
        proof {
            let a = (info.page_x as u32 + (u as u32 / 4)) as u32;
            let b = (info.page_y as u32 + v as u32) as u32;
            assert(a & 0x3FF <= 0x3FF && b & 0x1FF <= 0x1FF) by (bit_vector);
        }
        let index_word = Self::read_vram_pixel(vram, tex_x as i16, tex_y as i16);
        let shift = ((u % 4) * 4) as u16;
        let index = (index_word >> shift) & 0xF;
        let clut_x = ((info.clut_x as u32 + index as u32) as u16) as i16;
        let color = Self::read_vram_pixel(vram, clut_x, info.clut_y as i16);
        Self::rgb15_to_rgb24(color)
    }

    /// Sample an 8-bit texel: the 8-bit index selects an entry of the colour table.
    pub fn sample_8bit_texture(&self, vram: &[u16], u: u8, v: u8, info: &TextureInfo) -> (r: (u8, u8, u8))
        requires
            vram@.len() == VRAM_SIZE,
        ensures
            r == rgb24_spec(clut_entry_spec(vram@, *info, index8_spec(vram@, u, v, *info))),
    {
        let tex_x = ((info.page_x as u32 + (u as u32 / 2)) & 0x3FF) as u16;
        let tex_y = ((info.page_y as u32 + v as u32) & 0x1FF) as u16;
        proof {
            let a = (info.page_x as u32 + (u as u32 / 2)) as u32;
            let b = (info.page_y as u32 + v as u32) as u32;
            assert(a & 0x3FF <= 0x3FF && b & 0x1FF <= 0x1FF) by (bit_vector);
        }
        let index_word = Self::read_vram_pixel(vram, tex_x as i16, tex_y as i16);
        let index = if u % 2 == 0 {
            index_word & 0xFF
        } else {
            (index_word >> 8u16) & 0xFF
        };
        let clut_x = ((info.clut_x as u32 + index as u32) as u16) as i16;
        let color = Self::read_vram_pixel(vram, clut_x, info.clut_y as i16);
        Self::rgb15_to_rgb24(color)
    }

    /// Sample a 15-bit texel: the VRAM pixel itself.
    pub fn sample_15bit_texture(&self, vram: &[u16], u: u8, v: u8, info: &TextureInfo) -> (r: (u8, u8, u8))
        requires
            vram@.len() == VRAM_SIZE,
        ensures
            r == rgb24_spec(texel_word_spec(vram@, u, v, *info, 1)),
    {
        let tex_x = ((info.page_x as u32 + u as u32) & 0x3FF) as u16;
        let tex_y = ((info.page_y as u32 + v as u32) & 0x1FF) as u16;
        proof {
            let a = (info.page_x as u32 + u as u32) as u32;
            let b = (info.page_y as u32 + v as u32) as u32;
            assert(a & 0x3FF <= 0x3FF && b & 0x1FF <= 0x1FF) by (bit_vector);
        }
        let color = Self::read_vram_pixel(vram, tex_x as i16, tex_y as i16);
        Self::rgb15_to_rgb24(color)
    }

    /// Sample a texel of any depth after applying the texture window.
    pub fn sample_texture(
        &self,
        vram: &[u16],
        u: u8,
        v: u8,
        info: &TextureInfo,
        window: &TextureWindow,
    ) -> (r: (u8, u8, u8))
        requires
            vram@.len() == VRAM_SIZE,
        ensures
            r == sample_spec(
                vram@,
                window_spec(u, window.mask_x, window.offset_x),
                window_spec(v, window.mask_y, window.offset_y),
                *info,
            ),
    {
        let (u, v) = self.apply_texture_window(u, v, window);
        match info.depth {
            TextureDepth::T4Bit => self.sample_4bit_texture(vram, u, v, info),
            TextureDepth::T8Bit => self.sample_8bit_texture(vram, u, v, info),
            TextureDepth::T15Bit => self.sample_15bit_texture(vram, u, v, info),
        }
    }

    /// Draw a flat rectangle at (x, y) plus the drawing offset, clipped to
    /// the drawing area, opaque or blended with the drawing mode's
    /// semi-transparency.
    pub fn draw_rectangle(
        &mut self,
        vram: &mut [u16],
        draw_mode: &DrawMode,
        draw_area: &DrawingArea,
        draw_offset: (i16, i16),
        x: i16,
        y: i16,
        width: u16,
        height: u16,
        color: &Color,
        semi_transparent: bool,
    )
        requires
            old(vram)@.len() == VRAM_SIZE,
            area_ok(*draw_area),
        ensures
            *final(self) == *old(self),
            ({
                let (x1, y1, x2, y2) = rect_extent_spec(*draw_area, draw_offset, x, y, width, height);
                let c = rgb15_spec(color.r, color.g, color.b);
                final(vram)@ == box_spec(
                    old(vram)@,
                    x1,
                    y1,
                    x2,
                    y2,
                    if semi_transparent {
                        blend_with(blend_mode_spec(draw_mode.semi_transparency), c)
                    } else {
                        fill_with(c)
                    },
                )
            }),
    {
        let x = x.wrapping_add(draw_offset.0);
        let y = y.wrapping_add(draw_offset.1);
        let color15 = color.to_rgb15();
        let x2 = sat_add_i16(x, width as i16);
        let y2 = sat_add_i16(y, height as i16);
        let clip_x1 = max_i16(x, draw_area.left as i16);
        let clip_y1 = max_i16(y, draw_area.top as i16);
        let clip_x2 = min_i16(x2, (draw_area.right as i16) + 1);
        let clip_y2 = min_i16(y2, (draw_area.bottom as i16) + 1);
        let blend_mode = BlendMode::from_bits(draw_mode.semi_transparency);
        let ghost f = if semi_transparent {
            blend_with(blend_mode, color15)
        } else {
            fill_with(color15)
        };
        let ghost old_vram = old(vram)@;
        if clip_x1 >= clip_x2 || clip_y1 >= clip_y2 {
            proof {
                assert(old_vram =~= box_spec(old_vram, clip_x1 as int, clip_y1 as int, clip_x2 as int, clip_y2 as int, f));
            }
            return;
        }
        let mut py: i32 = clip_y1 as i32;
        while py < clip_y2 as i32
            invariant
                vram@.len() == VRAM_SIZE,
                old_vram.len() == VRAM_SIZE,
                clip_y1 <= py <= clip_y2,
                clip_x1 < clip_x2,
                f == (if semi_transparent { blend_with(blend_mode, color15) } else { fill_with(color15) }),
                forall|i: int|
                    0 <= i < VRAM_SIZE ==> #[trigger] vram@[i] == (if clip_x1 <= px_col(i)
                        < clip_x2 && clip_y1 <= px_row(i) < py { f(old_vram[i]) } else {
                        old_vram[i]
                    }),
            decreases clip_y2 - py,
        {
            if 0 <= py && py < 512 {
                let mut px: i32 = clip_x1 as i32;
                while px < clip_x2 as i32
                    invariant
                        vram@.len() == VRAM_SIZE,
                        old_vram.len() == VRAM_SIZE,
                        clip_y1 <= py < clip_y2,
                        0 <= py < 512,
                        clip_x1 <= px <= clip_x2,
                        f == (if semi_transparent { blend_with(blend_mode, color15) } else { fill_with(color15) }),
                        forall|i: int|
                            0 <= i < VRAM_SIZE ==> #[trigger] vram@[i] == (if clip_x1 <= px_col(i)
                                < clip_x2 && clip_y1 <= px_row(i) && (px_row(i) < py || (px_row(i)
                                == py && px_col(i) < px)) { f(old_vram[i]) } else { old_vram[i] }),
                    decreases clip_x2 - px,
                {
                    if 0 <= px && px < 1024 {
                        let idx = (py as usize) * 1024 + (px as usize);
                        proof { lemma_index(px as int, py as int); }
                        if semi_transparent {
                            let bg = vram[idx];
                            vram[idx] = blend_mode.blend(bg, color15);
                        } else {
                            vram[idx] = color15;
                        }
                    }
                    proof {
                        assert forall|i: int| 0 <= i < VRAM_SIZE implies #[trigger] vram@[i] == (if clip_x1
                            <= px_col(i) < clip_x2 && clip_y1 <= px_row(i) && (px_row(i) < py || (
                        px_row(i) == py && px_col(i) < px + 1)) { f(old_vram[i]) } else {
                            old_vram[i]
                        }) by {
                            lemma_index_inverse(i);
                        }
                    }
                    px = px + 1;
                }
            }
            proof {
                assert forall|i: int| 0 <= i < VRAM_SIZE implies #[trigger] vram@[i] == (if clip_x1
                    <= px_col(i) < clip_x2 && clip_y1 <= px_row(i) < py + 1 { f(old_vram[i]) } else {
                    old_vram[i]
                }) by {
                    lemma_index_inverse(i);
                }
            }
            py = py + 1;
        }
        proof {
            assert(vram@ =~= box_spec(old_vram, clip_x1 as int, clip_y1 as int, clip_x2 as int, clip_y2 as int, f));
        }
    }
}

/// Three vertices ordered by Y, keeping the given order among equal Y
/// (a stable sort).
pub open spec fn sort3_spec<T>(a: (i16, i16, T), b: (i16, i16, T), c: (i16, i16, T)) -> ((i16, i16, T), (i16, i16, T), (i16, i16, T)) {
    if a.1 <= b.1 {
        if b.1 <= c.1 {
            (a, b, c)
        } else if a.1 <= c.1 {
            (a, c, b)
        } else {
            (c, a, b)
        }
    } else {
        if a.1 <= c.1 {
            (b, a, c)
        } else if b.1 <= c.1 {
            (b, c, a)
        } else {
            (c, b, a)
        }
    }
}

/// How a triangle is filled with flat-bottom and flat-top halves, its
/// vertices sorted by Y.
#[derive(Debug, Clone, Copy)]
pub enum TrianglePlan {
    /// All three vertices on one line: nothing to draw.
    Empty,
    /// One half with a flat bottom edge (v1, v2) below the apex v0.
    FlatBottom((i16, i16), (i16, i16), (i16, i16)),
    /// One half with a flat top edge (v0, v1) above the apex v2.
    FlatTop((i16, i16), (i16, i16), (i16, i16)),
    /// A general triangle cut at the middle vertex's line into a flat-bottom
    /// half (v0, v1, v3) and a flat-top half (v1, v3, v2).
    Split((i16, i16), (i16, i16), (i16, i16), (i16, i16)),
}

/// Division by a positive divisor, truncated toward zero.
pub open spec fn tdiv(a: int, b: int) -> int {
    if a >= 0 {
        a / b
    } else {
        -((-a) / b)
    }
}

impl Rasterizer {
    /// Sort three vertices by Y (stable).
    pub fn sort_vertices_by_y(v0: (i16, i16), v1: (i16, i16), v2: (i16, i16)) -> (r: ((i16, i16), (i16, i16), (i16, i16)))
        ensures
            ({
                let s = sort3_spec((v0.0, v0.1, ()), (v1.0, v1.1, ()), (v2.0, v2.1, ()));
                r == ((s.0.0, s.0.1), (s.1.0, s.1.1), (s.2.0, s.2.1))
            }),
            r.0.1 <= r.1.1 <= r.2.1,
    {
        if v0.1 <= v1.1 {
            if v1.1 <= v2.1 {
                (v0, v1, v2)
            } else if v0.1 <= v2.1 {
                (v0, v2, v1)
            } else {
                (v2, v0, v1)
            }
        } else {
            if v0.1 <= v2.1 {
                (v1, v0, v2)
            } else if v1.1 <= v2.1 {
                (v1, v2, v0)
            } else {
                (v2, v1, v0)
            }
        }
    }

    /// Sort three coloured vertices by Y (stable), keeping each colour with its vertex.
    pub fn sort_gradient_vertices(
        v0: (i16, i16),
        c0: (u8, u8, u8),
        v1: (i16, i16),
        c1: (u8, u8, u8),
        v2: (i16, i16),
        c2: (u8, u8, u8),
    ) -> (r: ((i16, i16), (u8, u8, u8), (i16, i16), (u8, u8, u8), (i16, i16), (u8, u8, u8)))
        ensures
            ({
                let s = sort3_spec((v0.0, v0.1, c0), (v1.0, v1.1, c1), (v2.0, v2.1, c2));
                r == ((s.0.0, s.0.1), s.0.2, (s.1.0, s.1.1), s.1.2, (s.2.0, s.2.1), s.2.2)
            }),
            r.0.1 <= r.2.1 <= r.4.1,
    {
        if v0.1 <= v1.1 {
            if v1.1 <= v2.1 {
                (v0, c0, v1, c1, v2, c2)
            } else if v0.1 <= v2.1 {
                (v0, c0, v2, c2, v1, c1)
            } else {
                (v2, c2, v0, c0, v1, c1)
            }
        } else {
            if v0.1 <= v2.1 {
                (v1, c1, v0, c0, v2, c2)
            } else if v1.1 <= v2.1 {
                (v1, c1, v2, c2, v0, c0)
            } else {
                (v2, c2, v1, c1, v0, c0)
            }
        }
    }

    /// The bounding box (left, top, right, bottom, inclusive) of a triangle,
    /// clipped to the clip rectangle; empty when right < left or bottom < top.
    pub fn triangle_bounds(&self, v0: (i16, i16), v1: (i16, i16), v2: (i16, i16)) -> (r: (i16, i16, i16, i16))
        ensures
            r.0 as int == max_int(min_int(min_int(v0.0 as int, v1.0 as int), v2.0 as int), self.clip_spec().0 as int),
            r.1 as int == max_int(min_int(min_int(v0.1 as int, v1.1 as int), v2.1 as int), self.clip_spec().1 as int),
            r.2 as int == min_int(max_int(max_int(v0.0 as int, v1.0 as int), v2.0 as int), self.clip_spec().2 as int),
            r.3 as int == min_int(max_int(max_int(v0.1 as int, v1.1 as int), v2.1 as int), self.clip_spec().3 as int),
    {
        let (left, top, right, bottom) = self.clip_rect();
        (
            max_i16(min_i16(min_i16(v0.0, v1.0), v2.0), left),
            max_i16(min_i16(min_i16(v0.1, v1.1), v2.1), top),
            min_i16(max_i16(max_i16(v0.0, v1.0), v2.0), right),
            min_i16(max_i16(max_i16(v0.1, v1.1), v2.1), bottom),
        )
    }

    /// Decide how to fill a triangle: sort the vertices by Y, and for a
    /// general triangle find where the long edge crosses the middle line.
    pub fn plan_triangle(v0: (i16, i16), v1: (i16, i16), v2: (i16, i16)) -> (r: TrianglePlan)
        ensures
            ({
                let s = sort3_spec((v0.0, v0.1, ()), (v1.0, v1.1, ()), (v2.0, v2.1, ()));
                let (a, b, c) = ((s.0.0, s.0.1), (s.1.0, s.1.1), (s.2.0, s.2.1));
                r == (if a.1 == c.1 {
                    TrianglePlan::Empty
                } else if b.1 == c.1 {
                    TrianglePlan::FlatBottom(a, b, c)
                } else if a.1 == b.1 {
                    TrianglePlan::FlatTop(a, b, c)
                } else {
                    TrianglePlan::Split(
                        a,
                        b,
                        ((a.0 + tdiv((b.1 - a.1) * (c.0 - a.0), c.1 - a.1)) as i16, b.1),
                        c,
                    )
                })
            }),
    {
        let (v0, v1, v2) = Self::sort_vertices_by_y(v0, v1, v2);
        if v0.1 == v2.1 {
            return TrianglePlan::Empty;
        }
        if v1.1 == v2.1 {
            TrianglePlan::FlatBottom(v0, v1, v2)
        } else if v0.1 == v1.1 {
            TrianglePlan::FlatTop(v0, v1, v2)
        } else {
            proof {
                assert(-65536 * 65536 < (v1.1 - v0.1) * (v2.0 - v0.0) < 65536 * 65536) by (nonlinear_arith)
                    requires
                        0 < v1.1 - v0.1 < 65536,
                        -65536 < v2.0 - v0.0 < 65536;
            }
            let numerator = (v1.1 as i64 - v0.1 as i64) * (v2.0 as i64 - v0.0 as i64);
            let denominator = v2.1 as i64 - v0.1 as i64;
            let q = if numerator >= 0 {
                numerator / denominator
            } else {
                -((-numerator) / denominator)
            };
            proof {
                lemma_split_between(v0, v1, v2, numerator as int, denominator as int, q as int);
            }
            let v3_x = (v0.0 as i64 + q) as i16;
            TrianglePlan::Split(v0, v1, (v3_x, v1.1), v2)
        }
    }
}

/// The crossing point of the long edge lies between its end points, so it
/// fits in an i16.
proof fn lemma_split_between(v0: (i16, i16), v1: (i16, i16), v2: (i16, i16), n: int, d: int, q: int)
    requires
        v0.1 < v1.1 < v2.1,
        n == (v1.1 - v0.1) * (v2.0 - v0.0),
        d == v2.1 - v0.1,
        q == tdiv(n, d),
    ensures
        q == tdiv((v1.1 - v0.1) * (v2.0 - v0.0), v2.1 - v0.1),
        i16::MIN <= v0.0 + q <= i16::MAX,
{
    let t = v1.1 - v0.1;
    let w = v2.0 - v0.0;
    assert(0 < t < d);
    if w >= 0 {
        assert(n >= 0 && 0 <= n / d <= w) by (nonlinear_arith)
            requires n == t * w, 0 < t < d, w >= 0;
    } else {
        assert(n <= 0 && 0 <= (-n) / d <= -w) by (nonlinear_arith)
            requires n == t * w, 0 < t < d, w < 0;
    }
}


impl Rasterizer {
    /// The resolved parameters of a textured rectangle.
    pub open spec fn tex_rect_spec(
        draw_mode: DrawMode,
        draw_area: DrawingArea,
        draw_offset: (i16, i16),
        x: i16,
        y: i16,
        width: u16,
        height: u16,
        tex_u: u8,
        tex_v: u8,
        info: TextureInfo,
        color: Color,
        semi: bool,
        modulated: bool,
    ) -> TexRect {
        let (cx1, cy1, cx2, cy2) = rect_extent_spec(draw_area, draw_offset, x, y, width, height);
        TexRect {
            x0: wrap_add_i16_spec(x, draw_offset.0) as int,
            y0: wrap_add_i16_spec(y, draw_offset.1) as int,
            cx1,
            cy1,
            cx2,
            cy2,
            tex_u,
            tex_v,
            info,
            color,
            semi,
            modulated,
            mode: blend_mode_spec(draw_mode.semi_transparency),
        }
    }

    /// Draw a textured rectangle at (x, y) plus the drawing offset, clipped
    /// to the drawing area, left to right and top to bottom. The texel for
    /// pixel (px, py) is (tex_u + px - x, tex_v + py - y) modulo 256; black
    /// texels of 4-bit and 8-bit textures are skipped; the texel colour is
    /// optionally modulated by `color` and optionally blended.
    pub fn draw_textured_rectangle(
        &mut self,
        vram: &mut [u16],
        draw_mode: &DrawMode,
        draw_area: &DrawingArea,
        draw_offset: (i16, i16),
        x: i16,
        y: i16,
        width: u16,
        height: u16,
        tex_u: u8,
        tex_v: u8,
        texture_info: &TextureInfo,
        color: &Color,
        semi_transparent: bool,
        modulated: bool,
    )
        requires
            old(vram)@.len() == VRAM_SIZE,
            area_ok(*draw_area),
        ensures
            *final(self) == *old(self),
            final(vram)@.len() == VRAM_SIZE,
            ({
                let p = Self::tex_rect_spec(*draw_mode, *draw_area, draw_offset, x, y, width, height,
                    tex_u, tex_v, *texture_info, *color, semi_transparent, modulated);
                final(vram)@ == if p.cx1 >= p.cx2 || p.cy1 >= p.cy2 {
                    old(vram)@
                } else {
                    tex_rows_spec(old(vram)@, p, p.cy2)
                }
            }),
    {
        let ghost p = Self::tex_rect_spec(*draw_mode, *draw_area, draw_offset, x, y, width, height,
            tex_u, tex_v, *texture_info, *color, semi_transparent, modulated);
        let x = x.wrapping_add(draw_offset.0);
        let y = y.wrapping_add(draw_offset.1);
        let x2 = sat_add_i16(x, width as i16);
        let y2 = sat_add_i16(y, height as i16);
        let clip_x1 = max_i16(x, draw_area.left as i16);
        let clip_y1 = max_i16(y, draw_area.top as i16);
        let clip_x2 = min_i16(x2, (draw_area.right as i16) + 1);
        let clip_y2 = min_i16(y2, (draw_area.bottom as i16) + 1);
        if clip_x1 >= clip_x2 || clip_y1 >= clip_y2 {
            return;
        }
        let blend_mode = BlendMode::from_bits(draw_mode.semi_transparency);
        let ghost old_vram = old(vram)@;
        let mut py: i32 = clip_y1 as i32;
        while py < clip_y2 as i32
            invariant
                vram@.len() == VRAM_SIZE,
                clip_y1 <= py <= clip_y2,
                clip_x1 < clip_x2,
                p.cx1 == clip_x1 && p.cx2 == clip_x2 && p.cy1 == clip_y1 && p.cy2 == clip_y2,
                p.x0 == x && p.y0 == y && x <= clip_x1 && y <= clip_y1,
                p.tex_u == tex_u && p.tex_v == tex_v && p.info == *texture_info && p.color == *color,
                p.semi == semi_transparent && p.modulated == modulated && p.mode == blend_mode,
                vram@ == tex_rows_spec(old_vram, p, py as int),
            decreases clip_y2 - py,
        {
            if 0 <= py && py < 512 {
                let v = ((tex_v as i32 + (py - y as i32)) % 256) as u8;
                let mut px: i32 = clip_x1 as i32;
                while px < clip_x2 as i32
                    invariant
                        vram@.len() == VRAM_SIZE,
                        clip_y1 <= py < clip_y2,
                        0 <= py < 512,
                        clip_x1 <= px <= clip_x2,
                        p.cx1 == clip_x1 && p.cx2 == clip_x2 && p.cy1 == clip_y1 && p.cy2 == clip_y2,
                        p.x0 == x && p.y0 == y && x <= clip_x1 && y <= clip_y1,
                        p.tex_u == tex_u && p.tex_v == tex_v && p.info == *texture_info && p.color == *color,
                        p.semi == semi_transparent && p.modulated == modulated && p.mode == blend_mode,
                        v == ((tex_v as int + (py - y)) % 256) as u8,
                        vram@ == tex_row_spec(tex_rows_spec(old_vram, p, py as int), p, py as int, px as int),
                    decreases clip_x2 - px,
                {
                    if 0 <= px && px < 1024 {
                        let u = ((tex_u as i32 + (px - x as i32)) % 256) as u8;
                        self.textured_pixel(vram, px as i16, py as i16, u, v, texture_info, color,
                            semi_transparent, modulated, blend_mode, Ghost(p));
                    }
                    px = px + 1;
                }
            } else {
                proof {
                    lemma_tex_row_outside(vram@, p, py as int, p.cx2);
                }
            }
            py = py + 1;
        }
    }
}

/// A texel channel modulated by a colour channel (128 is neutral).
pub fn modulate_channel(t: u8, c: u8) -> (r: u8)
    ensures
        r == ((t as int * c as int) / 128) as u8,
{
    proof {
        assert(t as int * c as int <= 255 * 255) by (nonlinear_arith)
            requires t <= 255, c <= 255, t >= 0, c >= 0;
        assert(t as int * c as int >= 0) by (nonlinear_arith)
            requires t >= 0, c >= 0;
    }
    ((t as u32 * c as u32) / 128) as u8
}

impl Rasterizer {
    /// Draw pixel (px, py) of a textured rectangle.
    fn textured_pixel(
        &self,
        vram: &mut [u16],
        px: i16,
        py: i16,
        u: u8,
        v: u8,
        texture_info: &TextureInfo,
        color: &Color,
        semi_transparent: bool,
        modulated: bool,
        blend_mode: BlendMode,
        Ghost(p): Ghost<TexRect>,
    )
        requires
            old(vram)@.len() == VRAM_SIZE,
            in_vram(px as int, py as int),
            u == ((p.tex_u as int + (px - p.x0)) % 256) as u8,
            v == ((p.tex_v as int + (py - p.y0)) % 256) as u8,
            p.info == *texture_info,
            p.color == *color,
            p.semi == semi_transparent,
            p.modulated == modulated,
            p.mode == blend_mode,
        ensures
            final(vram)@ == tex_pixel_spec(old(vram)@, p, px as int, py as int),
    {
        let tex_color = match texture_info.depth {
            TextureDepth::T4Bit => self.sample_4bit_texture(vram, u, v, texture_info),
            TextureDepth::T8Bit => self.sample_8bit_texture(vram, u, v, texture_info),
            TextureDepth::T15Bit => self.sample_15bit_texture(vram, u, v, texture_info),
        };
        let tex_color15 = (((tex_color.2 >> 3u8) as u16) << 10u16) | (((tex_color.1 >> 3u8) as u16)
            << 5u16) | ((tex_color.0 >> 3u8) as u16);
        if tex_color15 == 0 && texture_info.depth != TextureDepth::T15Bit {
            return;
        }
        let final_color = if modulated {
            let r = modulate_channel(tex_color.0, color.r);
            let g = modulate_channel(tex_color.1, color.g);
            let b = modulate_channel(tex_color.2, color.b);
            (((b >> 3u8) as u16) << 10u16) | (((g >> 3u8) as u16) << 5u16) | ((r >> 3u8) as u16)
        } else {
            tex_color15
        };
        let vram_index = (py as usize) * 1024 + (px as usize);
        if semi_transparent {
            let bg_color = vram[vram_index];
            vram[vram_index] = blend_mode.blend(bg_color, final_color);
        } else {
            vram[vram_index] = final_color;
        }
    }
}
} // verus!
