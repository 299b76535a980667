//! GP0 drawing and state commands: the command FIFO, polygon, line and
//! rectangle decoding, the drawing environment commands (E1h-E6h) and the
//! dispatch of VRAM transfers.

use vstd::prelude::*;

use super::{DrawCommand, GPU, transfer_ok};
use super::gp1::bit;
use super::line::{line_result, polyline_spec};
use super::primitives::{Color, TexCoord, TextureDepth, TextureInfo, Vertex, rgb15_spec, sext11, sext11_spec, texture_depth_spec};
use super::rasterizer::{VRAM_SIZE, area_ok};
use super::registers::{DrawMode, DrawingArea, GPUStatus, TextureWindow, VRAMTransferDirection};
use super::render::{
    drawn_post, gradient_line_cmd, gradient_triangle_cmd, mono_rect_vram, mono_triangle_cmd,
    offset_spec, queued_post, shaded_polyline_cmds, textured_rect_vram, textured_triangle_cmd,
};
use super::transfer::{cpu_to_vram_post, vram_to_cpu_post, vram_to_vram_post, vram_write_spec};

verus! {

/// The colour in the low 24 bits of a command word.
pub open spec fn color_of(w: u32) -> Color {
    Color { r: (w & 0xFF) as u8, g: ((w >> 8u32) & 0xFF) as u8, b: ((w >> 16u32) & 0xFF) as u8 }
}

/// The vertex of a vertex word (signed 11-bit X and Y).
pub open spec fn vertex_of(w: u32) -> Vertex {
    Vertex { x: sext11_spec(w), y: sext11_spec(w >> 16u32) }
}

/// The texture coordinate in the low half of a word.
pub open spec fn texcoord_of(w: u32) -> TexCoord {
    TexCoord { u: (w & 0xFF) as u8, v: ((w >> 8u32) & 0xFF) as u8 }
}

/// The colour table X (in units of 16 pixels, bits 16-21) of a word.
pub open spec fn clut_x_of(w: u32) -> u16 {
    (((w >> 16u32) & 0x3F) * 16) as u16
}

/// The colour table Y (bits 22-30) of a word.
pub open spec fn clut_y_of(w: u32) -> u16 {
    ((w >> 22u32) & 0x1FF) as u16
}

/// Texture of a textured polygon: colour table from the first texture
/// word, page and depth from the second.
pub open spec fn poly_texture_spec(clut: u32, page: u32) -> TextureInfo {
    TextureInfo {
        page_x: (((page >> 16u32) & 0xF) * 64) as u16,
        page_y: (((page >> 20u32) & 1) * 256) as u16,
        clut_x: clut_x_of(clut),
        clut_y: clut_y_of(clut),
        depth: texture_depth_spec(((page >> 23u32) & 3) as u8),
    }
}

/// Texture of a textured rectangle: colour table from its texture word,
/// page and depth from the drawing mode.
pub open spec fn rect_texture_spec(g: GPU, clut: u32) -> TextureInfo {
    TextureInfo {
        page_x: g.draw_mode.texture_page_x_base,
        page_y: g.draw_mode.texture_page_y_base,
        clut_x: clut_x_of(clut),
        clut_y: clut_y_of(clut),
        depth: texture_depth_spec(g.draw_mode.texture_depth),
    }
}

/// Nothing but the FIFO changes.
pub open spec fn unchanged(old: GPU, new: GPU) -> bool {
    &&& new.vram_spec() == old.vram_spec()
    &&& new.pending_spec() == old.pending_spec()
    &&& new.same_regs(&old)
}

/// A flat triangle (command, 3 vertices) or quad (4 vertices) is queued.
pub open spec fn mono_poly_effect(old: GPU, new: GPU, w: Seq<u32>, quad: bool, semi: bool) -> bool {
    let c = color_of(w[0]);
    if quad {
        queued_post(old, new, seq![
            mono_triangle_cmd(old, vertex_of(w[1]), vertex_of(w[2]), vertex_of(w[3]), c, semi),
            mono_triangle_cmd(old, vertex_of(w[1]), vertex_of(w[3]), vertex_of(w[4]), c, semi),
        ])
    } else {
        queued_post(old, new, seq![mono_triangle_cmd(old, vertex_of(w[1]), vertex_of(w[2]), vertex_of(w[3]), c, semi)])
    }
}

/// A shaded triangle or quad (colour and vertex words in turn) is queued.
pub open spec fn shaded_poly_effect(old: GPU, new: GPU, w: Seq<u32>, quad: bool) -> bool {
    let t1 = gradient_triangle_cmd(old, vertex_of(w[1]), vertex_of(w[3]), vertex_of(w[5]),
        color_of(w[0]), color_of(w[2]), color_of(w[4]));
    if quad {
        queued_post(old, new, seq![t1, gradient_triangle_cmd(old, vertex_of(w[3]), vertex_of(w[5]),
            vertex_of(w[7]), color_of(w[2]), color_of(w[4]), color_of(w[6]))])
    } else {
        queued_post(old, new, seq![t1])
    }
}

/// A textured triangle or quad (command, then vertex and texture words in
/// turn; colour table in the first texture word, page in the second) is queued.
pub open spec fn textured_poly_effect(old: GPU, new: GPU, w: Seq<u32>, quad: bool) -> bool {
    let info = poly_texture_spec(w[2], w[4]);
    let c = color_of(w[0]);
    let t1 = textured_triangle_cmd(old, vertex_of(w[1]), vertex_of(w[3]), vertex_of(w[5]),
        texcoord_of(w[2]), texcoord_of(w[4]), texcoord_of(w[6]), info, c);
    if quad {
        queued_post(old, new, seq![t1, textured_triangle_cmd(old, vertex_of(w[3]), vertex_of(w[5]),
            vertex_of(w[7]), texcoord_of(w[4]), texcoord_of(w[6]), texcoord_of(w[8]), info, c)])
    } else {
        queued_post(old, new, seq![t1])
    }
}

/// Width and height of a rectangle: from its size word (height in bits
/// 16-31, width in bits 0-15) for the variable size, else the fixed size.
pub open spec fn rect_size_spec(size: u16, word: u32) -> (u16, u16) {
    if size == 0 {
        ((word & 0xFFFF) as u16, (word >> 16u32) as u16)
    } else {
        (size, size)
    }
}

/// A flat rectangle (command, position[, size]) is drawn.
pub open spec fn mono_rect_effect(old: GPU, new: GPU, w: Seq<u32>, size: u16, semi: bool) -> bool {
    let pos = vertex_of(w[1]);
    let (width, height) = rect_size_spec(size, w[2]);
    drawn_post(old, new, mono_rect_vram(old, pos.x, pos.y, width, height, color_of(w[0]), semi))
}

/// A textured rectangle (command, position, texture[, size]) is drawn.
pub open spec fn textured_rect_effect(old: GPU, new: GPU, w: Seq<u32>, size: u16, semi: bool, modulated: bool) -> bool {
    let pos = vertex_of(w[1]);
    let tc = texcoord_of(w[2]);
    let (width, height) = rect_size_spec(size, w[3]);
    drawn_post(
        old,
        new,
        textured_rect_vram(old, pos.x, pos.y, width, height, tc.u, tc.v, rect_texture_spec(old, w[2]),
            color_of(w[0]), semi, modulated),
    )
}

/// A flat line (command, 2 vertices) is drawn.
pub open spec fn line_effect(old: GPU, new: GPU, w: Seq<u32>) -> bool {
    let p0 = offset_spec(old, vertex_of(w[1]));
    let p1 = offset_spec(old, vertex_of(w[2]));
    let c = color_of(w[0]);
    drawn_post(old, new, line_result(old.vram_spec(), old.clip_spec(), rgb15_spec(c.r, c.g, c.b),
        p0.0 as int, p0.1 as int, p1.0 as int, p1.1 as int))
}

/// A flat polyline (command, vertices, terminator) is drawn.
pub open spec fn polyline_effect(old: GPU, new: GPU, w: Seq<u32>) -> bool {
    let n = w.len() - 2;
    let c = color_of(w[0]);
    let points = Seq::new(n as nat, |i: int| offset_spec(old, vertex_of(w[i + 1])));
    drawn_post(old, new, if n < 2 {
        old.vram_spec()
    } else {
        polyline_spec(old.vram_spec(), old.clip_spec(), rgb15_spec(c.r, c.g, c.b), points, (n - 1) as nat)
    })
}

/// A shaded line (colour, vertex, colour, vertex) is queued.
pub open spec fn shaded_line_effect(old: GPU, new: GPU, w: Seq<u32>) -> bool {
    queued_post(old, new, seq![gradient_line_cmd(old, vertex_of(w[1]), color_of(w[0]), vertex_of(w[3]), color_of(w[2]))])
}

/// A shaded polyline (colour and vertex words in turn, then the
/// terminator) is queued as shaded lines.
pub open spec fn shaded_polyline_effect(old: GPU, new: GPU, w: Seq<u32>) -> bool {
    let n = (w.len() - 1) / 2;
    queued_post(
        old,
        new,
        shaded_polyline_cmds(
            old,
            Seq::new(n as nat, |i: int| vertex_of(w[2 * i + 1])),
            Seq::new(n as nat, |i: int| color_of(w[2 * i])),
        ),
    )
}

/// The drawing mode set by GP0(E1h).
pub open spec fn draw_mode_spec(v: u32) -> DrawMode {
    DrawMode {
        texture_page_x_base: ((v & 0xF) * 64) as u16,
        texture_page_y_base: (((v >> 4u32) & 1) * 256) as u16,
        semi_transparency: ((v >> 5u32) & 3) as u8,
        texture_depth: ((v >> 7u32) & 3) as u8,
        dithering: bit(v, 9),
        draw_to_display: bit(v, 10),
        texture_disable: bit(v, 11),
        texture_x_flip: bit(v, 12),
        texture_y_flip: bit(v, 13),
    }
}

/// GPUSTAT after GP0(E1h): the texture page, semi-transparency, depth,
/// dithering, draw-to-display and texture-disable fields follow the command.
pub open spec fn draw_mode_status_spec(s: GPUStatus, v: u32) -> GPUStatus {
    GPUStatus {
        texture_page_x_base: (v & 0xF) as u8,
        texture_page_y_base: ((v >> 4u32) & 1) as u8,
        semi_transparency: ((v >> 5u32) & 3) as u8,
        texture_depth: ((v >> 7u32) & 3) as u8,
        dithering: bit(v, 9),
        draw_to_display: bit(v, 10),
        texture_disable: bit(v, 11),
        ..s
    }
}

/// The texture window set by GP0(E2h): four 5-bit fields.
pub open spec fn texture_window_spec(v: u32) -> TextureWindow {
    TextureWindow {
        mask_x: (v & 0x1F) as u8,
        mask_y: ((v >> 5u32) & 0x1F) as u8,
        offset_x: ((v >> 10u32) & 0x1F) as u8,
        offset_y: ((v >> 15u32) & 0x1F) as u8,
    }
}

/// The clip rectangle of a drawing area.
pub open spec fn clip_of(a: DrawingArea) -> (i16, i16, i16, i16) {
    (a.left as i16, a.top as i16, a.right as i16, a.bottom as i16)
}

/// The drawing area after GP0(E3h): top-left corner, X in bits 0-9 and Y in bits 10-18.
pub open spec fn area_top_left_spec(a: DrawingArea, v: u32) -> DrawingArea {
    DrawingArea { left: (v & 0x3FF) as u16, top: ((v >> 10u32) & 0x1FF) as u16, ..a }
}

/// The drawing area after GP0(E4h): bottom-right corner.
pub open spec fn area_bottom_right_spec(a: DrawingArea, v: u32) -> DrawingArea {
    DrawingArea { right: (v & 0x3FF) as u16, bottom: ((v >> 10u32) & 0x1FF) as u16, ..a }
}

/// The registers set by an environment command; VRAM, the queued draws,
/// the display state and any transfer are kept.
pub open spec fn env_post(
    old: GPU,
    new: GPU,
    draw_mode: DrawMode,
    draw_area: DrawingArea,
    draw_offset: (i16, i16),
    texture_window: TextureWindow,
    status: GPUStatus,
    clip: (i16, i16, i16, i16),
) -> bool {
    &&& new.vram_spec() == old.vram_spec()
    &&& new.pending_spec() == old.pending_spec()
    &&& new.draw_mode == draw_mode
    &&& new.draw_area == draw_area
    &&& new.draw_offset == draw_offset
    &&& new.texture_window == texture_window
    &&& new.status == status
    &&& new.clip_spec() == clip
    &&& new.display_area == old.display_area
    &&& new.display_mode == old.display_mode
    &&& new.vram_transfer == old.vram_transfer
}

/// The effect of an environment command word (E1h-E6h); others change nothing.
pub open spec fn env_effect(old: GPU, new: GPU, v: u32) -> bool {
    let op = v >> 24u32;
    if op == 0xE1 {
        env_post(old, new, draw_mode_spec(v), old.draw_area, old.draw_offset, old.texture_window,
            draw_mode_status_spec(old.status, v), old.clip_spec())
    } else if op == 0xE2 {
        env_post(old, new, old.draw_mode, old.draw_area, old.draw_offset, texture_window_spec(v),
            old.status, old.clip_spec())
    } else if op == 0xE3 {
        env_post(old, new, old.draw_mode, area_top_left_spec(old.draw_area, v), old.draw_offset,
            old.texture_window, old.status, clip_of(area_top_left_spec(old.draw_area, v)))
    } else if op == 0xE4 {
        env_post(old, new, old.draw_mode, area_bottom_right_spec(old.draw_area, v), old.draw_offset,
            old.texture_window, old.status, clip_of(area_bottom_right_spec(old.draw_area, v)))
    } else if op == 0xE5 {
        env_post(old, new, old.draw_mode, old.draw_area, (sext11_spec(v), sext11_spec(v >> 11u32)),
            old.texture_window, old.status, old.clip_spec())
    } else if op == 0xE6 {
        env_post(old, new, old.draw_mode, old.draw_area, old.draw_offset, old.texture_window,
            GPUStatus { set_mask_bit: v & 1 != 0, draw_pixels: bit(v, 1), ..old.status }, old.clip_spec())
    } else {
        unchanged(old, new)
    }
}

/// A polyline terminator word.
pub open spec fn is_terminator(w: u32) -> bool {
    w & 0xF000F000 == 0x50005000
}

/// Index of the first terminator in `w` at k, k + step, k + 2 step, ...,
/// or -1 when there is none.
pub open spec fn find_term(w: Seq<u32>, k: int, step: int) -> int
    decreases w.len() - k,
{
    if k < 0 || step <= 0 || k >= w.len() {
        -1
    } else if is_terminator(w[k]) {
        k
    } else if k + step >= w.len() {
        -1
    } else {
        find_term(w, k + step, step)
    }
}

/// Class of a GP0 command (top 3 bits of its opcode): 1 polygon, 2 line,
/// 3 rectangle, 4 VRAM to VRAM, 5 CPU to VRAM, 6 VRAM to CPU, 7 environment.
pub open spec fn class_of(op: u32) -> u32 {
    op >> 5u32
}

/// Fixed size (0 = variable) of a rectangle opcode.
pub open spec fn rect_fixed_size(op: u32) -> u16 {
    let s = (op >> 3u32) & 3;
    if s == 0 {
        0
    } else if s == 1 {
        1
    } else if s == 2 {
        8
    } else {
        16
    }
}

/// Number of words of the GP0 command at the front of `w`; more than
/// `w.len()` when it is not complete yet (a polyline waits for its terminator).
pub open spec fn command_len(w: Seq<u32>) -> int {
    let op = w[0] >> 24u32;
    let class = class_of(op);
    if class == 1 {
        let nv: int = if op & 0x08 != 0 { 4 } else { 3 };
        let shaded = op & 0x10 != 0;
        let textured = op & 0x04 != 0;
        if shaded && textured {
            1
        } else if shaded {
            2 * nv
        } else if textured {
            1 + 2 * nv
        } else {
            1 + nv
        }
    } else if class == 2 {
        let shaded = op & 0x10 != 0;
        if op & 0x08 != 0 {
            let t = if shaded { find_term(w, 4, 2) } else { find_term(w, 3, 1) };
            if t < 0 { w.len() + 1int } else { t + 1 }
        } else if shaded {
            4
        } else {
            3
        }
    } else if class == 3 {
        (if op & 0x04 != 0 { 3int } else { 2int }) + (if rect_fixed_size(op) == 0 { 1int } else { 0int })
    } else if class == 4 {
        4
    } else if class == 5 || class == 6 {
        3
    } else {
        1
    }
}

/// The effect of the complete GP0 command `w`. Shaded textured polygons
/// and unknown commands change nothing.
pub open spec fn command_effect(old: GPU, new: GPU, w: Seq<u32>) -> bool {
    let op = w[0] >> 24u32;
    let class = class_of(op);
    let semi = op & 0x02 != 0;
    if class == 1 {
        let quad = op & 0x08 != 0;
        let shaded = op & 0x10 != 0;
        let textured = op & 0x04 != 0;
        if shaded && textured {
            unchanged(old, new)
        } else if shaded {
            shaded_poly_effect(old, new, w, quad)
        } else if textured {
            textured_poly_effect(old, new, w, quad)
        } else {
            mono_poly_effect(old, new, w, quad, semi)
        }
    } else if class == 2 {
        let shaded = op & 0x10 != 0;
        if op & 0x08 != 0 {
            if shaded {
                shaded_polyline_effect(old, new, w)
            } else {
                polyline_effect(old, new, w)
            }
        } else if shaded {
            shaded_line_effect(old, new, w)
        } else {
            line_effect(old, new, w)
        }
    } else if class == 3 {
        if op & 0x04 != 0 {
            textured_rect_effect(old, new, w, rect_fixed_size(op), semi, op & 0x01 != 0)
        } else {
            mono_rect_effect(old, new, w, rect_fixed_size(op), semi)
        }
    } else if class == 4 {
        vram_to_vram_post(old, new, w)
    } else if class == 5 {
        cpu_to_vram_post(old, new, w)
    } else if class == 6 {
        vram_to_cpu_post(old, new, w)
    } else if class == 7 {
        env_effect(old, new, w[0])
    } else {
        unchanged(old, new)
    }
}

/// After a parse of an `n`-word command: with fewer words queued nothing
/// happens, else the command's words leave the FIFO and `effect` holds.
pub open spec fn parsed(old: GPU, new: GPU, n: int, effect: bool) -> bool {
    if old.fifo().len() < n {
        new == old
    } else {
        new.fifo() == old.fifo().skip(n) && effect
    }
}

/// The effect of a GP0 word: during a CPU-to-VRAM transfer it is pixel
/// data; otherwise it joins the FIFO and the command at the front runs
/// once it is complete.
pub open spec fn gp0_post(old: GPU, new: GPU, value: u32) -> bool {
    match old.vram_transfer {
        Some(t) if t.direction == VRAMTransferDirection::CpuToVram => {
            let (v, t2) = vram_write_spec(old.vram_spec(), t, value);
            &&& new.vram_spec() == v
            &&& new.vram_transfer == t2
            &&& new.fifo() == old.fifo()
            &&& new.pending_spec() == old.pending_spec()
            &&& new.status == old.status
            &&& new.same_regs_but_transfer(&old)
        },
        _ => {
            let w = old.fifo().push(value);
            let n = command_len(w);
            if n > w.len() {
                new.fifo() == w && unchanged(old, new)
            } else {
                new.fifo() == w.skip(n) && command_effect(old, new, w.take(n))
            }
        },
    }
}

/// The effect of a command does not depend on the rest of the FIFO.
proof fn lemma_effect_ignores_fifo(a: GPU, b: GPU, new: GPU, w: Seq<u32>)
    requires
        a.vram == b.vram,
        a.draw_mode == b.draw_mode,
        a.draw_area == b.draw_area,
        a.draw_offset == b.draw_offset,
        a.texture_window == b.texture_window,
        a.display_area == b.display_area,
        a.display_mode == b.display_mode,
        a.status == b.status,
        a.vram_transfer == b.vram_transfer,
        a.rasterizer == b.rasterizer,
        a.pending_draws == b.pending_draws,
        command_effect(a, new, w),
    ensures
        command_effect(b, new, w),
{
    if class_of(w[0] >> 24u32) == 2 {
        let n = (w.len() - 1) / 2;
        let vs = Seq::new(n as nat, |i: int| vertex_of(w[2 * i + 1]));
        let cs = Seq::new(n as nat, |i: int| color_of(w[2 * i]));
        assert(shaded_polyline_cmds(a, vs, cs) =~= shaded_polyline_cmds(b, vs, cs));
        let m = w.len() - 2;
        assert(Seq::new(m as nat, |i: int| offset_spec(a, vertex_of(w[i + 1]))) =~= Seq::new(
            m as nat,
            |i: int| offset_spec(b, vertex_of(w[i + 1])),
        ));
    }
}

/// A queued textured polygon takes its texture from its command words:
/// the page X is 64 times bits 16-19 and the page Y is 256 times bit 20 of
/// the second texture word, the colour depth is bits 23-24 of that word
/// (0: 4-bit, 1: 8-bit, otherwise 15-bit), the colour table X is 16 times
/// bits 16-21 and its Y is bits 22-30 of the first texture word, and the
/// tint is the command's colour. Each triangle's texture coordinates are
/// the low two bytes (U, then V) of its vertices' texture words.
pub proof fn law_textured_polygon_texture(old: GPU, new: GPU, w: Seq<u32>, quad: bool)
    requires
        textured_poly_effect(old, new, w, quad),
    ensures
        new.pending_spec().len() == old.pending_spec().len() + if quad { 2int } else { 1int },
        forall|i: int|
            old.pending_spec().len() <= i < new.pending_spec().len() ==> match #[trigger] new.pending_spec()[i] {
                DrawCommand::TexturedTriangle { info, tint, .. } => {
                    &&& info.page_x as int == ((w[4] >> 16u32) & 0xF) * 64
                    &&& info.page_y as int == ((w[4] >> 20u32) & 1) * 256
                    &&& info.clut_x as int == ((w[2] >> 16u32) & 0x3F) * 16
                    &&& info.clut_y as int == (w[2] >> 22u32) & 0x1FF
                    &&& info.depth == if (w[4] >> 23u32) & 3 == 0 {
                        TextureDepth::T4Bit
                    } else if (w[4] >> 23u32) & 3 == 1 {
                        TextureDepth::T8Bit
                    } else {
                        TextureDepth::T15Bit
                    }
                    &&& tint == ((w[0] & 0xFF) as u8, ((w[0] >> 8u32) & 0xFF) as u8, ((w[0] >> 16u32) & 0xFF) as u8)
                },
                _ => false,
            },
        match new.pending_spec()[old.pending_spec().len() as int] {
            DrawCommand::TexturedTriangle { t0, t1, t2, .. } => {
                &&& t0 == ((w[2] & 0xFF) as u8, ((w[2] >> 8u32) & 0xFF) as u8)
                &&& t1 == ((w[4] & 0xFF) as u8, ((w[4] >> 8u32) & 0xFF) as u8)
                &&& t2 == ((w[6] & 0xFF) as u8, ((w[6] >> 8u32) & 0xFF) as u8)
            },
            _ => false,
        },
{
    let p = w[4];
    assert(((p >> 23u32) & 3) as u8 & 3 == (p >> 23u32) & 3) by (bit_vector);
    assert(((p >> 16u32) & 0xF) * 64 < 0x10000 && ((p >> 20u32) & 1) * 256 < 0x10000) by (bit_vector);
    let q = w[2];
    assert(((q >> 16u32) & 0x3F) * 16 < 0x10000 && (q >> 22u32) & 0x1FF < 0x10000) by (bit_vector);
}

impl GPU {
    /// Take the first `n` words of the FIFO.
    fn pop_words(&mut self, n: usize) -> (w: Vec<u32>)
        requires
            old(self).wf(),
            old(self).fifo().len() >= n,
        ensures
            final(self).wf(),
            w@ == old(self).fifo().take(n as int),
            final(self).fifo() == old(self).fifo().skip(n as int),
            unchanged(*old(self), *final(self)),
    {
        let ghost f = self.command_fifo@;
        let mut w: Vec<u32> = Vec::new();
        let mut i: usize = 0;
        while i < n
            invariant
                i <= n,
                n <= f.len(),
                w@ == f.take(i as int),
                self.command_fifo@ == f.skip(i as int),
                self.wf(),
                unchanged(*old(self), *self),
            decreases n - i,
        {
            let x = self.command_fifo.pop_front().unwrap();
            w.push(x);
            i = i + 1;
            proof {
                assert(w@ =~= f.take(i as int));
                assert(self.command_fifo@ =~= f.skip(i as int));
            }
        }
        w
    }

    /// Flat triangles and quads.
    fn parse_monochrome_polygon(&mut self, quad: bool, semi_transparent: bool)
        requires
            old(self).wf(),
        ensures
            final(self).wf(),
            parsed(*old(self), *final(self), if quad { 5 } else { 4 },
                mono_poly_effect(*old(self), *final(self), old(self).fifo().take(if quad { 5 } else { 4 }), quad, semi_transparent)),
    {
        let n: usize = if quad { 5 } else { 4 };
        if self.command_fifo.len() < n {
            return;
        }
        let w = self.pop_words(n);
        let color = Color::from_u32(w[0]);
        if quad {
            let vertices = [Vertex::from_u32(w[1]), Vertex::from_u32(w[2]), Vertex::from_u32(w[3]), Vertex::from_u32(w[4])];
            self.render_monochrome_quad(&vertices, &color, semi_transparent);
        } else {
            let vertices = [Vertex::from_u32(w[1]), Vertex::from_u32(w[2]), Vertex::from_u32(w[3])];
            self.render_monochrome_triangle(&vertices, &color, semi_transparent);
        }
    }

    /// GP0(20h): flat opaque triangle (command with colour, 3 vertices).
    pub fn parse_monochrome_triangle_opaque(&mut self)
        requires
            old(self).wf(),
        ensures
            final(self).wf(),
            parsed(*old(self), *final(self), 4, mono_poly_effect(*old(self), *final(self), old(self).fifo().take(4), false, false)),
    {
        self.parse_monochrome_polygon(false, false);
    }

    /// GP0(22h): flat semi-transparent triangle.
    pub fn parse_monochrome_triangle_semi_transparent(&mut self)
        requires
            old(self).wf(),
        ensures
            final(self).wf(),
            parsed(*old(self), *final(self), 4, mono_poly_effect(*old(self), *final(self), old(self).fifo().take(4), false, true)),
    {
        self.parse_monochrome_polygon(false, true);
    }

    /// GP0(28h): flat opaque quad (command with colour, 4 vertices).
    pub fn parse_monochrome_quad_opaque(&mut self)
        requires
            old(self).wf(),
        ensures
            final(self).wf(),
            parsed(*old(self), *final(self), 5, mono_poly_effect(*old(self), *final(self), old(self).fifo().take(5), true, false)),
    {
        self.parse_monochrome_polygon(true, false);
    }

    /// GP0(2Ah): flat semi-transparent quad.
    pub fn parse_monochrome_quad_semi_transparent(&mut self)
        requires
            old(self).wf(),
        ensures
            final(self).wf(),
            parsed(*old(self), *final(self), 5, mono_poly_effect(*old(self), *final(self), old(self).fifo().take(5), true, true)),
    {
        self.parse_monochrome_polygon(true, true);
    }

    /// Gouraud-shaded triangles and quads.
    fn parse_shaded_polygon(&mut self, quad: bool, semi_transparent: bool)
        requires
            old(self).wf(),
        ensures
            final(self).wf(),
            parsed(*old(self), *final(self), if quad { 8 } else { 6 },
                shaded_poly_effect(*old(self), *final(self), old(self).fifo().take(if quad { 8 } else { 6 }), quad)),
    {
        let n: usize = if quad { 8 } else { 6 };
        if self.command_fifo.len() < n {
            return;
        }
        let w = self.pop_words(n);
        if quad {
            let colors = [Color::from_u32(w[0]), Color::from_u32(w[2]), Color::from_u32(w[4]), Color::from_u32(w[6])];
            let vertices = [Vertex::from_u32(w[1]), Vertex::from_u32(w[3]), Vertex::from_u32(w[5]), Vertex::from_u32(w[7])];
            self.render_gradient_quad(&vertices, &colors, semi_transparent);
        } else {
            let colors = [Color::from_u32(w[0]), Color::from_u32(w[2]), Color::from_u32(w[4])];
            let vertices = [Vertex::from_u32(w[1]), Vertex::from_u32(w[3]), Vertex::from_u32(w[5])];
            self.render_gradient_triangle(&vertices, &colors, semi_transparent);
        }
    }

    /// GP0(30h): Gouraud-shaded opaque triangle (colour and vertex words in turn).
    pub fn parse_shaded_triangle_opaque(&mut self)
        requires
            old(self).wf(),
        ensures
            final(self).wf(),
            parsed(*old(self), *final(self), 6, shaded_poly_effect(*old(self), *final(self), old(self).fifo().take(6), false)),
    {
        self.parse_shaded_polygon(false, false);
    }

    /// GP0(32h): Gouraud-shaded semi-transparent triangle.
    pub fn parse_shaded_triangle_semi_transparent(&mut self)
        requires
            old(self).wf(),
        ensures
            final(self).wf(),
            parsed(*old(self), *final(self), 6, shaded_poly_effect(*old(self), *final(self), old(self).fifo().take(6), false)),
    {
        self.parse_shaded_polygon(false, true);
    }

    /// GP0(38h): Gouraud-shaded opaque quad.
    pub fn parse_shaded_quad_opaque(&mut self)
        requires
            old(self).wf(),
        ensures
            final(self).wf(),
            parsed(*old(self), *final(self), 8, shaded_poly_effect(*old(self), *final(self), old(self).fifo().take(8), true)),
    {
        self.parse_shaded_polygon(true, false);
    }

    /// GP0(3Ah): Gouraud-shaded semi-transparent quad.
    pub fn parse_shaded_quad_semi_transparent(&mut self)
        requires
            old(self).wf(),
        ensures
            final(self).wf(),
            parsed(*old(self), *final(self), 8, shaded_poly_effect(*old(self), *final(self), old(self).fifo().take(8), true)),
    {
        self.parse_shaded_polygon(true, true);
    }

    /// Textured triangles and quads.
    fn parse_textured_polygon(&mut self, quad: bool, semi_transparent: bool)
        requires
            old(self).wf(),
        ensures
            final(self).wf(),
            parsed(*old(self), *final(self), if quad { 9 } else { 7 },
                textured_poly_effect(*old(self), *final(self), old(self).fifo().take(if quad { 9 } else { 7 }), quad)),
    {
        let n: usize = if quad { 9 } else { 7 };
        if self.command_fifo.len() < n {
            return;
        }
        let w = self.pop_words(n);
        let color = Color::from_u32(w[0]);
        let clut = w[2];
        let page = w[4];
        proof {
            assert((clut >> 16u32) & 0x3F <= 0x3F && (clut >> 22u32) & 0x1FF <= 0x1FF && (page
                >> 16u32) & 0xF <= 0xF && (page >> 20u32) & 1 <= 1) by (bit_vector);
        }
        let texture_info = TextureInfo {
            page_x: (((page >> 16u32) & 0xF) * 64) as u16,
            page_y: (((page >> 20u32) & 1) * 256) as u16,
            clut_x: (((clut >> 16u32) & 0x3F) * 16) as u16,
            clut_y: ((clut >> 22u32) & 0x1FF) as u16,
            depth: TextureDepth::from_bits(((page >> 23u32) & 0x3) as u8),
        };
        if quad {
            let vertices = [Vertex::from_u32(w[1]), Vertex::from_u32(w[3]), Vertex::from_u32(w[5]), Vertex::from_u32(w[7])];
            let texcoords = [TexCoord::from_u32(w[2]), TexCoord::from_u32(w[4]), TexCoord::from_u32(w[6]), TexCoord::from_u32(w[8])];
            self.render_textured_quad(&vertices, &texcoords, &texture_info, &color, semi_transparent);
        } else {
            let vertices = [Vertex::from_u32(w[1]), Vertex::from_u32(w[3]), Vertex::from_u32(w[5])];
            let texcoords = [TexCoord::from_u32(w[2]), TexCoord::from_u32(w[4]), TexCoord::from_u32(w[6])];
            self.render_textured_triangle(&vertices, &texcoords, &texture_info, &color, semi_transparent);
        }
    }

    /// GP0(24h): textured opaque triangle (command with tint, then vertex
    /// and texture words in turn).
    pub fn parse_textured_triangle_opaque(&mut self)
        requires
            old(self).wf(),
        ensures
            final(self).wf(),
            parsed(*old(self), *final(self), 7, textured_poly_effect(*old(self), *final(self), old(self).fifo().take(7), false)),
    {
        self.parse_textured_polygon(false, false);
    }

    /// GP0(26h): textured semi-transparent triangle.
    pub fn parse_textured_triangle_semi_transparent(&mut self)
        requires
            old(self).wf(),
        ensures
            final(self).wf(),
            parsed(*old(self), *final(self), 7, textured_poly_effect(*old(self), *final(self), old(self).fifo().take(7), false)),
    {
        self.parse_textured_polygon(false, true);
    }

    /// GP0(2Ch): textured opaque quad.
    pub fn parse_textured_quad_opaque(&mut self)
        requires
            old(self).wf(),
        ensures
            final(self).wf(),
            parsed(*old(self), *final(self), 9, textured_poly_effect(*old(self), *final(self), old(self).fifo().take(9), true)),
    {
        self.parse_textured_polygon(true, false);
    }

    /// GP0(2Eh): textured semi-transparent quad.
    pub fn parse_textured_quad_semi_transparent(&mut self)
        requires
            old(self).wf(),
        ensures
            final(self).wf(),
            parsed(*old(self), *final(self), 9, textured_poly_effect(*old(self), *final(self), old(self).fifo().take(9), true)),
    {
        self.parse_textured_polygon(true, true);
    }

    /// Flat rectangles of the given fixed size (0 = size word follows).
    fn parse_monochrome_rect(&mut self, size: u16, semi_transparent: bool)
        requires
            old(self).wf(),
        ensures
            final(self).wf(),
            parsed(*old(self), *final(self), if size == 0 { 3 } else { 2 },
                mono_rect_effect(*old(self), *final(self), old(self).fifo().take(if size == 0 { 3 } else { 2 }), size, semi_transparent)),
    {
        let n: usize = if size == 0 { 3 } else { 2 };
        if self.command_fifo.len() < n {
            return;
        }
        let w = self.pop_words(n);
        let color = Color::from_u32(w[0]);
        let pos = Vertex::from_u32(w[1]);
        let (width, height) = if size == 0 {
            ((w[2] & 0xFFFF) as u16, (w[2] >> 16u32) as u16)
        } else {
            (size, size)
        };
        self.render_monochrome_rect(pos.x, pos.y, width, height, &color, semi_transparent);
    }

    /// GP0(60h): flat opaque rectangle of variable size (command with
    /// colour, position, size with the height in the high half and the width
    /// in the low half).
    pub fn parse_monochrome_rect_variable_opaque(&mut self)
        requires
            old(self).wf(),
        ensures
            final(self).wf(),
            parsed(*old(self), *final(self), 3, mono_rect_effect(*old(self), *final(self), old(self).fifo().take(3), 0, false)),
    {
        self.parse_monochrome_rect(0, false);
    }

    /// GP0(62h): flat semi-transparent rectangle of variable size.
    pub fn parse_monochrome_rect_variable_semi_transparent(&mut self)
        requires
            old(self).wf(),
        ensures
            final(self).wf(),
            parsed(*old(self), *final(self), 3, mono_rect_effect(*old(self), *final(self), old(self).fifo().take(3), 0, true)),
    {
        self.parse_monochrome_rect(0, true);
    }

    /// GP0(68h): flat opaque 1x1 rectangle.
    pub fn parse_monochrome_rect_1x1_opaque(&mut self)
        requires
            old(self).wf(),
        ensures
            final(self).wf(),
            parsed(*old(self), *final(self), 2, mono_rect_effect(*old(self), *final(self), old(self).fifo().take(2), 1, false)),
    {
        self.parse_monochrome_rect(1, false);
    }

    /// GP0(6Ah): flat semi-transparent 1x1 rectangle.
    pub fn parse_monochrome_rect_1x1_semi_transparent(&mut self)
        requires
            old(self).wf(),
        ensures
            final(self).wf(),
            parsed(*old(self), *final(self), 2, mono_rect_effect(*old(self), *final(self), old(self).fifo().take(2), 1, true)),
    {
        self.parse_monochrome_rect(1, true);
    }

    /// GP0(70h): flat opaque 8x8 rectangle.
    pub fn parse_monochrome_rect_8x8_opaque(&mut self)
        requires
            old(self).wf(),
        ensures
            final(self).wf(),
            parsed(*old(self), *final(self), 2, mono_rect_effect(*old(self), *final(self), old(self).fifo().take(2), 8, false)),
    {
        self.parse_monochrome_rect(8, false);
    }

    /// GP0(72h): flat semi-transparent 8x8 rectangle.
    pub fn parse_monochrome_rect_8x8_semi_transparent(&mut self)
        requires
            old(self).wf(),
        ensures
            final(self).wf(),
            parsed(*old(self), *final(self), 2, mono_rect_effect(*old(self), *final(self), old(self).fifo().take(2), 8, true)),
    {
        self.parse_monochrome_rect(8, true);
    }

    /// GP0(78h): flat opaque 16x16 rectangle.
    pub fn parse_monochrome_rect_16x16_opaque(&mut self)
        requires
            old(self).wf(),
        ensures
            final(self).wf(),
            parsed(*old(self), *final(self), 2, mono_rect_effect(*old(self), *final(self), old(self).fifo().take(2), 16, false)),
    {
        self.parse_monochrome_rect(16, false);
    }

    /// GP0(7Ah): flat semi-transparent 16x16 rectangle.
    pub fn parse_monochrome_rect_16x16_semi_transparent(&mut self)
        requires
            old(self).wf(),
        ensures
            final(self).wf(),
            parsed(*old(self), *final(self), 2, mono_rect_effect(*old(self), *final(self), old(self).fifo().take(2), 16, true)),
    {
        self.parse_monochrome_rect(16, true);
    }

    /// Textured rectangles of the given fixed size (0 = size word follows);
    /// the texture page and depth come from the drawing mode.
    fn parse_textured_rect(&mut self, size: u16, semi_transparent: bool, modulated: bool)
        requires
            old(self).wf(),
        ensures
            final(self).wf(),
            parsed(*old(self), *final(self), if size == 0 { 4 } else { 3 },
                textured_rect_effect(*old(self), *final(self), old(self).fifo().take(if size == 0 { 4 } else { 3 }),
                    size, semi_transparent, modulated)),
    {
        let n: usize = if size == 0 { 4 } else { 3 };
        if self.command_fifo.len() < n {
            return;
        }
        let w = self.pop_words(n);
        let color = Color::from_u32(w[0]);
        let pos = Vertex::from_u32(w[1]);
        let texcoord = TexCoord::from_u32(w[2]);
        let clut = w[2];
        proof {
            assert((clut >> 16u32) & 0x3F <= 0x3F && (clut >> 22u32) & 0x1FF <= 0x1FF) by (bit_vector);
        }
        let texture_info = TextureInfo {
            clut_x: (((clut >> 16u32) & 0x3F) * 16) as u16,
            clut_y: ((clut >> 22u32) & 0x1FF) as u16,
            page_x: self.draw_mode.texture_page_x_base,
            page_y: self.draw_mode.texture_page_y_base,
            depth: TextureDepth::from_bits(self.draw_mode.texture_depth),
        };
        let (width, height) = if size == 0 {
            ((w[3] & 0xFFFF) as u16, (w[3] >> 16u32) as u16)
        } else {
            (size, size)
        };
        self.render_textured_rect(pos.x, pos.y, width, height, texcoord.u, texcoord.v, &texture_info,
            &color, semi_transparent, modulated);
    }

    /// GP0(64h): textured rectangle of variable size, opaque, raw texture
    /// (command with tint, position, texture word with the colour table, size).
    pub fn parse_textured_rect_variable_opaque(&mut self)
        requires
            old(self).wf(),
        ensures
            final(self).wf(),
            parsed(*old(self), *final(self), 4, textured_rect_effect(*old(self), *final(self), old(self).fifo().take(4), 0, false, false)),
    {
        self.parse_textured_rect(0, false, false);
    }

    /// GP0(65h): textured rectangle of variable size, opaque, modulated by the tint.
    pub fn parse_textured_rect_variable_opaque_modulated(&mut self)
        requires
            old(self).wf(),
        ensures
            final(self).wf(),
            parsed(*old(self), *final(self), 4, textured_rect_effect(*old(self), *final(self), old(self).fifo().take(4), 0, false, true)),
    {
        self.parse_textured_rect(0, false, true);
    }

    /// GP0(66h): textured rectangle of variable size, semi-transparent, raw texture.
    pub fn parse_textured_rect_variable_semi_transparent(&mut self)
        requires
            old(self).wf(),
        ensures
            final(self).wf(),
            parsed(*old(self), *final(self), 4, textured_rect_effect(*old(self), *final(self), old(self).fifo().take(4), 0, true, false)),
    {
        self.parse_textured_rect(0, true, false);
    }

    /// GP0(67h): textured rectangle of variable size, semi-transparent, modulated by the tint.
    pub fn parse_textured_rect_variable_semi_transparent_modulated(&mut self)
        requires
            old(self).wf(),
        ensures
            final(self).wf(),
            parsed(*old(self), *final(self), 4, textured_rect_effect(*old(self), *final(self), old(self).fifo().take(4), 0, true, true)),
    {
        self.parse_textured_rect(0, true, true);
    }

    /// GP0(6Ch): textured 1x1 rectangle, opaque, raw texture.
    pub fn parse_textured_rect_1x1_opaque(&mut self)
        requires
            old(self).wf(),
        ensures
            final(self).wf(),
            parsed(*old(self), *final(self), 3, textured_rect_effect(*old(self), *final(self), old(self).fifo().take(3), 1, false, false)),
    {
        self.parse_textured_rect(1, false, false);
    }

    /// GP0(6Dh): textured 1x1 rectangle, opaque, modulated by the tint.
    pub fn parse_textured_rect_1x1_opaque_modulated(&mut self)
        requires
            old(self).wf(),
        ensures
            final(self).wf(),
            parsed(*old(self), *final(self), 3, textured_rect_effect(*old(self), *final(self), old(self).fifo().take(3), 1, false, true)),
    {
        self.parse_textured_rect(1, false, true);
    }

    /// GP0(6Eh): textured 1x1 rectangle, semi-transparent, raw texture.
    pub fn parse_textured_rect_1x1_semi_transparent(&mut self)
        requires
            old(self).wf(),
        ensures
            final(self).wf(),
            parsed(*old(self), *final(self), 3, textured_rect_effect(*old(self), *final(self), old(self).fifo().take(3), 1, true, false)),
    {
        self.parse_textured_rect(1, true, false);
    }

    /// GP0(6Fh): textured 1x1 rectangle, semi-transparent, modulated by the tint.
    pub fn parse_textured_rect_1x1_semi_transparent_modulated(&mut self)
        requires
            old(self).wf(),
        ensures
            final(self).wf(),
            parsed(*old(self), *final(self), 3, textured_rect_effect(*old(self), *final(self), old(self).fifo().take(3), 1, true, true)),
    {
        self.parse_textured_rect(1, true, true);
    }

    /// GP0(74h): textured 8x8 rectangle, opaque, raw texture.
    pub fn parse_textured_rect_8x8_opaque(&mut self)
        requires
            old(self).wf(),
        ensures
            final(self).wf(),
            parsed(*old(self), *final(self), 3, textured_rect_effect(*old(self), *final(self), old(self).fifo().take(3), 8, false, false)),
    {
        self.parse_textured_rect(8, false, false);
    }

    /// GP0(75h): textured 8x8 rectangle, opaque, modulated by the tint.
    pub fn parse_textured_rect_8x8_opaque_modulated(&mut self)
        requires
            old(self).wf(),
        ensures
            final(self).wf(),
            parsed(*old(self), *final(self), 3, textured_rect_effect(*old(self), *final(self), old(self).fifo().take(3), 8, false, true)),
    {
        self.parse_textured_rect(8, false, true);
    }

    /// GP0(76h): textured 8x8 rectangle, semi-transparent, raw texture.
    pub fn parse_textured_rect_8x8_semi_transparent(&mut self)
        requires
            old(self).wf(),
        ensures
            final(self).wf(),
            parsed(*old(self), *final(self), 3, textured_rect_effect(*old(self), *final(self), old(self).fifo().take(3), 8, true, false)),
    {
        self.parse_textured_rect(8, true, false);
    }

    /// GP0(77h): textured 8x8 rectangle, semi-transparent, modulated by the tint.
    pub fn parse_textured_rect_8x8_semi_transparent_modulated(&mut self)
        requires
            old(self).wf(),
        ensures
            final(self).wf(),
            parsed(*old(self), *final(self), 3, textured_rect_effect(*old(self), *final(self), old(self).fifo().take(3), 8, true, true)),
    {
        self.parse_textured_rect(8, true, true);
    }

    /// GP0(7Ch): textured 16x16 rectangle, opaque, raw texture.
    pub fn parse_textured_rect_16x16_opaque(&mut self)
        requires
            old(self).wf(),
        ensures
            final(self).wf(),
            parsed(*old(self), *final(self), 3, textured_rect_effect(*old(self), *final(self), old(self).fifo().take(3), 16, false, false)),
    {
        self.parse_textured_rect(16, false, false);
    }

    /// GP0(7Dh): textured 16x16 rectangle, opaque, modulated by the tint.
    pub fn parse_textured_rect_16x16_opaque_modulated(&mut self)
        requires
            old(self).wf(),
        ensures
            final(self).wf(),
            parsed(*old(self), *final(self), 3, textured_rect_effect(*old(self), *final(self), old(self).fifo().take(3), 16, false, true)),
    {
        self.parse_textured_rect(16, false, true);
    }

    /// GP0(7Eh): textured 16x16 rectangle, semi-transparent, raw texture.
    pub fn parse_textured_rect_16x16_semi_transparent(&mut self)
        requires
            old(self).wf(),
        ensures
            final(self).wf(),
            parsed(*old(self), *final(self), 3, textured_rect_effect(*old(self), *final(self), old(self).fifo().take(3), 16, true, false)),
    {
        self.parse_textured_rect(16, true, false);
    }

    /// GP0(7Fh): textured 16x16 rectangle, semi-transparent, modulated by the tint.
    pub fn parse_textured_rect_16x16_semi_transparent_modulated(&mut self)
        requires
            old(self).wf(),
        ensures
            final(self).wf(),
            parsed(*old(self), *final(self), 3, textured_rect_effect(*old(self), *final(self), old(self).fifo().take(3), 16, true, true)),
    {
        self.parse_textured_rect(16, true, true);
    }

    /// Flat or shaded lines (semi-transparency is not applied).
    fn parse_line(&mut self, shaded: bool, semi_transparent: bool)
        requires
            old(self).wf(),
        ensures
            final(self).wf(),
            shaded ==> parsed(*old(self), *final(self), 4, shaded_line_effect(*old(self), *final(self), old(self).fifo().take(4))),
            !shaded ==> parsed(*old(self), *final(self), 3, line_effect(*old(self), *final(self), old(self).fifo().take(3))),
    {
        let n: usize = if shaded { 4 } else { 3 };
        if self.command_fifo.len() < n {
            return;
        }
        let w = self.pop_words(n);
        if shaded {
            self.render_shaded_line(Vertex::from_u32(w[1]), Color::from_u32(w[0]), Vertex::from_u32(w[3]),
                Color::from_u32(w[2]), semi_transparent);
        } else {
            self.render_line(Vertex::from_u32(w[1]), Vertex::from_u32(w[2]), Color::from_u32(w[0]), semi_transparent);
        }
    }

    /// Position of the first polyline terminator in the FIFO at `start`,
    /// `start + step`, ...
    fn find_terminator(&self, start: usize, step: usize) -> (r: Option<usize>)
        requires
            1 <= step <= 2,
            start <= 4,
        ensures
            r is None <==> find_term(self.fifo(), start as int, step as int) < 0,
            r matches Some(t) ==> t == find_term(self.fifo(), start as int, step as int) && start <= t < self.fifo().len(),
            self.fifo().len() <= usize::MAX,
    {
        let len = self.command_fifo.len();
        let mut k = start;
        while k < len
            invariant
                len == self.fifo().len(),
                start <= k,
                1 <= step <= 2,
                find_term(self.fifo(), start as int, step as int) == find_term(self.fifo(), k as int, step as int),
            decreases len - k,
        {
            if self.command_fifo[k] & 0xF000F000 == 0x50005000 {
                return Some(k);
            }
            if step >= len - k {
                return None;
            }
            k = k + step;
        }
        None
    }

    /// Flat polylines (command with colour, vertices, terminator) and
    /// shaded polylines (colour and vertex words in turn, terminator);
    /// nothing happens until the terminator has arrived.
    fn parse_polyline(&mut self, shaded: bool, semi_transparent: bool)
        requires
            old(self).wf(),
        ensures
            final(self).wf(),
            ({
                let t = if shaded { find_term(old(self).fifo(), 4, 2) } else { find_term(old(self).fifo(), 3, 1) };
                if t < 0 {
                    *final(self) == *old(self)
                } else {
                    &&& t < old(self).fifo().len()
                    &&& final(self).fifo() == old(self).fifo().skip(t + 1)
                    &&& shaded ==> shaded_polyline_effect(*old(self), *final(self), old(self).fifo().take(t + 1))
                    &&& !shaded ==> polyline_effect(*old(self), *final(self), old(self).fifo().take(t + 1))
                }
            }),
    {
        let found = if shaded { self.find_terminator(4, 2) } else { self.find_terminator(3, 1) };
        let t = match found {
            Some(t) => t,
            None => return,
        };
        let ghost g = *self;
        let w = self.pop_words(t + 1);
        if shaded {
            let n = t / 2;
            let mut vertices: Vec<Vertex> = Vec::new();
            let mut colors: Vec<Color> = Vec::new();
            let mut i: usize = 0;
            while i < n
                invariant
                    n == t / 2,
                    w@.len() == t + 1,
                    i <= n,
                    vertices@ == Seq::new(i as nat, |j: int| vertex_of(w@[2 * j + 1])),
                    colors@ == Seq::new(i as nat, |j: int| color_of(w@[2 * j])),
                decreases n - i,
            {
                colors.push(Color::from_u32(w[2 * i]));
                vertices.push(Vertex::from_u32(w[2 * i + 1]));
                i = i + 1;
                proof {
                    assert(vertices@ =~= Seq::new(i as nat, |j: int| vertex_of(w@[2 * j + 1])));
                    assert(colors@ =~= Seq::new(i as nat, |j: int| color_of(w@[2 * j])));
                }
            }
            let ghost g1 = *self;
            self.render_shaded_polyline(vertices.as_slice(), colors.as_slice(), semi_transparent);
            proof {
                assert(shaded_polyline_cmds(g1, vertices@, colors@) =~= shaded_polyline_cmds(g, vertices@, colors@));
            }
        } else {
            let mut vertices: Vec<Vertex> = Vec::new();
            let mut i: usize = 1;
            while i < t
                invariant
                    w@.len() == t + 1,
                    1 <= i <= t,
                    vertices@ == Seq::new((i - 1) as nat, |j: int| vertex_of(w@[j + 1])),
                decreases t - i,
            {
                vertices.push(Vertex::from_u32(w[i]));
                i = i + 1;
                proof {
                    assert(vertices@ =~= Seq::new((i - 1) as nat, |j: int| vertex_of(w@[j + 1])));
                }
            }
            let ghost g1 = *self;
            self.render_polyline(vertices.as_slice(), Color::from_u32(w[0]), semi_transparent);
            proof {
                let pts = Seq::new((t - 1) as nat, |j: int| offset_spec(g, vertex_of(w@[j + 1])));
                assert(vertices@.map_values(|v: Vertex| offset_spec(g1, v)) =~= pts);
            }
        }
    }

    /// GP0(E1h)-GP0(E6h): drawing mode, texture window, drawing area
    /// corners, drawing offset and mask settings; other words change nothing.
    fn gp0_environment(&mut self, value: u32)
        requires
            old(self).wf(),
        ensures
            final(self).wf(),
            final(self).fifo() == old(self).fifo(),
            env_effect(*old(self), *final(self), value),
    {
        let op = value >> 24u32;
        if op == 0xE1 {
            proof {
                assert(value & 0xF <= 0xF && (value >> 4u32) & 1 <= 1) by (bit_vector);
            }
            self.draw_mode = DrawMode {
                texture_page_x_base: ((value & 0xF) * 64) as u16,
                texture_page_y_base: (((value >> 4u32) & 1) * 256) as u16,
                semi_transparency: ((value >> 5u32) & 3) as u8,
                texture_depth: ((value >> 7u32) & 3) as u8,
                dithering: (value >> 9u32) & 1 != 0,
                draw_to_display: (value >> 10u32) & 1 != 0,
                texture_disable: (value >> 11u32) & 1 != 0,
                texture_x_flip: (value >> 12u32) & 1 != 0,
                texture_y_flip: (value >> 13u32) & 1 != 0,
            };
            self.status = GPUStatus {
                texture_page_x_base: (value & 0xF) as u8,
                texture_page_y_base: ((value >> 4u32) & 1) as u8,
                semi_transparency: ((value >> 5u32) & 3) as u8,
                texture_depth: ((value >> 7u32) & 3) as u8,
                dithering: (value >> 9u32) & 1 != 0,
                draw_to_display: (value >> 10u32) & 1 != 0,
                texture_disable: (value >> 11u32) & 1 != 0,
                ..self.status
            };
        } else if op == 0xE2 {
            self.texture_window = TextureWindow {
                mask_x: (value & 0x1F) as u8,
                mask_y: ((value >> 5u32) & 0x1F) as u8,
                offset_x: ((value >> 10u32) & 0x1F) as u8,
                offset_y: ((value >> 15u32) & 0x1F) as u8,
            };
        } else if op == 0xE3 || op == 0xE4 {
            proof {
                assert(value & 0x3FF <= 0x3FF && (value >> 10u32) & 0x1FF <= 0x1FF) by (bit_vector);
            }
            let x = (value & 0x3FF) as u16;
            let y = ((value >> 10u32) & 0x1FF) as u16;
            if op == 0xE3 {
                self.draw_area = DrawingArea { left: x, top: y, ..self.draw_area };
            } else {
                self.draw_area = DrawingArea { right: x, bottom: y, ..self.draw_area };
            }
            self.rasterizer.set_clip_rect(
                self.draw_area.left as i16,
                self.draw_area.top as i16,
                self.draw_area.right as i16,
                self.draw_area.bottom as i16,
            );
        } else if op == 0xE5 {
            self.draw_offset = (sext11(value), sext11(value >> 11u32));
        } else if op == 0xE6 {
            self.status = GPUStatus {
                set_mask_bit: value & 1 != 0,
                draw_pixels: (value >> 1u32) & 1 != 0,
                ..self.status
            };
        }
    }

    /// Textured rectangles: `s` selects the size (variable, 1x1, 8x8 or
    /// 16x16).
    fn dispatch_textured_rect(&mut self, s: u32, semi: bool, modulated: bool)
        requires
            old(self).wf(),
            s < 4,
        ensures
            final(self).wf(),
            ({
                let size: u16 = if s == 0 { 0 } else if s == 1 { 1 } else if s == 2 { 8 } else { 16 };
                let n: int = if size == 0 { 4 } else { 3 };
                parsed(*old(self), *final(self), n,
                    textured_rect_effect(*old(self), *final(self), old(self).fifo().take(n), size, semi, modulated))
            }),
    {
        match (s, semi, modulated) {
            (0, false, false) => self.parse_textured_rect_variable_opaque(),
            (0, false, true) => self.parse_textured_rect_variable_opaque_modulated(),
            (0, true, false) => self.parse_textured_rect_variable_semi_transparent(),
            (0, true, true) => self.parse_textured_rect_variable_semi_transparent_modulated(),
            (1, false, false) => self.parse_textured_rect_1x1_opaque(),
            (1, false, true) => self.parse_textured_rect_1x1_opaque_modulated(),
            (1, true, false) => self.parse_textured_rect_1x1_semi_transparent(),
            (1, true, true) => self.parse_textured_rect_1x1_semi_transparent_modulated(),
            (2, false, false) => self.parse_textured_rect_8x8_opaque(),
            (2, false, true) => self.parse_textured_rect_8x8_opaque_modulated(),
            (2, true, false) => self.parse_textured_rect_8x8_semi_transparent(),
            (2, true, true) => self.parse_textured_rect_8x8_semi_transparent_modulated(),
            (_, false, false) => self.parse_textured_rect_16x16_opaque(),
            (_, false, true) => self.parse_textured_rect_16x16_opaque_modulated(),
            (_, true, false) => self.parse_textured_rect_16x16_semi_transparent(),
            (_, true, true) => self.parse_textured_rect_16x16_semi_transparent_modulated(),
        }
    }

    /// Run the command at the front of the FIFO if all its words have arrived.
    fn execute_command(&mut self)
        requires
            old(self).wf(),
            old(self).fifo().len() >= 1,
        ensures
            final(self).wf(),
            ({
                let w = old(self).fifo();
                let n = command_len(w);
                if n > w.len() {
                    *final(self) == *old(self)
                } else {
                    final(self).fifo() == w.skip(n) && command_effect(*old(self), *final(self), w.take(n))
                }
            }),
    {
        let op = self.command_fifo[0] >> 24u32;
        let class = op >> 5u32;
        let semi = op & 0x02 != 0;
        if class == 1 {
            let quad = op & 0x08 != 0;
            let shaded = op & 0x10 != 0;
            let textured = op & 0x04 != 0;
            if shaded && textured {
                let _ = self.pop_words(1);
            } else if shaded {
                match (quad, semi) {
                    (false, false) => self.parse_shaded_triangle_opaque(),
                    (false, true) => self.parse_shaded_triangle_semi_transparent(),
                    (true, false) => self.parse_shaded_quad_opaque(),
                    (true, true) => self.parse_shaded_quad_semi_transparent(),
                }
            } else if textured {
                match (quad, semi) {
                    (false, false) => self.parse_textured_triangle_opaque(),
                    (false, true) => self.parse_textured_triangle_semi_transparent(),
                    (true, false) => self.parse_textured_quad_opaque(),
                    (true, true) => self.parse_textured_quad_semi_transparent(),
                }
            } else {
                match (quad, semi) {
                    (false, false) => self.parse_monochrome_triangle_opaque(),
                    (false, true) => self.parse_monochrome_triangle_semi_transparent(),
                    (true, false) => self.parse_monochrome_quad_opaque(),
                    (true, true) => self.parse_monochrome_quad_semi_transparent(),
                }
            }
        } else if class == 2 {
            let shaded = op & 0x10 != 0;
            if op & 0x08 != 0 {
                self.parse_polyline(shaded, semi);
            } else {
                self.parse_line(shaded, semi);
            }
        } else if class == 3 {
            let s = (op >> 3u32) & 3;
            assert(s < 4) by (bit_vector)
                requires s == (op >> 3u32) & 3;
            let modulated = op & 0x01 != 0;
            if op & 0x04 != 0 {
                self.dispatch_textured_rect(s, semi, modulated);
            } else {
                match (s, semi) {
                    (0, false) => self.parse_monochrome_rect_variable_opaque(),
                    (0, true) => self.parse_monochrome_rect_variable_semi_transparent(),
                    (1, false) => self.parse_monochrome_rect_1x1_opaque(),
                    (1, true) => self.parse_monochrome_rect_1x1_semi_transparent(),
                    (2, false) => self.parse_monochrome_rect_8x8_opaque(),
                    (2, true) => self.parse_monochrome_rect_8x8_semi_transparent(),
                    (_, false) => self.parse_monochrome_rect_16x16_opaque(),
                    (_, true) => self.parse_monochrome_rect_16x16_semi_transparent(),
                }
            }
        } else if class == 4 {
            self.gp0_vram_to_vram_transfer();
        } else if class == 5 {
            self.gp0_cpu_to_vram_transfer();
        } else if class == 6 {
            self.gp0_vram_to_cpu_transfer();
        } else {
            let w = self.pop_words(1);
            if class == 7 {
                self.gp0_environment(w[0]);
            }
        }
    }

    /// Write a GP0 word: pixel data during a CPU-to-VRAM transfer, else a
    /// command word, run once its command is complete.
    pub fn write_gp0(&mut self, value: u32)
        requires
            old(self).wf(),
        ensures
            final(self).wf(),
            gp0_post(*old(self), *final(self), value),
    {
        if let Some(t) = self.vram_transfer {
            if t.direction == VRAMTransferDirection::CpuToVram {
                self.process_vram_write(value);
                return;
            }
        }
        let ghost g = *self;
        self.command_fifo.push_back(value);
        let ghost mid = *self;
        self.execute_command();
        proof {
            let w = mid.fifo();
            let n = command_len(w);
            if n <= w.len() {
                lemma_effect_ignores_fifo(mid, g, *self, w.take(n));
            }
        }
    }
}

} // verus!
