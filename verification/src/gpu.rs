//! GPU: VRAM, the GP0 command FIFO with its drawing and transfer commands,
//! GP1 display control, GPUSTAT and GPUREAD.
//!
//! Drawing commands whose rasterization is computed in floating point
//! (filled triangles and quads, Gouraud shading, textured polygons and
//! shaded lines) are not rasterized here: they are resolved (drawing offset
//! applied, colours converted, blend mode and clip rectangle fixed) and
//! queued as [`DrawCommand`]s, which the caller takes with
//! [`GPU::drain_pending_draws`] and rasterizes in order after each GP0 write.
//! Rectangles, lines and polylines, VRAM transfers and all state commands
//! are carried out here.

use vstd::prelude::*;

pub mod gp0;
pub mod gp1;
pub mod line;
pub mod primitives;
pub mod rasterizer;
pub mod registers;
pub mod render;
pub mod transfer;

use self::primitives::{BlendMode, TextureInfo};
use self::rasterizer::{Rasterizer, VRAM_SIZE, area_ok};
use self::registers::{DisplayArea, DisplayMode, DrawMode, DrawingArea, GPUStatus, TextureWindow, VRAMTransfer};

pub use self::primitives::{Color, TexCoord, TextureDepth, Vertex};

verus! {

/// A drawing command resolved by the GPU and left for the floating-point
/// rasterizer. Coordinates already include the drawing offset; `clip` is the
/// clip rectangle (left, top, right, bottom, inclusive) at the time of the command.
#[derive(Debug, Clone, Copy)]
pub enum DrawCommand {
    /// A flat triangle in 15-bit colour, blended when a mode is given.
    Triangle {
        v0: (i16, i16),
        v1: (i16, i16),
        v2: (i16, i16),
        color: u16,
        blend: Option<BlendMode>,
        clip: (i16, i16, i16, i16),
    },
    /// A Gouraud-shaded triangle with 24-bit vertex colours.
    GradientTriangle {
        v0: (i16, i16),
        c0: (u8, u8, u8),
        v1: (i16, i16),
        c1: (u8, u8, u8),
        v2: (i16, i16),
        c2: (u8, u8, u8),
        clip: (i16, i16, i16, i16),
    },
    /// A textured triangle tinted by a colour (128 is neutral).
    TexturedTriangle {
        v0: (i16, i16),
        t0: (u8, u8),
        v1: (i16, i16),
        t1: (u8, u8),
        v2: (i16, i16),
        t2: (u8, u8),
        info: TextureInfo,
        window: TextureWindow,
        tint: (u8, u8, u8),
        clip: (i16, i16, i16, i16),
    },
    /// A line whose colour is interpolated between its end points.
    GradientLine {
        p0: (i16, i16),
        c0: (u8, u8, u8),
        p1: (i16, i16),
        c1: (u8, u8, u8),
        clip: (i16, i16, i16, i16),
    },
}

/// A VRAM transfer is in range: its origin inside VRAM, its size 1..=1024
/// by 1..=512, and its cursor inside the rectangle.
pub open spec fn transfer_ok(t: Option<VRAMTransfer>) -> bool {
    match t {
        Some(t) => t.x <= 1023 && t.y <= 511 && 1 <= t.width <= 1024 && 1 <= t.height <= 512
            && t.current_x < t.width && t.current_y < t.height,
        None => true,
    }
}

/// VRAM index of (x, y), each coordinate wrapping around VRAM.
pub open spec fn vidx(x: u16, y: u16) -> int {
    ((y & 0x1FF) as int) * 1024 + ((x & 0x3FF) as int)
}

/// The GPU.
pub struct GPU {
    /// VRAM, 1024x512 pixels of 16 bits, row by row.
    pub vram: Vec<u16>,
    /// Words of the GP0 command being received.
    pub command_fifo: std::collections::VecDeque<u32>,
    pub draw_mode: DrawMode,
    pub draw_area: DrawingArea,
    pub draw_offset: (i16, i16),
    pub texture_window: TextureWindow,
    pub display_area: DisplayArea,
    pub display_mode: DisplayMode,
    pub status: GPUStatus,
    /// The VRAM transfer in progress, if any.
    pub vram_transfer: Option<VRAMTransfer>,
    /// The rasterizer, whose clip rectangle follows the drawing area.
    pub rasterizer: Rasterizer,
    /// Drawing commands waiting for the floating-point rasterizer.
    pub pending_draws: Vec<DrawCommand>,
}

impl GPU {
    /// VRAM is 1024x512 pixels, the transfer in progress is in range and the
    /// drawing area's exclusive edges fit in i16.
    pub open spec fn wf(&self) -> bool {
        &&& self.vram_spec().len() == VRAM_SIZE
        &&& transfer_ok(self.vram_transfer)
        &&& area_ok(self.draw_area)
    }

    /// Contents of VRAM.
    pub open spec fn vram_spec(&self) -> Seq<u16> {
        self.vram@
    }

    /// The rasterizer's clip rectangle.
    pub open spec fn clip_spec(&self) -> (i16, i16, i16, i16) {
        self.rasterizer.clip_spec()
    }

    /// Drawing commands waiting for the floating-point rasterizer.
    pub open spec fn pending_spec(&self) -> Seq<DrawCommand> {
        self.pending_draws@
    }

    /// The GP0 FIFO as a sequence.
    pub open spec fn fifo(&self) -> Seq<u32> {
        self.command_fifo@
    }

    /// All registers (everything but VRAM, the FIFO and the pending draws) are equal.
    pub open spec fn same_regs(&self, other: &GPU) -> bool {
        &&& self.draw_mode == other.draw_mode
        &&& self.draw_area == other.draw_area
        &&& self.draw_offset == other.draw_offset
        &&& self.texture_window == other.texture_window
        &&& self.display_area == other.display_area
        &&& self.display_mode == other.display_mode
        &&& self.status == other.status
        &&& self.vram_transfer == other.vram_transfer
        &&& self.clip_spec() == other.clip_spec()
    }

    /// A new GPU: VRAM cleared, empty FIFO, default registers, no transfer.
    pub fn new() -> (gpu: Self)
        ensures
            gpu.wf(),
            gpu.vram_spec() == Seq::new(VRAM_SIZE as nat, |i: int| 0u16),
            gpu.fifo().len() == 0,
            gpu.pending_spec().len() == 0,
            gpu.draw_mode == DrawMode::initial(),
            gpu.draw_area == DrawingArea::initial(),
            gpu.draw_offset == (0i16, 0i16),
            gpu.texture_window == TextureWindow::initial(),
            gpu.display_area == DisplayArea::initial(),
            gpu.display_mode == DisplayMode::initial(),
            gpu.status == GPUStatus::initial(),
            gpu.vram_transfer.is_none(),
            gpu.clip_spec() == (0i16, 0i16, 1023i16, 511i16),
    {
        let mut vram: Vec<u16> = Vec::with_capacity(VRAM_SIZE);
        let mut i: usize = 0;
        while i < VRAM_SIZE
            invariant
                i <= VRAM_SIZE,
                vram@ == Seq::new(i as nat, |j: int| 0u16),
            decreases VRAM_SIZE - i,
        {
            vram.push(0);
            i = i + 1;
            assert(vram@ =~= Seq::new(i as nat, |j: int| 0u16));
        }
        GPU {
            vram,
            command_fifo: std::collections::VecDeque::new(),
            draw_mode: DrawMode::default(),
            draw_area: DrawingArea::default(),
            draw_offset: (0, 0),
            texture_window: TextureWindow::default(),
            display_area: DisplayArea::default(),
            display_mode: DisplayMode::default(),
            status: GPUStatus::default(),
            vram_transfer: None,
            rasterizer: Rasterizer::new(),
            pending_draws: Vec::new(),
        }
    }

    /// Read the VRAM pixel at (x, y); coordinates wrap around VRAM.
    pub fn read_vram(&self, x: u16, y: u16) -> (r: u16)
        requires
            self.wf(),
        ensures
            r == self.vram_spec()[vidx(x, y)],
    {
        proof { lemma_vidx(x, y); }
        self.vram[((y & 0x1FF) as usize) * 1024 + ((x & 0x3FF) as usize)]
    }

    /// Write the VRAM pixel at (x, y); coordinates wrap around VRAM.
    pub fn write_vram(&mut self, x: u16, y: u16, value: u16)
        requires
            old(self).wf(),
        ensures
            final(self).wf(),
            final(self).vram_spec() == old(self).vram_spec().update(vidx(x, y), value),
            final(self).same_regs(old(self)),
            final(self).fifo() == old(self).fifo(),
            final(self).pending_spec() == old(self).pending_spec(),
    {
        proof { lemma_vidx(x, y); }
        self.vram.set(((y & 0x1FF) as usize) * 1024 + ((x & 0x3FF) as usize), value);
    }

    /// The whole of VRAM, for the floating-point rasterizer and display output.
    pub fn vram_mut(&mut self) -> (r: &mut [u16])
        requires
            old(self).wf(),
        ensures
            r@ == old(self).vram_spec(),
            final(self).vram_spec() == final(r)@,
            final(self).same_regs(old(self)),
            final(self).fifo() == old(self).fifo(),
            final(self).pending_spec() == old(self).pending_spec(),
    {
        self.vram.as_mut_slice()
    }

    /// The rasterizer (its clip rectangle follows the drawing area).
    pub fn rasterizer(&self) -> (r: &Rasterizer)
        ensures
            r.clip_spec() == self.clip_spec(),
    {
        &self.rasterizer
    }

    /// Take the drawing commands queued for the floating-point rasterizer,
    /// in the order they were received.
    pub fn drain_pending_draws(&mut self) -> (r: Vec<DrawCommand>)
        requires
            old(self).wf(),
        ensures
            final(self).wf(),
            r@ == old(self).pending_spec(),
            final(self).pending_spec().len() == 0,
            final(self).vram_spec() == old(self).vram_spec(),
            final(self).same_regs(old(self)),
            final(self).fifo() == old(self).fifo(),
    {
        let mut out: Vec<DrawCommand> = Vec::new();
        core::mem::swap(&mut out, &mut self.pending_draws);
        out
    }
}

/// 1 for true, 0 for false.
pub open spec fn flag(b: bool) -> u32 {
    if b {
        1
    } else {
        0
    }
}

/// GPUSTAT as read from the status port: texture page X (bits 0-3) and
/// Y (4), semi-transparency (5-6), texture depth (7-8), dithering (9),
/// drawing to the display area (10), set mask (11), mask check (12),
/// interlace field (13), reverse flag (14), texture disable (15),
/// horizontal resolution 2 (16) and 1 (17-18), vertical resolution (19),
/// video mode (20), colour depth (21), interlace (22), display disabled
/// (23), interrupt request (24), DMA request (25), ready for a command (26),
/// ready to send VRAM (27), ready for DMA (28), DMA direction (29-30) and
/// odd line (31).
pub open spec fn gpustat_spec(s: GPUStatus) -> u32 {
    pack_gpustat(
        (s.texture_page_x_base as u32) & 0xF, (s.texture_page_y_base as u32) & 1,
        (s.semi_transparency as u32) & 3, (s.texture_depth as u32) & 3, flag(s.dithering),
        flag(s.draw_to_display), flag(s.set_mask_bit), flag(s.draw_pixels),
        flag(s.interlace_field), flag(s.reverse_flag), flag(s.texture_disable),
        (s.horizontal_res_2 as u32) & 1, (s.horizontal_res_1 as u32) & 3, flag(s.vertical_res),
        flag(s.video_mode), flag(s.display_area_color_depth), flag(s.vertical_interlace),
        flag(s.display_disabled), flag(s.interrupt_request), flag(s.dma_request),
        flag(s.ready_to_receive_cmd), flag(s.ready_to_send_vram), flag(s.ready_to_receive_dma),
        (s.dma_direction as u32) & 3, flag(s.drawing_odd_line),
    )
}

/// The GPUSTAT bit layout: each argument shifted to its bit position.
#[verifier::opaque]
pub open spec fn pack_gpustat(
    a: u32, b: u32, c: u32, d: u32, e: u32, f: u32, g: u32, h: u32, i: u32, j: u32, k: u32,
    l: u32, m: u32, n: u32, o: u32, p: u32, q: u32, r: u32, s: u32, t: u32, u: u32, v: u32,
    w: u32, x: u32, y: u32,
) -> u32 {
    a | (b << 4u32) | (c << 5u32) | (d << 7u32) | (e << 9u32) | (f << 10u32) | (g << 11u32) | (h
        << 12u32) | (i << 13u32) | (j << 14u32) | (k << 15u32) | (l << 16u32) | (m << 17u32) | (n
        << 19u32) | (o << 20u32) | (p << 21u32) | (q << 22u32) | (r << 23u32) | (s << 24u32) | (t
        << 25u32) | (u << 26u32) | (v << 27u32) | (w << 28u32) | (x << 29u32) | (y << 31u32)
}

fn flag_bit(b: bool) -> (r: u32)
    ensures
        r == flag(b),
{
    if b {
        1
    } else {
        0
    }
}

impl GPU {
    /// The GPUSTAT register.
    pub fn status(&self) -> (r: u32)
        ensures
            r == gpustat_spec(self.status),
    {
        proof {
            reveal(pack_gpustat);
        }
        let s = &self.status;
        ((s.texture_page_x_base as u32) & 0xF) | (((s.texture_page_y_base as u32) & 1) << 4u32) | (((
        s.semi_transparency as u32) & 3) << 5u32) | (((s.texture_depth as u32) & 3) << 7u32) | (
        flag_bit(s.dithering) << 9u32) | (flag_bit(s.draw_to_display) << 10u32) | (flag_bit(
            s.set_mask_bit,
        ) << 11u32) | (flag_bit(s.draw_pixels) << 12u32) | (flag_bit(s.interlace_field) << 13u32) | (
        flag_bit(s.reverse_flag) << 14u32) | (flag_bit(s.texture_disable) << 15u32) | (((
        s.horizontal_res_2 as u32) & 1) << 16u32) | (((s.horizontal_res_1 as u32) & 3) << 17u32) | (
        flag_bit(s.vertical_res) << 19u32) | (flag_bit(s.video_mode) << 20u32) | (flag_bit(
            s.display_area_color_depth,
        ) << 21u32) | (flag_bit(s.vertical_interlace) << 22u32) | (flag_bit(s.display_disabled)
            << 23u32) | (flag_bit(s.interrupt_request) << 24u32) | (flag_bit(s.dma_request) << 25u32)
            | (flag_bit(s.ready_to_receive_cmd) << 26u32) | (flag_bit(s.ready_to_send_vram) << 27u32)
            | (flag_bit(s.ready_to_receive_dma) << 28u32) | (((s.dma_direction as u32) & 3) << 29u32)
            | (flag_bit(s.drawing_odd_line) << 31u32)
    }
}

/// Every field packed into GPUSTAT can be read back from its bits.
pub proof fn law_gpustat_fields(
    a: u32, b: u32, c: u32, d: u32, e: u32, f: u32, g: u32, h: u32, i: u32, j: u32, k: u32,
    l: u32, m: u32, n: u32, o: u32, p: u32, q: u32, r: u32, s: u32, t: u32, u: u32, v: u32,
    w: u32, x: u32, y: u32,
)
    requires
        a <= 0xF, b <= 1, c <= 3, d <= 3, e <= 1, f <= 1, g <= 1, h <= 1, i <= 1, j <= 1, k <= 1,
        l <= 1, m <= 3, n <= 1, o <= 1, p <= 1, q <= 1, r <= 1, s <= 1, t <= 1, u <= 1, v <= 1,
        w <= 1, x <= 3, y <= 1,
    ensures
        ({
            let word = pack_gpustat(a, b, c, d, e, f, g, h, i, j, k, l, m, n, o, p, q, r, s, t, u, v, w, x, y);
            &&& word & 0xF == a
            &&& (word >> 4u32) & 1 == b
            &&& (word >> 5u32) & 3 == c
            &&& (word >> 7u32) & 3 == d
            &&& (word >> 17u32) & 3 == m
            &&& (word >> 19u32) & 1 == n
            &&& (word >> 20u32) & 1 == o
            &&& (word >> 23u32) & 1 == r
            &&& (word >> 24u32) & 1 == s
            &&& (word >> 26u32) & 1 == u
            &&& (word >> 27u32) & 1 == v
            &&& (word >> 28u32) & 1 == w
            &&& (word >> 29u32) & 3 == x
        }),
{
    reveal(pack_gpustat);
    let word = pack_gpustat(a, b, c, d, e, f, g, h, i, j, k, l, m, n, o, p, q, r, s, t, u, v, w, x, y);
    assert({
        &&& word & 0xF == a
        &&& (word >> 4u32) & 1 == b
        &&& (word >> 5u32) & 3 == c
        &&& (word >> 7u32) & 3 == d
        &&& (word >> 17u32) & 3 == m
        &&& (word >> 19u32) & 1 == n
        &&& (word >> 20u32) & 1 == o
        &&& (word >> 23u32) & 1 == r
        &&& (word >> 24u32) & 1 == s
        &&& (word >> 26u32) & 1 == u
        &&& (word >> 27u32) & 1 == v
        &&& (word >> 28u32) & 1 == w
        &&& (word >> 29u32) & 3 == x
    }) by (bit_vector)
        requires
            word == a | (b << 4u32) | (c << 5u32) | (d << 7u32) | (e << 9u32) | (f << 10u32) | (g
                << 11u32) | (h << 12u32) | (i << 13u32) | (j << 14u32) | (k << 15u32) | (l << 16u32)
                | (m << 17u32) | (n << 19u32) | (o << 20u32) | (p << 21u32) | (q << 22u32) | (r
                << 23u32) | (s << 24u32) | (t << 25u32) | (u << 26u32) | (v << 27u32) | (w << 28u32)
                | (x << 29u32) | (y << 31u32),
            a <= 0xF, b <= 1, c <= 3, d <= 3, e <= 1, f <= 1, g <= 1, h <= 1, i <= 1, j <= 1,
            k <= 1, l <= 1, m <= 3, n <= 1, o <= 1, p <= 1, q <= 1, r <= 1, s <= 1, t <= 1,
            u <= 1, v <= 1, w <= 1, x <= 3, y <= 1,
    ;
}

/// A wrapped VRAM position is inside VRAM.
pub proof fn lemma_vidx(x: u16, y: u16)
    ensures
        0 <= vidx(x, y) < VRAM_SIZE,
        (x & 0x3FF) < 1024,
        (y & 0x1FF) < 512,
{
    assert(x & 0x3FF < 1024 && y & 0x1FF < 512) by (bit_vector);
}

/// Reading a pixel gives back the last value written there; writing
/// elsewhere does not change it.
pub proof fn law_vram_read_after_write(vram: Seq<u16>, x: u16, y: u16, value: u16, x2: u16, y2: u16)
    requires
        vram.len() == VRAM_SIZE,
    ensures
        vram.update(vidx(x, y), value)[vidx(x, y)] == value,
        vidx(x2, y2) != vidx(x, y) ==> vram.update(vidx(x, y), value)[vidx(x2, y2)] == vram[vidx(
            x2,
            y2,
        )],
        (x2 & 0x3FF) != (x & 0x3FF) || (y2 & 0x1FF) != (y & 0x1FF) ==> vidx(x2, y2) != vidx(x, y),
{
    lemma_vidx(x, y);
    lemma_vidx(x2, y2);
    if (x2 & 0x3FF) != (x & 0x3FF) || (y2 & 0x1FF) != (y & 0x1FF) {
        let a = (x & 0x3FF) as int;
        let b = (y & 0x1FF) as int;
        let c = (x2 & 0x3FF) as int;
        let d = (y2 & 0x1FF) as int;
        if b == d {
            assert(a != c);
        } else {
            assert(b * 1024 + a != d * 1024 + c) by (nonlinear_arith)
                requires b != d, 0 <= a < 1024, 0 <= c < 1024;
        }
    }
}

} // verus!
