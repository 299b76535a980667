//! VRAM transfers: CPU to VRAM (GP0(A0h) and the data words that follow),
//! VRAM to CPU (GP0(C0h) and GPUREAD), and VRAM to VRAM copies (GP0(80h)).

use vstd::prelude::*;

use super::{GPU, vidx, transfer_ok, lemma_vidx, law_vram_read_after_write};
use super::registers::{GPUStatus, VRAMTransfer, VRAMTransferDirection};
use super::rasterizer::{VRAM_SIZE, lemma_index, lemma_index_inverse, px_col, px_row};
use vstd::arithmetic::div_mod::lemma_fundamental_div_mod_converse;

verus! {

/// A transfer size field: 0 means the maximum, so the size is
/// ((n - 1) mod 2^16 & mask) + 1.
pub open spec fn size_spec(n: u16, mask: u16) -> u16 {
    ((vstd::wrapping::u16_specs::wrapping_sub(n, 1) & mask) + 1) as u16
}

/// The VRAM X coordinate of a transfer's cursor.
pub open spec fn cursor_x(t: VRAMTransfer) -> u16 {
    ((t.x + t.current_x) as u16) & 0x3FF
}

/// The VRAM Y coordinate of a transfer's cursor.
pub open spec fn cursor_y(t: VRAMTransfer) -> u16 {
    ((t.y + t.current_y) as u16) & 0x1FF
}

/// The cursor moved one pixel right, wrapping to the next line of the rectangle.
pub open spec fn advance_spec(t: VRAMTransfer) -> VRAMTransfer {
    if t.current_x + 1 >= t.width {
        VRAMTransfer { current_x: 0, current_y: (t.current_y + 1) as u16, ..t }
    } else {
        VRAMTransfer { current_x: (t.current_x + 1) as u16, ..t }
    }
}

/// VRAM and transfer state after one 32-bit word (two pixels, low half
/// first) of a CPU-to-VRAM transfer; the second pixel is dropped when the
/// rectangle is already complete, and the transfer ends when it is.
pub open spec fn vram_write_spec(vram: Seq<u16>, t: VRAMTransfer, value: u32) -> (Seq<u16>, Option<VRAMTransfer>) {
    let p1 = (value & 0xFFFF) as u16;
    let p2 = ((value >> 16u32) & 0xFFFF) as u16;
    let v1 = vram.update(vidx(cursor_x(t), cursor_y(t)), p1);
    let t1 = advance_spec(t);
    let (v2, t2) = if t1.current_y < t1.height {
        (v1.update(vidx(cursor_x(t1), cursor_y(t1)), p2), advance_spec(t1))
    } else {
        (v1, t1)
    };
    (v2, if t2.current_y >= t2.height { None } else { Some(t2) })
}

/// The word returned by a GPUREAD during a VRAM-to-CPU transfer (two pixels,
/// the first in the low half; 0 for a pixel past the end), and the transfer
/// state after it.
pub open spec fn vram_read_spec(vram: Seq<u16>, t: VRAMTransfer) -> (u32, Option<VRAMTransfer>) {
    let p1 = vram[vidx(cursor_x(t), cursor_y(t))];
    let t1 = advance_spec(t);
    let (p2, t2) = if t1.current_y < t1.height {
        (vram[vidx(cursor_x(t1), cursor_y(t1))], advance_spec(t1))
    } else {
        (0u16, t1)
    };
    ((p1 as u32) | ((p2 as u32) << 16u32), if t2.current_y >= t2.height { None } else { Some(t2) })
}

/// The X coordinate (low half, wrapped to VRAM) of a command's coordinate word.
pub open spec fn word_x(coords: u32) -> u16 {
    (coords & 0xFFFF) as u16 & 0x3FF
}

/// The Y coordinate (high half, wrapped to VRAM) of a command's coordinate word.
pub open spec fn word_y(coords: u32) -> u16 {
    ((coords >> 16u32) & 0xFFFF) as u16 & 0x1FF
}

/// A transfer rectangle from a command's coordinate and size words.
pub open spec fn transfer_spec(coords: u32, size: u32, direction: VRAMTransferDirection) -> VRAMTransfer {
    VRAMTransfer {
        x: word_x(coords),
        y: word_y(coords),
        width: size_spec((size & 0xFFFF) as u16, 0x3FF),
        height: size_spec(((size >> 16u32) & 0xFFFF) as u16, 0x1FF),
        current_x: 0,
        current_y: 0,
        direction,
    }
}

/// Transfer sizes are 1..=1024 wide and 1..=512 high, origins inside VRAM.
proof fn lemma_transfer_spec(coords: u32, size: u32, direction: VRAMTransferDirection)
    ensures
        transfer_ok(Some(transfer_spec(coords, size, direction))),
{
    let w = (size & 0xFFFF) as u16;
    let h = ((size >> 16u32) & 0xFFFF) as u16;
    let ws = vstd::wrapping::u16_specs::wrapping_sub(w, 1);
    let hs = vstd::wrapping::u16_specs::wrapping_sub(h, 1);
    let x = (coords & 0xFFFF) as u16;
    let y = ((coords >> 16u32) & 0xFFFF) as u16;
    assert(ws & 0x3FF <= 0x3FF && hs & 0x1FF <= 0x1FF && x & 0x3FF <= 1023 && y & 0x1FF <= 511)
        by (bit_vector);
}

/// Compute a transfer size field.
fn transfer_size(n: u16, mask: u16) -> (r: u16)
    requires
        mask == 0x3FF || mask == 0x1FF,
    ensures
        r == size_spec(n, mask),
{
    let m = n.wrapping_sub(1) & mask;
    proof {
        let ws = vstd::wrapping::u16_specs::wrapping_sub(n, 1);
        assert(ws & mask <= 0x3FF) by (bit_vector)
            requires mask == 0x3FF || mask == 0x1FF;
    }
    m + 1
}

/// Advance a transfer's cursor.
fn advance(t: VRAMTransfer) -> (r: VRAMTransfer)
    requires
        transfer_ok(Some(t)),
    ensures
        r == advance_spec(t),
        r.current_y <= t.height,
        r.current_y < t.height ==> transfer_ok(Some(r)),
        r.x == t.x && r.y == t.y && r.width == t.width && r.height == t.height,
        r.direction == t.direction,
{
    let mut t = t;
    t.current_x = t.current_x + 1;
    if t.current_x >= t.width {
        t.current_x = 0;
        t.current_y = t.current_y + 1;
    }
    t
}

impl GPU {
    /// GP0(A0h): start a CPU-to-VRAM transfer (3 words: command, destination
    /// Y:X, size H:W). Coordinates wrap to VRAM; a size of 0 means the maximum.
    /// With fewer than 3 words queued, nothing happens.
    pub(crate) fn gp0_cpu_to_vram_transfer(&mut self)
        requires
            old(self).wf(),
        ensures
            final(self).wf(),
            old(self).fifo().len() < 3 ==> *final(self) == *old(self),
            old(self).fifo().len() >= 3 ==> {
                &&& final(self).fifo() == old(self).fifo().skip(3)
                &&& cpu_to_vram_post(*old(self), *final(self), old(self).fifo().take(3))
            },
    {
        if self.command_fifo.len() < 3 {
            return;
        }
        let ghost w = self.command_fifo@;
        let _ = self.command_fifo.pop_front();
        let coords = self.command_fifo.pop_front().unwrap();
        let size = self.command_fifo.pop_front().unwrap();
        proof {
            assert(self.command_fifo@ =~= w.skip(3));
            lemma_transfer_spec(coords, size, VRAMTransferDirection::CpuToVram);
        }
        let x = (coords & 0xFFFF) as u16 & 0x3FF;
        let y = ((coords >> 16u32) & 0xFFFF) as u16 & 0x1FF;
        let width = transfer_size((size & 0xFFFF) as u16, 0x3FF);
        let height = transfer_size(((size >> 16u32) & 0xFFFF) as u16, 0x1FF);
        self.vram_transfer = Some(
            VRAMTransfer {
                x,
                y,
                width,
                height,
                current_x: 0,
                current_y: 0,
                direction: VRAMTransferDirection::CpuToVram,
            },
        );
    }

    /// GP0(80h): copy a rectangle within VRAM (4 words: command, source Y:X,
    /// destination Y:X, size H:W). Coordinates wrap to VRAM, a size of 0
    /// means the maximum. With fewer than 4 words queued, nothing happens.
    pub(crate) fn gp0_vram_to_vram_transfer(&mut self)
        requires
            old(self).wf(),
        ensures
            final(self).wf(),
            old(self).fifo().len() < 4 ==> *final(self) == *old(self),
            old(self).fifo().len() >= 4 ==> {
                &&& final(self).fifo() == old(self).fifo().skip(4)
                &&& vram_to_vram_post(*old(self), *final(self), old(self).fifo().take(4))
            },
    {
        if self.command_fifo.len() < 4 {
            return;
        }
        let ghost w = self.command_fifo@;
        let _ = self.command_fifo.pop_front();
        let src = self.command_fifo.pop_front().unwrap();
        let dst = self.command_fifo.pop_front().unwrap();
        let size = self.command_fifo.pop_front().unwrap();
        proof {
            assert(self.command_fifo@ =~= w.skip(4));
            lemma_transfer_spec(src, size, VRAMTransferDirection::CpuToVram);
            lemma_transfer_spec(dst, size, VRAMTransferDirection::CpuToVram);
        }
        let src_x = (src & 0xFFFF) as u16 & 0x3FF;
        let src_y = ((src >> 16u32) & 0xFFFF) as u16 & 0x1FF;
        let dst_x = (dst & 0xFFFF) as u16 & 0x3FF;
        let dst_y = ((dst >> 16u32) & 0xFFFF) as u16 & 0x1FF;
        let width = transfer_size((size & 0xFFFF) as u16, 0x3FF);
        let height = transfer_size(((size >> 16u32) & 0xFFFF) as u16, 0x1FF);
        copy_rect(&mut self.vram, src_x, src_y, dst_x, dst_y, width, height);
    }

    /// All registers but the transfer state are equal.
    pub open spec fn same_regs_but_transfer(&self, other: &GPU) -> bool {
        &&& self.draw_mode == other.draw_mode
        &&& self.draw_area == other.draw_area
        &&& self.draw_offset == other.draw_offset
        &&& self.texture_window == other.texture_window
        &&& self.display_area == other.display_area
        &&& self.display_mode == other.display_mode
        &&& self.clip_spec() == other.clip_spec()
    }

    /// One data word of a CPU-to-VRAM transfer: store its two pixels at the
    /// transfer's cursor and advance; the transfer ends with its last pixel.
    /// Without a transfer nothing happens.
    pub(crate) fn process_vram_write(&mut self, value: u32)
        requires
            old(self).wf(),
        ensures
            final(self).wf(),
            old(self).vram_transfer is None ==> *final(self) == *old(self),
            old(self).vram_transfer matches Some(t) ==> {
                let (v, t2) = vram_write_spec(old(self).vram_spec(), t, value);
                &&& final(self).vram_spec() == v
                &&& final(self).vram_transfer == t2
            },
            final(self).fifo() == old(self).fifo(),
            final(self).pending_spec() == old(self).pending_spec(),
            final(self).status == old(self).status,
            final(self).same_regs_but_transfer(old(self)),
    {
        let transfer = match self.vram_transfer {
            Some(t) => t,
            None => return,
        };
        self.vram_transfer = None;
        let pixel1 = (value & 0xFFFF) as u16;
        let pixel2 = ((value >> 16u32) & 0xFFFF) as u16;
        let vram_x = (transfer.x + transfer.current_x) & 0x3FF;
        let vram_y = (transfer.y + transfer.current_y) & 0x1FF;
        self.write_vram(vram_x, vram_y, pixel1);
        proof {
            lemma_mask_idem((transfer.x + transfer.current_x) as u16, (transfer.y + transfer.current_y) as u16);
        }
        let mut t = advance(transfer);
        if t.current_y < t.height {
            let vram_x = (t.x + t.current_x) & 0x3FF;
            let vram_y = (t.y + t.current_y) & 0x1FF;
            proof {
                lemma_mask_idem((t.x + t.current_x) as u16, (t.y + t.current_y) as u16);
            }
            self.write_vram(vram_x, vram_y, pixel2);
            t = advance(t);
        }
        if t.current_y < t.height {
            self.vram_transfer = Some(t);
        }
    }

    /// GP0(C0h): start a VRAM-to-CPU transfer (3 words: command, source Y:X,
    /// size H:W) and flag GPUSTAT ready to send VRAM. With fewer than 3 words
    /// queued, nothing happens.
    #[verifier::rlimit(40)]
    pub(crate) fn gp0_vram_to_cpu_transfer(&mut self)
        requires
            old(self).wf(),
        ensures
            final(self).wf(),
            old(self).fifo().len() < 3 ==> *final(self) == *old(self),
            old(self).fifo().len() >= 3 ==> {
                &&& final(self).fifo() == old(self).fifo().skip(3)
                &&& vram_to_cpu_post(*old(self), *final(self), old(self).fifo().take(3))
            },
    {
        if self.command_fifo.len() < 3 {
            return;
        }
        let ghost w = self.command_fifo@;
        let _ = self.command_fifo.pop_front();
        let coords = self.command_fifo.pop_front().unwrap();
        let size = self.command_fifo.pop_front().unwrap();
        proof {
            assert(self.command_fifo@ =~= w.skip(3));
            lemma_transfer_spec(coords, size, VRAMTransferDirection::VramToCpu);
        }
        let x = (coords & 0xFFFF) as u16 & 0x3FF;
        let y = ((coords >> 16u32) & 0xFFFF) as u16 & 0x1FF;
        let width = transfer_size((size & 0xFFFF) as u16, 0x3FF);
        let height = transfer_size(((size >> 16u32) & 0xFFFF) as u16, 0x1FF);
        self.vram_transfer = Some(
            VRAMTransfer {
                x,
                y,
                width,
                height,
                current_x: 0,
                current_y: 0,
                direction: VRAMTransferDirection::VramToCpu,
            },
        );
        self.status.ready_to_send_vram = true;
    }

    /// GPUREAD: during a VRAM-to-CPU transfer, the next two pixels (first in
    /// the low half); when the rectangle is complete the transfer ends and
    /// GPUSTAT no longer reports VRAM ready to send. Otherwise 0.
    #[verifier::rlimit(40)]
    pub fn read_gpuread(&mut self) -> (r: u32)
        requires
            old(self).wf(),
        ensures
            final(self).wf(),
            r == gpuread_value(*old(self)),
            gpuread_post(*old(self), *final(self)),
    {
        let transfer = match self.vram_transfer {
            Some(t) => t,
            None => return 0,
        };
        if transfer.direction != VRAMTransferDirection::VramToCpu {
            return 0;
        }
        let vram_x = (transfer.x + transfer.current_x) & 0x3FF;
        let vram_y = (transfer.y + transfer.current_y) & 0x1FF;
        proof {
            lemma_mask_idem((transfer.x + transfer.current_x) as u16, (transfer.y + transfer.current_y) as u16);
        }
        let pixel1 = self.read_vram(vram_x, vram_y);
        let mut t = advance(transfer);
        let mut pixel2: u16 = 0;
        if t.current_y < t.height {
            let vram_x = (t.x + t.current_x) & 0x3FF;
            let vram_y = (t.y + t.current_y) & 0x1FF;
            proof {
                lemma_mask_idem((t.x + t.current_x) as u16, (t.y + t.current_y) as u16);
            }
            pixel2 = self.read_vram(vram_x, vram_y);
            t = advance(t);
        }
        if t.current_y < t.height {
            self.vram_transfer = Some(t);
        } else {
            self.vram_transfer = None;
            self.status.ready_to_send_vram = false;
        }
        (pixel1 as u32) | ((pixel2 as u32) << 16u32)
    }
}

/// The VRAM index of (x, y), each coordinate wrapping around VRAM.
pub open spec fn wrap_index(x: int, y: int) -> int {
    (y % 512) * 1024 + x % 1024
}

/// Offsets from the corner (dx, dy) of VRAM index `i`, wrapping around VRAM.
pub open spec fn copy_offset(i: int, dx: int, dy: int) -> (int, int) {
    ((px_col(i) - dx) % 1024, (px_row(i) - dy) % 512)
}

/// VRAM after copying the w x h rectangle at (sx, sy) to (dx, dy), both
/// wrapping around VRAM; every pixel is read before any is written, so
/// overlapping rectangles copy the previous contents.
pub open spec fn vram_copy_spec(vram: Seq<u16>, sx: int, sy: int, dx: int, dy: int, w: int, h: int) -> Seq<u16> {
    Seq::new(
        vram.len(),
        |i: int|
            {
                let (ox, oy) = copy_offset(i, dx, dy);
                if ox < w && oy < h {
                    vram[wrap_index(sx + ox, sy + oy)]
                } else {
                    vram[i]
                }
            },
    )
}

/// The pixel at index `i` once the rows above `y`, and the first `x` pixels
/// of row `y`, of a copy have been written.
spec fn copy_progress(vram: Seq<u16>, sx: int, sy: int, dx: int, dy: int, w: int, h: int, y: int, x: int, i: int) -> u16 {
    let (ox, oy) = copy_offset(i, dx, dy);
    if ox < w && oy < h && (oy < y || (oy == y && ox < x)) {
        vram[wrap_index(sx + ox, sy + oy)]
    } else {
        vram[i]
    }
}

/// `a + k * m` wraps back to `a`.
proof fn lemma_mod_wrap(a: int, m: int)
    requires
        0 <= a < m,
    ensures
        a % m == a,
        (a + m) % m == a,
        (a - m) % m == a,
{
    lemma_fundamental_div_mod_converse(a, m, 0, a);
    lemma_fundamental_div_mod_converse(a + m, m, 1, a);
    lemma_fundamental_div_mod_converse(a - m, m, -1, a);
}

/// Offsetting a coordinate and taking the offset back are inverse.
proof fn lemma_wrap_offset(c: int, d: int, m: int)
    requires
        0 <= c < m,
        0 <= d < m,
    ensures
        0 <= (c - d) % m < m,
        (d + (c - d) % m) % m == c,
        ((d + c) % m - d) % m == c,
        0 <= (d + c) % m < m,
{
    lemma_mod_wrap(c, m);
    if c >= d {
        lemma_mod_wrap(c - d, m);
    } else {
        lemma_mod_wrap(c - d + m, m);
    }
    if d + c < m {
        lemma_mod_wrap(d + c, m);
    } else {
        lemma_mod_wrap(d + c - m, m);
    }
}

/// Every VRAM index is the wrapped position of its offsets from a corner.
proof fn lemma_copy_offset(i: int, dx: int, dy: int)
    requires
        0 <= i < VRAM_SIZE,
        0 <= dx < 1024,
        0 <= dy < 512,
    ensures
        0 <= copy_offset(i, dx, dy).0 < 1024,
        0 <= copy_offset(i, dx, dy).1 < 512,
        i == wrap_index(dx + copy_offset(i, dx, dy).0, dy + copy_offset(i, dx, dy).1),
{
    lemma_index_inverse(i);
    lemma_wrap_offset(px_col(i), dx, 1024);
    lemma_wrap_offset(px_row(i), dy, 512);
}

/// The wrapped position of offsets (x, y) from a corner lies in VRAM and has
/// those offsets.
proof fn lemma_offset_index(x: int, y: int, dx: int, dy: int)
    requires
        0 <= x < 1024,
        0 <= y < 512,
        0 <= dx < 1024,
        0 <= dy < 512,
    ensures
        0 <= wrap_index(dx + x, dy + y) < VRAM_SIZE,
        copy_offset(wrap_index(dx + x, dy + y), dx, dy) == (x, y),
{
    lemma_wrap_offset(x, dx, 1024);
    lemma_wrap_offset(y, dy, 512);
    lemma_index((dx + x) % 1024, (dy + y) % 512);
}

/// Copy the w x h rectangle at (sx, sy) to (dx, dy), reading it whole first.
fn copy_rect(vram: &mut Vec<u16>, sx: u16, sy: u16, dx: u16, dy: u16, w: u16, h: u16)
    requires
        old(vram)@.len() == VRAM_SIZE,
        sx < 1024,
        sy < 512,
        dx < 1024,
        dy < 512,
        1 <= w <= 1024,
        1 <= h <= 512,
    ensures
        final(vram)@ == vram_copy_spec(
            old(vram)@,
            sx as int,
            sy as int,
            dx as int,
            dy as int,
            w as int,
            h as int,
        ),
{
    let ghost v0 = vram@;
    let wu = w as usize;
    let hu = h as usize;
    let mut temp: Vec<u16> = Vec::new();
    let mut y: usize = 0;
    while y < hu
        invariant
            y <= hu,
            hu == h,
            wu == w,
            1 <= w <= 1024,
            1 <= h <= 512,
            sx < 1024,
            sy < 512,
            vram@ == v0,
            v0.len() == VRAM_SIZE,
            temp@.len() == y * wu,
            forall|k: int|
                0 <= k < temp@.len() ==> #[trigger] temp@[k] == v0[wrap_index(
                    sx + k % (wu as int),
                    sy + k / (wu as int),
                )],
        decreases hu - y,
    {
        let mut x: usize = 0;
        while x < wu
            invariant
                x <= wu,
                y < hu,
                hu == h,
                wu == w,
                1 <= w <= 1024,
                1 <= h <= 512,
                sx < 1024,
                sy < 512,
                vram@ == v0,
                v0.len() == VRAM_SIZE,
                temp@.len() == y * wu + x,
                forall|k: int|
                    0 <= k < temp@.len() ==> #[trigger] temp@[k] == v0[wrap_index(
                        sx + k % (wu as int),
                        sy + k / (wu as int),
                    )],
            decreases wu - x,
        {
            let src = ((sy as usize + y) % 512) * 1024 + (sx as usize + x) % 1024;
            proof {
                lemma_fundamental_div_mod_converse(y * wu + x, wu as int, y as int, x as int);
                lemma_index((sx + x) % 1024, (sy + y) % 512);
            }
            temp.push(vram[src]);
            x = x + 1;
        }
        proof {
            assert((y + 1) * wu == y * wu + wu) by (nonlinear_arith);
        }
        y = y + 1;
    }
    let mut y: usize = 0;
    while y < hu
        invariant
            y <= hu,
            hu == h,
            wu == w,
            1 <= w <= 1024,
            1 <= h <= 512,
            sx < 1024,
            sy < 512,
            dx < 1024,
            dy < 512,
            v0.len() == VRAM_SIZE,
            vram@.len() == VRAM_SIZE,
            temp@.len() == hu * wu,
            forall|k: int|
                0 <= k < temp@.len() ==> #[trigger] temp@[k] == v0[wrap_index(
                    sx + k % (wu as int),
                    sy + k / (wu as int),
                )],
            forall|i: int|
                0 <= i < VRAM_SIZE ==> #[trigger] vram@[i] == copy_progress(
                    v0,
                    sx as int,
                    sy as int,
                    dx as int,
                    dy as int,
                    w as int,
                    h as int,
                    y as int,
                    0,
                    i,
                ),
        decreases hu - y,
    {
        let mut x: usize = 0;
        while x < wu
            invariant
                x <= wu,
                y < hu,
                hu == h,
                wu == w,
                1 <= w <= 1024,
                1 <= h <= 512,
                sx < 1024,
                sy < 512,
                dx < 1024,
                dy < 512,
                v0.len() == VRAM_SIZE,
                vram@.len() == VRAM_SIZE,
                temp@.len() == hu * wu,
                forall|k: int|
                    0 <= k < temp@.len() ==> #[trigger] temp@[k] == v0[wrap_index(
                        sx + k % (wu as int),
                        sy + k / (wu as int),
                    )],
                forall|i: int|
                    0 <= i < VRAM_SIZE ==> #[trigger] vram@[i] == copy_progress(
                        v0,
                        sx as int,
                        sy as int,
                        dx as int,
                        dy as int,
                        w as int,
                        h as int,
                        y as int,
                        x as int,
                        i,
                    ),
            decreases wu - x,
        {
            proof {
                assert(y * wu + x < hu * wu <= 524288) by (nonlinear_arith)
                    requires y < hu, x < wu, hu <= 512, wu <= 1024;
            }
            let k = y * wu + x;
            proof {
                lemma_fundamental_div_mod_converse(k as int, wu as int, y as int, x as int);
                lemma_offset_index(x as int, y as int, dx as int, dy as int);
            }
            let dst = ((dy as usize + y) % 512) * 1024 + (dx as usize + x) % 1024;
            let pixel = temp[k];
            let ghost before = vram@;
            vram.set(dst, pixel);
            proof {
                assert forall|i: int| 0 <= i < VRAM_SIZE implies #[trigger] vram@[i] == copy_progress(
                    v0,
                    sx as int,
                    sy as int,
                    dx as int,
                    dy as int,
                    w as int,
                    h as int,
                    y as int,
                    x + 1,
                    i,
                ) by {
                    lemma_copy_offset(i, dx as int, dy as int);
                    if i != dst {
                        assert(before[i] == vram@[i]);
                    }
                }
            }
            x = x + 1;
        }
        proof {
            assert forall|i: int| 0 <= i < VRAM_SIZE implies #[trigger] vram@[i] == copy_progress(
                v0,
                sx as int,
                sy as int,
                dx as int,
                dy as int,
                w as int,
                h as int,
                y + 1,
                0,
                i,
            ) by {
                lemma_copy_offset(i, dx as int, dy as int);
                assert(vram@[i] == copy_progress(v0, sx as int, sy as int, dx as int, dy as int, w as int, h as int, y as int, wu as int, i));
            }
        }
        y = y + 1;
    }
    proof {
        assert(vram@ =~= vram_copy_spec(v0, sx as int, sy as int, dx as int, dy as int, w as int, h as int)) by {
            assert forall|i: int| 0 <= i < VRAM_SIZE implies vram@[i] == vram_copy_spec(v0, sx as int, sy as int, dx as int, dy as int, w as int, h as int)[i] by {
                lemma_copy_offset(i, dx as int, dy as int);
                assert(vram@[i] == copy_progress(v0, sx as int, sy as int, dx as int, dy as int, w as int, h as int, h as int, 0, i));
            }
        }
    }
}

/// What a GPUREAD returns: the next two pixels of a VRAM-to-CPU transfer, else 0.
pub open spec fn gpuread_value(g: GPU) -> u32 {
    match g.vram_transfer {
        Some(t) => if t.direction == VRAMTransferDirection::VramToCpu {
            vram_read_spec(g.vram_spec(), t).0
        } else {
            0
        },
        None => 0,
    }
}

/// The state after a GPUREAD: during a VRAM-to-CPU transfer its cursor
/// advances, and when the rectangle is complete the transfer ends and
/// GPUSTAT no longer reports VRAM ready to send; otherwise nothing changes.
pub open spec fn gpuread_post(old: GPU, new: GPU) -> bool {
    match old.vram_transfer {
        Some(t) => if t.direction == VRAMTransferDirection::VramToCpu {
            let t2 = vram_read_spec(old.vram_spec(), t).1;
            &&& new.vram_transfer == t2
            &&& new.status == (if t2 is None {
                with_ready_to_send(old.status, false)
            } else {
                old.status
            })
            &&& new.vram_spec() == old.vram_spec()
            &&& new.fifo() == old.fifo()
            &&& new.pending_spec() == old.pending_spec()
            &&& new.same_regs_but_transfer(&old)
        } else {
            new == old
        },
        None => new == old,
    }
}

/// The state after a transfer start: the transfer set to `t`, GPUSTAT to
/// `status`, VRAM, the queued draws and the other registers kept.
pub open spec fn transfer_start_post(old: GPU, new: GPU, t: VRAMTransfer, status: GPUStatus) -> bool {
    &&& new.vram_transfer == Some(t)
    &&& new.vram_spec() == old.vram_spec()
    &&& new.pending_spec() == old.pending_spec()
    &&& new.status == status
    &&& new.same_regs_but_transfer(&old)
}

/// The state after GP0(A0h) with command words `w`.
pub open spec fn cpu_to_vram_post(old: GPU, new: GPU, w: Seq<u32>) -> bool {
    transfer_start_post(old, new, transfer_spec(w[1], w[2], VRAMTransferDirection::CpuToVram), old.status)
}

/// The state after GP0(C0h) with command words `w`: GPUSTAT reports VRAM
/// ready to send.
pub open spec fn vram_to_cpu_post(old: GPU, new: GPU, w: Seq<u32>) -> bool {
    transfer_start_post(
        old,
        new,
        transfer_spec(w[1], w[2], VRAMTransferDirection::VramToCpu),
        with_ready_to_send(old.status, true),
    )
}

/// The state after GP0(80h) with command words `w` (command, source,
/// destination, size): only VRAM changes.
pub open spec fn vram_to_vram_post(old: GPU, new: GPU, w: Seq<u32>) -> bool {
    &&& new.vram_spec() == vram_copy_spec(
        old.vram_spec(),
        word_x(w[1]) as int,
        word_y(w[1]) as int,
        word_x(w[2]) as int,
        word_y(w[2]) as int,
        size_spec((w[3] & 0xFFFF) as u16, 0x3FF) as int,
        size_spec(((w[3] >> 16u32) & 0xFFFF) as u16, 0x1FF) as int,
    )
    &&& new.pending_spec() == old.pending_spec()
    &&& new.same_regs(&old)
}

/// A VRAM-to-CPU read of the rectangle position that a CPU-to-VRAM write
/// just filled gives back the written word (only its low half when the
/// write's second pixel fell past the end of the rectangle), and both
/// leave the cursor at the same place.
pub proof fn law_transfer_roundtrip(vram: Seq<u16>, t: VRAMTransfer, value: u32)
    requires
        vram.len() == VRAM_SIZE,
        transfer_ok(Some(t)),
    ensures
        vram_read_spec(vram_write_spec(vram, t, value).0, t).0 == (if advance_spec(t).current_y
            < t.height {
            value
        } else {
            value & 0xFFFF
        }),
        vram_read_spec(vram_write_spec(vram, t, value).0, t).1 == vram_write_spec(vram, t, value).1,
{
    let t1 = advance_spec(t);
    let p1 = (value & 0xFFFF) as u16;
    let p2 = ((value >> 16u32) & 0xFFFF) as u16;
    lemma_vidx(cursor_x(t), cursor_y(t));
    if t1.current_y < t1.height {
        lemma_vidx(cursor_x(t1), cursor_y(t1));
        let a = (t.x + t.current_x) as u16;
        let b = (t.y + t.current_y) as u16;
        if t.current_x + 1 >= t.width {
            assert(t1.current_y == t.current_y + 1 && t1.current_x == 0);
            assert((b & 0x1FF) != (((b + 1) as u16) & 0x1FF)) by (bit_vector)
                requires b < 0xFFFF;
        } else {
            assert(t1.current_x == t.current_x + 1 && t1.current_y == t.current_y);
            assert((a & 0x3FF) != (((a + 1) as u16) & 0x3FF)) by (bit_vector)
                requires a < 0xFFFF;
        }
        lemma_mask_idem(a, b);
        lemma_mask_idem((t1.x + t1.current_x) as u16, (t1.y + t1.current_y) as u16);
        law_vram_read_after_write(vram, cursor_x(t), cursor_y(t), p1, cursor_x(t1), cursor_y(t1));
        let v1 = vram.update(vidx(cursor_x(t), cursor_y(t)), p1);
        law_vram_read_after_write(v1, cursor_x(t1), cursor_y(t1), p2, cursor_x(t), cursor_y(t));
        assert((p1 as u32) | ((p2 as u32) << 16u32) == value) by (bit_vector)
            requires p1 == (value & 0xFFFF) as u16, p2 == ((value >> 16u32) & 0xFFFF) as u16;
    } else {
        assert((p1 as u32) | ((0u16 as u32) << 16u32) == value & 0xFFFF) by (bit_vector)
            requires p1 == (value & 0xFFFF) as u16;
    }
}

/// Masking a coordinate a second time changes nothing.
pub proof fn lemma_mask_idem(x: u16, y: u16)
    ensures
        (x & 0x3FF) & 0x3FF == x & 0x3FF,
        (y & 0x1FF) & 0x1FF == y & 0x1FF,
{
    assert((x & 0x3FF) & 0x3FF == x & 0x3FF && (y & 0x1FF) & 0x1FF == y & 0x1FF) by (bit_vector);
}

/// GPUSTAT with the ready-to-send-VRAM flag set to `b`.
pub open spec fn with_ready_to_send(s: GPUStatus, b: bool) -> GPUStatus {
    GPUStatus { ready_to_send_vram: b, ..s }
}

} // verus!
