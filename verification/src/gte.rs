//! The Geometry Transformation Engine (coprocessor 2): data and control
//! registers, the screen XY/Z FIFOs, leading-zero count, perspective
//! transformation of one or three vertices (RTPS, RTPT), normal clipping
//! (NCLIP) and matrix-vector multiply with translation (MVMVA).
//!
//! Intermediate sums are computed exactly in wide integers and then
//! saturated as the registers require.

use vstd::prelude::*;

verus! {

/// The GTE register file.
pub struct GTE {
    /// Data registers: vectors, colours, the screen XY and Z FIFOs,
    /// MAC/IR results, LZCS and LZCR (which mirrors FLAG).
    pub data: [i32; 32],
    /// Control registers: rotation matrix, translation vector, screen
    /// offset and projection plane distance, among others.
    pub control: [i32; 32],
    /// FLAG: bit 14 is divide overflow, bit 31 the error flag.
    pub flags: u32,
}

/// The low halfword of a register, signed.
pub open spec fn lo16(w: i32) -> i16 {
    (w & 0xFFFF) as i16
}

/// The high halfword of a register, signed.
pub open spec fn hi16(w: i32) -> i16 {
    (w >> 16u32) as i16
}

/// Element (i, j) of the rotation matrix packed in control registers 0-4,
/// two signed halfwords per register, row by row.
pub open spec fn rt(c: Seq<i32>, i: int, j: int) -> int {
    let k = 3 * i + j;
    if k % 2 == 0 {
        lo16(c[k / 2]) as int
    } else {
        hi16(c[k / 2]) as int
    }
}

/// Input vector `n` (0-2): X and Y from VXYn, Z from the low half of VZn.
pub open spec fn vertex_spec(d: Seq<i32>, n: int) -> (int, int, int) {
    (lo16(d[2 * n]) as int, hi16(d[2 * n]) as int, (d[2 * n + 1] as i16) as int)
}

/// The IR vector (IR1, IR2, IR3), each taken as a signed halfword.
pub open spec fn ir_vector_spec(d: Seq<i32>) -> (int, int, int) {
    ((d[9] as i16) as int, (d[10] as i16) as int, (d[11] as i16) as int)
}

/// `x` limited to [lo, hi].
pub open spec fn clamp(x: int, lo: int, hi: int) -> int {
    if x < lo {
        lo
    } else if x > hi {
        hi
    } else {
        x
    }
}

/// `x` shifted right arithmetically by 12 bits when `sf` is set.
pub open spec fn sf_shift(x: int, sf: bool) -> int {
    if sf {
        x / 4096
    } else {
        x
    }
}

/// Division rounding toward zero, for a positive divisor.
pub open spec fn trunc_div(a: int, b: int) -> int {
    if a >= 0 {
        a / b
    } else {
        -((-a) / b)
    }
}

/// Row `row` of the rotation matrix times `v`, plus `t` * 0x1000, shifted
/// by 12 bits when `sf` is set.
pub open spec fn mac_spec(c: Seq<i32>, row: int, v: (int, int, int), t: int, sf: bool) -> int {
    sf_shift(rt(c, row, 0) * v.0 + rt(c, row, 1) * v.1 + rt(c, row, 2) * v.2 + t * 4096, sf)
}

/// The projection scale H * 0x1000 / Z, limited to 0x1FFFF; 0x1FFFF when
/// Z is not positive (divide overflow).
pub open spec fn scale_spec(h: int, z: int) -> int {
    if z <= 0 {
        0x1FFFF
    } else {
        let q = trunc_div(h * 4096, z);
        if q < 0x1FFFF {
            q
        } else {
            0x1FFFF
        }
    }
}

/// A projected screen coordinate: scale * mac / 0x1000 saturated to 32
/// bits, plus the screen offset, limited to [-1024, 1023].
pub open spec fn screen_spec(scale: int, mac: int, offset: i32) -> int {
    clamp(clamp((scale * mac) / 4096, i32::MIN as int, i32::MAX as int) + offset, -1024, 1023)
}

/// A screen XY register: Y in the high halfword, X in the low one.
pub open spec fn pack_sxy(sx: i32, sy: i32) -> i32 {
    (((sy as u32) << 16u32) | ((sx as u32) & 0xFFFF)) as i32
}

/// The average Z for the ordering table: (SZ1 + SZ2 + SZ3) / 3 limited
/// to [0, 0xFFFF].
pub open spec fn otz_spec(sz1: int, sz2: int, sz3: int) -> int {
    let sum = sz1 + sz2 + sz3;
    if sum <= 0 {
        0
    } else {
        clamp(sum / 3, 0, 0xFFFF)
    }
}

/// The data registers after RTPS, and FLAG: V0 is rotated, translated and
/// projected; MAC1-3 hold the saturated products, IR1-2 the products
/// limited to 16 bits signed and IR3 to [0, 0xFFFF]; the projected point
/// enters the screen XY FIFO and SXYP, Z enters the screen Z FIFO, OTZ is
/// updated and FLAG reports a divide overflow when Z is not positive.
#[verifier::opaque]
pub open spec fn rtps_spec(d: Seq<i32>, c: Seq<i32>, sf: bool) -> (Seq<i32>, u32) {
    let v = vertex_spec(d, 0);
    let mac1 = mac_spec(c, 0, v, c[5] as int, sf);
    let mac2 = mac_spec(c, 1, v, c[6] as int, sf);
    let mac3 = mac_spec(c, 2, v, c[7] as int, sf);
    let flags: u32 = if mac3 <= 0 { 0x4000 } else { 0 };
    let scale = scale_spec(c[26] as int, mac3);
    let sxy = pack_sxy(screen_spec(scale, mac1, c[24]) as i32, screen_spec(scale, mac2, c[25]) as i32);
    let sz3 = clamp(mac3, 0, 0xFFFF);
    let d2 = d.update(25, clamp(mac1, i32::MIN as int, i32::MAX as int) as i32)
        .update(26, clamp(mac2, i32::MIN as int, i32::MAX as int) as i32)
        .update(27, clamp(mac3, i32::MIN as int, i32::MAX as int) as i32)
        .update(12, d[13])
        .update(13, d[14])
        .update(14, sxy)
        .update(15, sxy)
        .update(16, d[17])
        .update(17, d[18])
        .update(18, d[19])
        .update(19, sz3 as i32)
        .update(7, otz_spec(d[18] as int, d[19] as int, sz3) as i32)
        .update(9, clamp(mac1, -32768, 32767) as i32)
        .update(10, clamp(mac2, -32768, 32767) as i32)
        .update(11, clamp(mac3, 0, 65535) as i32)
        .update(31, flags as i32);
    (d2, flags)
}

/// The data registers after RTPT: RTPS on V0, then on V1 and V2 (each
/// copied into V0 for the step), V0 restored at the end; and FLAG.
pub open spec fn rtpt_spec(d: Seq<i32>, c: Seq<i32>, sf: bool) -> (Seq<i32>, u32) {
    let (d1, f1) = rtps_spec(d, c, sf);
    let (d2, f2) = rtps_spec(d1.update(0, d1[2]).update(1, d1[3]), c, sf);
    let (d3, f3) = rtps_spec(d2.update(0, d2[4]).update(1, d2[5]), c, sf);
    (d3.update(0, d[0]).update(1, d[1]), f3)
}

/// The NCLIP determinant of the three screen points, computed exactly.
pub open spec fn nclip_det(d: Seq<i32>) -> int {
    let sx0 = lo16(d[12]) as int;
    let sy0 = hi16(d[12]) as int;
    let sx1 = lo16(d[13]) as int;
    let sy1 = hi16(d[13]) as int;
    let sx2 = lo16(d[14]) as int;
    let sy2 = hi16(d[14]) as int;
    sx0 * sy1 + sx1 * sy2 + sx2 * sy0 - sx0 * sy2 - sx1 * sy0 - sx2 * sy1
}

/// The data registers after MVMVA `cmd`: the rotation matrix times the
/// vector chosen by bits 15-16 (V0, V1, V2 or IR), plus the translation
/// vector when bits 13-14 are 0 or 1, shifted by 12 bits when bit 19 is
/// set; MAC1-3 hold the saturated results and IR1-3 the results limited
/// to 16 bits signed, or to [0, 0x7FFF] when bit 10 is set; FLAG is cleared.
pub open spec fn mvmva_spec(d: Seq<i32>, c: Seq<i32>, cmd: u32) -> Seq<i32> {
    let sf = (cmd >> 19u32) & 1 != 0;
    let vsel = (cmd >> 15u32) & 3;
    let cv = (cmd >> 13u32) & 3;
    let lm = (cmd >> 10u32) & 1 != 0;
    let v = if vsel == 3 { ir_vector_spec(d) } else { vertex_spec(d, vsel as int) };
    let (tx, ty, tz) = if cv <= 1 { (c[5] as int, c[6] as int, c[7] as int) } else { (0int, 0int, 0int) };
    let mac1 = mac_spec(c, 0, v, tx, sf);
    let mac2 = mac_spec(c, 1, v, ty, sf);
    let mac3 = mac_spec(c, 2, v, tz, sf);
    let lo: int = if lm { 0 } else { -32768 };
    d.update(25, clamp(mac1, i32::MIN as int, i32::MAX as int) as i32)
        .update(26, clamp(mac2, i32::MIN as int, i32::MAX as int) as i32)
        .update(27, clamp(mac3, i32::MIN as int, i32::MAX as int) as i32)
        .update(9, clamp(mac1, lo, 32767) as i32)
        .update(10, clamp(mac2, lo, 32767) as i32)
        .update(11, clamp(mac3, lo, 32767) as i32)
        .update(31, 0)
}

/// The data registers after writing `value` to register `index`: SXYP
/// pushes onto the screen XY FIFO (SXY0 <- SXY1 <- SXY2 <- value, and
/// SXYP = value); LZCS also stores its leading zero count (as an unsigned
/// word) in LZCR; any other register just takes the value.
pub open spec fn write_data_spec(d: Seq<i32>, index: int, value: i32) -> Seq<i32> {
    if index == 15 {
        d.update(12, d[13]).update(13, d[14]).update(14, value).update(15, value)
    } else if index == 30 {
        d.update(30, value).update(31, vstd::std_specs::bits::u32_leading_zeros(value as u32) as i32)
    } else {
        d.update(index, value)
    }
}

/// Reading a data register gives back the value last written to it, and a
/// write leaves every other register unchanged except for the SXYP FIFO
/// shift and the LZCS count.
pub proof fn law_data_read_after_write(d: Seq<i32>, index: int, value: i32, other: int)
    requires
        d.len() == 32,
        0 <= index < 32,
        0 <= other < 32,
        other != index,
    ensures
        write_data_spec(d, index, value)[index] == value,
        index != 15 && index != 30 ==> write_data_spec(d, index, value)[other] == d[other],
        index == 15 && !(12 <= other <= 14) ==> write_data_spec(d, index, value)[other] == d[other],
        index == 30 && other != 31 ==> write_data_spec(d, index, value)[other] == d[other],
{
}

/// Three pushes through SXYP leave the three values in the screen XY FIFO,
/// oldest in SXY0.
pub proof fn law_sxy_fifo(d: Seq<i32>, a: i32, b: i32, c: i32)
    requires
        d.len() == 32,
    ensures
        ({
            let d3 = write_data_spec(write_data_spec(write_data_spec(d, 15, a), 15, b), 15, c);
            &&& d3[12] == a
            &&& d3[13] == b
            &&& d3[14] == c
            &&& d3[15] == c
        }),
{
}

/// RTPS keeps the register count and vectors' input registers.
proof fn lemma_rtps_shape(d: Seq<i32>, c: Seq<i32>, sf: bool)
    requires
        d.len() == 32,
    ensures
        rtps_spec(d, c, sf).0.len() == 32,
        forall|i: int| 0 <= i < 6 ==> #[trigger] rtps_spec(d, c, sf).0[i] == d[i],
{
    reveal(rtps_spec);
}

/// RTPT leaves vector 0 as it was.
pub proof fn law_rtpt_keeps_v0(d: Seq<i32>, c: Seq<i32>, sf: bool)
    requires
        d.len() == 32,
        c.len() == 32,
    ensures
        rtpt_spec(d, c, sf).0[0] == d[0],
        rtpt_spec(d, c, sf).0[1] == d[1],
{
    let (d1, f1) = rtps_spec(d, c, sf);
    lemma_rtps_shape(d, c, sf);
    let e1 = d1.update(0, d1[2]).update(1, d1[3]);
    let (d2, f2) = rtps_spec(e1, c, sf);
    lemma_rtps_shape(e1, c, sf);
    let e2 = d2.update(0, d2[4]).update(1, d2[5]);
    lemma_rtps_shape(e2, c, sf);
}

/// Swapping the last two screen points reverses the NCLIP winding: the
/// determinant changes sign.
pub proof fn law_nclip_orientation(d: Seq<i32>)
    requires
        d.len() == 32,
    ensures
        nclip_det(d.update(13, d[14]).update(14, d[13])) == -nclip_det(d),
{
    let e = d.update(13, d[14]).update(14, d[13]);
    assert(e[12] == d[12] && e[13] == d[14] && e[14] == d[13]);
    let sx0 = lo16(d[12]) as int;
    let sy0 = hi16(d[12]) as int;
    let sx1 = lo16(d[13]) as int;
    let sy1 = hi16(d[13]) as int;
    let sx2 = lo16(d[14]) as int;
    let sy2 = hi16(d[14]) as int;
    assert(sx0 * sy2 + sx2 * sy1 + sx1 * sy0 - sx0 * sy1 - sx2 * sy0 - sx1 * sy2 == -(sx0 * sy1
        + sx1 * sy2 + sx2 * sy0 - sx0 * sy2 - sx1 * sy0 - sx2 * sy1)) by (nonlinear_arith);
}

/// A screen XY word holds the X and Y it was packed from, when both are
/// screen coordinates.
proof fn lemma_pack_sxy(sx: i32, sy: i32)
    requires
        -1024 <= sx <= 1023,
        -1024 <= sy <= 1023,
    ensures
        lo16(pack_sxy(sx, sy)) as int == sx as int,
        hi16(pack_sxy(sx, sy)) as int == sy as int,
{
    assert(((((((sy as u32) << 16u32) | ((sx as u32) & 0xFFFF)) as i32) & 0xFFFF) as i16) as i32 == sx
        && (((((sy as u32) << 16u32) | ((sx as u32) & 0xFFFF)) as i32) >> 16u32) as i16 as i32 == sy)
        by (bit_vector)
        requires
            -1024 <= sx <= 1023,
            -1024 <= sy <= 1023,
    ;
}

/// RTPS projects onto the screen with the screen offsets: SX (low half of
/// SXY2) is placed by OFX (control 24) and SY (high half) by OFY (control
/// 25). Changing OFX never changes SY and changing OFY never changes SX;
/// moving OFY by `k` moves SY by `k` (and OFX by `k` moves SX by `k`) while
/// both positions lie strictly inside [-1024, 1023]. Both coordinates lie
/// in [-1024, 1023], and SXYP repeats SXY2.
pub proof fn law_rtps_screen_offsets(d: Seq<i32>, c: Seq<i32>, sf: bool, v: i32, k: int)
    requires
        d.len() == 32,
        c.len() == 32,
    ensures
        ({
            let sxy = rtps_spec(d, c, sf).0[14];
            &&& rtps_spec(d, c, sf).0[15] == sxy
            &&& -1024 <= lo16(sxy) <= 1023
            &&& -1024 <= hi16(sxy) <= 1023
            &&& hi16(rtps_spec(d, c.update(24, v), sf).0[14]) == hi16(sxy)
            &&& lo16(rtps_spec(d, c.update(25, v), sf).0[14]) == lo16(sxy)
        }),
        i32::MIN <= c[25] + k <= i32::MAX ==> ({
            let sy = hi16(rtps_spec(d, c, sf).0[14]) as int;
            let sy2 = hi16(rtps_spec(d, c.update(25, (c[25] + k) as i32), sf).0[14]) as int;
            -1024 < sy < 1023 && -1024 < sy2 < 1023 ==> sy2 == sy + k
        }),
        i32::MIN <= c[24] + k <= i32::MAX ==> ({
            let sx = lo16(rtps_spec(d, c, sf).0[14]) as int;
            let sx2 = lo16(rtps_spec(d, c.update(24, (c[24] + k) as i32), sf).0[14]) as int;
            -1024 < sx < 1023 && -1024 < sx2 < 1023 ==> sx2 == sx + k
        }),
{
    reveal(rtps_spec);
    let v0 = vertex_spec(d, 0);
    let mac1 = mac_spec(c, 0, v0, c[5] as int, sf);
    let mac2 = mac_spec(c, 1, v0, c[6] as int, sf);
    let mac3 = mac_spec(c, 2, v0, c[7] as int, sf);
    let scale = scale_spec(c[26] as int, mac3);
    let px = clamp((scale * mac1) / 4096, i32::MIN as int, i32::MAX as int);
    let py = clamp((scale * mac2) / 4096, i32::MIN as int, i32::MAX as int);
    let sx = screen_spec(scale, mac1, c[24]);
    let sy = screen_spec(scale, mac2, c[25]);
    lemma_pack_sxy(sx as i32, sy as i32);
    assert(rtps_spec(d, c, sf).0[14] == pack_sxy(sx as i32, sy as i32));
    let c1 = c.update(24, v);
    assert(c1[0] == c[0] && c1[1] == c[1] && c1[2] == c[2] && c1[3] == c[3] && c1[4] == c[4]
        && c1[5] == c[5] && c1[6] == c[6] && c1[7] == c[7] && c1[25] == c[25] && c1[26] == c[26]);
    assert(mac_spec(c1, 0, v0, c1[5] as int, sf) == mac1);
    assert(mac_spec(c1, 1, v0, c1[6] as int, sf) == mac2);
    assert(mac_spec(c1, 2, v0, c1[7] as int, sf) == mac3);
    let sx1 = screen_spec(scale, mac1, c1[24]);
    lemma_pack_sxy(sx1 as i32, sy as i32);
    assert(rtps_spec(d, c1, sf).0[14] == pack_sxy(sx1 as i32, sy as i32));
    let c2 = c.update(25, v);
    assert(c2[0] == c[0] && c2[1] == c[1] && c2[2] == c[2] && c2[3] == c[3] && c2[4] == c[4]
        && c2[5] == c[5] && c2[6] == c[6] && c2[7] == c[7] && c2[24] == c[24] && c2[26] == c[26]);
    assert(mac_spec(c2, 0, v0, c2[5] as int, sf) == mac1);
    assert(mac_spec(c2, 1, v0, c2[6] as int, sf) == mac2);
    assert(mac_spec(c2, 2, v0, c2[7] as int, sf) == mac3);
    let sy2 = screen_spec(scale, mac2, c2[25]);
    lemma_pack_sxy(sx as i32, sy2 as i32);
    assert(rtps_spec(d, c2, sf).0[14] == pack_sxy(sx as i32, sy2 as i32));
    if i32::MIN <= c[25] + k <= i32::MAX {
        let c3 = c.update(25, (c[25] + k) as i32);
        assert(c3[0] == c[0] && c3[1] == c[1] && c3[2] == c[2] && c3[3] == c[3] && c3[4] == c[4]
            && c3[5] == c[5] && c3[6] == c[6] && c3[7] == c[7] && c3[24] == c[24] && c3[26] == c[26]);
        assert(mac_spec(c3, 0, v0, c3[5] as int, sf) == mac1);
        assert(mac_spec(c3, 1, v0, c3[6] as int, sf) == mac2);
        assert(mac_spec(c3, 2, v0, c3[7] as int, sf) == mac3);
        let sy3 = screen_spec(scale, mac2, c3[25]);
        lemma_pack_sxy(sx as i32, sy3 as i32);
        assert(rtps_spec(d, c3, sf).0[14] == pack_sxy(sx as i32, sy3 as i32));
        assert(sy == clamp(py + c[25], -1024, 1023));
        assert(sy3 == clamp(py + c[25] + k, -1024, 1023));
    }
    if i32::MIN <= c[24] + k <= i32::MAX {
        let c4 = c.update(24, (c[24] + k) as i32);
        assert(c4[0] == c[0] && c4[1] == c[1] && c4[2] == c[2] && c4[3] == c[3] && c4[4] == c[4]
            && c4[5] == c[5] && c4[6] == c[6] && c4[7] == c[7] && c4[25] == c[25] && c4[26] == c[26]);
        assert(mac_spec(c4, 0, v0, c4[5] as int, sf) == mac1);
        assert(mac_spec(c4, 1, v0, c4[6] as int, sf) == mac2);
        assert(mac_spec(c4, 2, v0, c4[7] as int, sf) == mac3);
        let sx4 = screen_spec(scale, mac1, c4[24]);
        lemma_pack_sxy(sx4 as i32, sy as i32);
        assert(rtps_spec(d, c4, sf).0[14] == pack_sxy(sx4 as i32, sy as i32));
        assert(sx == clamp(px + c[24], -1024, 1023));
        assert(sx4 == clamp(px + c[24] + k, -1024, 1023));
    }
}

/// MVMVA multiplies the vector that bits 15-16 select: for a selection
/// `n` of 0, 1 or 2 the vector is (low half of data register 2n, high half
/// of data register 2n, low half of data register 2n + 1). With the
/// rotation matrix 0x1000 times the identity, the 12-bit shift (bit 19)
/// and no translation (bits 13-14 equal to 3), MAC1-3 and IR1-3 receive
/// that vector's X, Y and Z unchanged, and FLAG is cleared.
pub proof fn law_mvmva_selects_vector(d: Seq<i32>, c: Seq<i32>, cmd: u32, n: int)
    requires
        d.len() == 32,
        c.len() == 32,
        forall|i: int, j: int| 0 <= i < 3 && 0 <= j < 3 ==> #[trigger] rt(c, i, j) == if i == j { 4096int } else { 0int },
        (cmd >> 19u32) & 1 == 1,
        (cmd >> 13u32) & 3 == 3,
        (cmd >> 10u32) & 1 == 0,
        0 <= n < 3,
        (cmd >> 15u32) & 3 == n,
    ensures
        ({
            let r = mvmva_spec(d, c, cmd);
            let x = (d[2 * n] & 0xFFFF) as i16 as int;
            let y = (d[2 * n] >> 16u32) as i16 as int;
            let z = d[2 * n + 1] as i16 as int;
            &&& r[25] as int == x && r[26] as int == y && r[27] as int == z
            &&& r[9] as int == x && r[10] as int == y && r[11] as int == z
            &&& r[31] == 0
        }),
{
    let v = vertex_spec(d, n);
    assert(rt(c, 0, 0) == 4096 && rt(c, 0, 1) == 0 && rt(c, 0, 2) == 0);
    assert(rt(c, 1, 0) == 0 && rt(c, 1, 1) == 4096 && rt(c, 1, 2) == 0);
    assert(rt(c, 2, 0) == 0 && rt(c, 2, 1) == 0 && rt(c, 2, 2) == 4096);
    assert(mac_spec(c, 0, v, 0, true) == v.0);
    assert(mac_spec(c, 1, v, 0, true) == v.1);
    assert(mac_spec(c, 2, v, 0, true) == v.2);
}

/// Products of two signed halfwords fit in 31 bits.
proof fn lemma_mul_i16(a: int, b: int)
    requires
        -32768 <= a <= 32767,
        -32768 <= b <= 32767,
    ensures
        -1073741824 <= a * b <= 1073741824,
{
    assert(-1073741824 <= a * b <= 1073741824) by (nonlinear_arith)
        requires -32768 <= a <= 32767, -32768 <= b <= 32767;
}

/// `x` shifted right arithmetically by 12 bits (floor division by 0x1000).
fn asr12(x: i64) -> (r: i64)
    ensures
        r == x / 4096,
{
    if x >= 0 {
        x / 4096
    } else {
        let y = -(x + 1);
        -(y / 4096) - 1
    }
}

/// `x` shifted right arithmetically by 12 bits, for 128-bit values.
fn asr12_wide(x: i128) -> (r: i128)
    ensures
        r == x / 4096,
{
    if x >= 0 {
        x / 4096
    } else {
        let y = -(x + 1);
        -(y / 4096) - 1
    }
}

/// `x` limited to [lo, hi].
fn clamp_i64(x: i64, lo: i64, hi: i64) -> (r: i64)
    requires
        lo <= hi,
    ensures
        r == clamp(x as int, lo as int, hi as int),
{
    if x < lo {
        lo
    } else if x > hi {
        hi
    } else {
        x
    }
}

/// Row `row` of matrix `m` times (vx, vy, vz), plus `t` * 0x1000, shifted
/// by 12 bits when `sf` is set.
fn mac_row(m: &[[i32; 3]; 3], row: usize, vx: i32, vy: i32, vz: i32, t: i32, sf: bool) -> (r: i64)
    requires
        row < 3,
        -32768 <= m@[row as int]@[0] <= 32767,
        -32768 <= m@[row as int]@[1] <= 32767,
        -32768 <= m@[row as int]@[2] <= 32767,
        -32768 <= vx <= 32767,
        -32768 <= vy <= 32767,
        -32768 <= vz <= 32767,
    ensures
        r == sf_shift(
            m@[row as int]@[0] * vx + m@[row as int]@[1] * vy + m@[row as int]@[2] * vz + t * 4096,
            sf,
        ),
        -0x1000_0000_0000 <= r <= 0x1000_0000_0000,
{
    let a = m[row][0];
    let b = m[row][1];
    let c = m[row][2];
    proof {
        lemma_mul_i16(a as int, vx as int);
        lemma_mul_i16(b as int, vy as int);
        lemma_mul_i16(c as int, vz as int);
    }
    let sum = (a as i64) * (vx as i64) + (b as i64) * (vy as i64) + (c as i64) * (vz as i64) + (t as i64)
        * 4096;
    if sf {
        asr12(sum)
    } else {
        sum
    }
}

impl GTE {
    /// VXY0: vector 0 X and Y.
    pub const VXY0: usize = 0;
    /// VZ0: vector 0 Z.
    pub const VZ0: usize = 1;
    /// VXY1: vector 1 X and Y.
    pub const VXY1: usize = 2;
    /// VZ1: vector 1 Z.
    pub const VZ1: usize = 3;
    /// VXY2: vector 2 X and Y.
    pub const VXY2: usize = 4;
    /// VZ2: vector 2 Z.
    pub const VZ2: usize = 5;
    /// RGBC: colour and code.
    pub const RGB: usize = 6;
    /// OTZ: average Z for the ordering table.
    pub const OTZ: usize = 7;
    /// IR0: intermediate value 0.
    pub const IR0: usize = 8;
    /// IR1: intermediate value 1.
    pub const IR1: usize = 9;
    /// IR2: intermediate value 2.
    pub const IR2: usize = 10;
    /// IR3: intermediate value 3.
    pub const IR3: usize = 11;
    /// SXY0: screen XY FIFO, oldest.
    pub const SXY0: usize = 12;
    /// SXY1: screen XY FIFO.
    pub const SXY1: usize = 13;
    /// SXY2: screen XY FIFO, newest.
    pub const SXY2: usize = 14;
    /// SXYP: writing it pushes onto the screen XY FIFO.
    pub const SXYP: usize = 15;
    /// SZ0: screen Z FIFO, oldest.
    pub const SZ0: usize = 16;
    /// SZ1: screen Z FIFO.
    pub const SZ1: usize = 17;
    /// SZ2: screen Z FIFO.
    pub const SZ2: usize = 18;
    /// SZ3: screen Z FIFO, newest.
    pub const SZ3: usize = 19;
    /// RGB0: colour FIFO, oldest.
    pub const RGB0: usize = 20;
    /// RGB1: colour FIFO.
    pub const RGB1: usize = 21;
    /// RGB2: colour FIFO, newest.
    pub const RGB2: usize = 22;
    /// RES1: reserved.
    pub const RES1: usize = 23;
    /// MAC0: multiply-accumulate 0.
    pub const MAC0: usize = 24;
    /// MAC1: multiply-accumulate 1.
    pub const MAC1: usize = 25;
    /// MAC2: multiply-accumulate 2.
    pub const MAC2: usize = 26;
    /// MAC3: multiply-accumulate 3.
    pub const MAC3: usize = 27;
    /// IRGB: colour conversion input.
    pub const IRGB: usize = 28;
    /// ORGB: colour conversion output.
    pub const ORGB: usize = 29;
    /// LZCS: writing it counts its leading zeros into LZCR.
    pub const LZCS: usize = 30;
    /// LZCR: leading zero count result, also the FLAG mirror.
    pub const LZCR: usize = 31;
    /// RT11/RT12 of the rotation matrix.
    pub const RT11_RT12: usize = 0;
    /// RT13/RT21.
    pub const RT13_RT21: usize = 1;
    /// RT22/RT23.
    pub const RT22_RT23: usize = 2;
    /// RT31/RT32.
    pub const RT31_RT32: usize = 3;
    /// RT33.
    pub const RT33: usize = 4;
    /// Translation X.
    pub const TRX: usize = 5;
    /// Translation Y.
    pub const TRY: usize = 6;
    /// Translation Z.
    pub const TRZ: usize = 7;
    /// L11/L12 of the light matrix.
    pub const L11_L12: usize = 8;
    /// L13/L21.
    pub const L13_L21: usize = 9;
    /// L22/L23.
    pub const L22_L23: usize = 10;
    /// L31/L32.
    pub const L31_L32: usize = 11;
    /// L33.
    pub const L33: usize = 12;
    /// Background colour red.
    pub const RBK: usize = 13;
    /// Background colour green.
    pub const GBK: usize = 14;
    /// Background colour blue.
    pub const BBK: usize = 15;
    /// LR1/LR2 of the light colour matrix.
    pub const LR1_LR2: usize = 16;
    /// LR3/LG1.
    pub const LR3_LG1: usize = 17;
    /// LG2/LG3.
    pub const LG2_LG3: usize = 18;
    /// LB1/LB2.
    pub const LB1_LB2: usize = 19;
    /// LB3.
    pub const LB3: usize = 20;
    /// Far colour red.
    pub const RFC: usize = 21;
    /// Far colour green.
    pub const GFC: usize = 22;
    /// Far colour blue.
    pub const BFC: usize = 23;
    /// Screen offset X.
    pub const OFX: usize = 24;
    /// Screen offset Y.
    pub const OFY: usize = 25;
    /// Projection plane distance.
    pub const H: usize = 26;
    /// Depth cueing parameter A.
    pub const DQA: usize = 27;
    /// Depth cueing parameter B.
    pub const DQB: usize = 28;
    /// Z scale factor for three-point averages.
    pub const ZSF3: usize = 29;
    /// Z scale factor for four-point averages.
    pub const ZSF4: usize = 30;
    /// FLAG (control register view).
    pub const FLAG: usize = 31;

    /// A GTE with every register 0.
    pub fn new() -> (gte: Self)
        ensures
            forall|i: int| 0 <= i < 32 ==> gte.data@[i] == 0 && gte.control@[i] == 0,
            gte.flags == 0,
    {
        GTE { data: [0; 32], control: [0; 32], flags: 0 }
    }

    /// Clear every register.
    pub fn reset(&mut self)
        ensures
            forall|i: int| 0 <= i < 32 ==> final(self).data@[i] == 0 && final(self).control@[i] == 0,
            final(self).flags == 0,
    {
        self.data = [0; 32];
        self.control = [0; 32];
        self.flags = 0;
    }

    /// Read data register `index` (31 is LZCR, which mirrors FLAG).
    pub fn read_data(&self, index: usize) -> (r: i32)
        requires
            index < 32,
        ensures
            r == self.data@[index as int],
    {
        self.data[index]
    }

    /// Write data register `index`. Writing SXYP pushes the value onto the
    /// screen XY FIFO; writing LZCS also stores its leading zero count
    /// (as an unsigned word) in LZCR.
    pub fn write_data(&mut self, index: usize, value: i32)
        requires
            index < 32,
        ensures
            final(self).control == old(self).control,
            final(self).flags == old(self).flags,
            final(self).data@ == write_data_spec(old(self).data@, index as int, value),
    {
        if index == Self::SXYP {
            self.data[Self::SXY0] = self.data[Self::SXY1];
            self.data[Self::SXY1] = self.data[Self::SXY2];
            self.data[Self::SXY2] = value;
            self.data[Self::SXYP] = value;
        } else if index == Self::LZCS {
            self.data[Self::LZCS] = value;
            let lz = (value as u32).leading_zeros();
            proof {
                vstd::std_specs::bits::axiom_u32_leading_zeros(value as u32);
            }
            self.data[Self::LZCR] = lz as i32;
        } else {
            self.data[index] = value;
        }
        proof {
            assert(self.data@ =~= write_data_spec(old(self).data@, index as int, value));
        }
    }

    /// Read control register `index`.
    pub fn read_control(&self, index: usize) -> (r: i32)
        requires
            index < 32,
        ensures
            r == self.control@[index as int],
    {
        self.control[index]
    }

    /// Write control register `index`.
    pub fn write_control(&mut self, index: usize, value: i32)
        requires
            index < 32,
        ensures
            final(self).control@ == old(self).control@.update(index as int, value),
            final(self).data == old(self).data,
            final(self).flags == old(self).flags,
    {
        self.control[index] = value;
        proof {
            assert(self.control@ =~= old(self).control@.update(index as int, value));
        }
    }

    /// The rotation matrix: nine signed halfwords packed row by row in
    /// control registers 0-4, low halfword first.
    pub fn get_rotation_matrix(&self) -> (m: [[i32; 3]; 3])
        ensures
            forall|i: int, j: int|
                0 <= i < 3 && 0 <= j < 3 ==> #[trigger] m@[i]@[j] == rt(self.control@, i, j),
            forall|i: int, j: int|
                0 <= i < 3 && 0 <= j < 3 ==> -32768 <= #[trigger] m@[i]@[j] <= 32767,
    {
        let c0 = self.control[Self::RT11_RT12];
        let c1 = self.control[Self::RT13_RT21];
        let c2 = self.control[Self::RT22_RT23];
        let c3 = self.control[Self::RT31_RT32];
        let c4 = self.control[Self::RT33];
        let m = [
            [(c0 & 0xFFFF) as i16 as i32, (c0 >> 16u32) as i16 as i32, (c1 & 0xFFFF) as i16 as i32],
            [(c1 >> 16u32) as i16 as i32, (c2 & 0xFFFF) as i16 as i32, (c2 >> 16u32) as i16 as i32],
            [(c3 & 0xFFFF) as i16 as i32, (c3 >> 16u32) as i16 as i32, (c4 & 0xFFFF) as i16 as i32],
        ];
        proof {
            assert forall|i: int, j: int| 0 <= i < 3 && 0 <= j < 3 implies #[trigger] m@[i]@[j] == rt(
                self.control@,
                i,
                j,
            ) by {
                if i == 0 && j == 0 {
                } else if i == 0 && j == 1 {
                } else if i == 0 && j == 2 {
                } else if i == 1 && j == 0 {
                } else if i == 1 && j == 1 {
                } else if i == 1 && j == 2 {
                } else if i == 2 && j == 0 {
                } else if i == 2 && j == 1 {
                } else {
                }
            }
        }
        m
    }

    /// Input vector `n` (0-2) as signed halfwords.
    fn vertex(&self, n: usize) -> (v: (i32, i32, i32))
        requires
            n < 3,
        ensures
            (v.0 as int, v.1 as int, v.2 as int) == vertex_spec(self.data@, n as int),
            -32768 <= v.0 <= 32767,
            -32768 <= v.1 <= 32767,
            -32768 <= v.2 <= 32767,
    {
        let xy = self.data[2 * n];
        let z = self.data[2 * n + 1];
        ((xy & 0xFFFF) as i16 as i32, (xy >> 16u32) as i16 as i32, z as i16 as i32)
    }

    /// RTPS: rotate, translate and perspective-transform vector 0 (see
    /// [`rtps_spec`]); `sf` shifts the products right by 12 bits.
    pub fn rtps(&mut self, sf: bool)
        ensures
            final(self).control == old(self).control,
            (final(self).data@, final(self).flags) == rtps_spec(old(self).data@, old(self).control@, sf),
    {
        let ghost d = self.data@;
        let ghost c = self.control@;
        proof {
            reveal(rtps_spec);
        }
        let (vx, vy, vz) = self.vertex(0);
        let rt = self.get_rotation_matrix();
        let mac1 = mac_row(&rt, 0, vx, vy, vz, self.control[Self::TRX], sf);
        let mac2 = mac_row(&rt, 1, vx, vy, vz, self.control[Self::TRY], sf);
        let mac3 = mac_row(&rt, 2, vx, vy, vz, self.control[Self::TRZ], sf);
        proof {
            assert(mac1 == mac_spec(c, 0, vertex_spec(d, 0), c[5] as int, sf));
            assert(mac2 == mac_spec(c, 1, vertex_spec(d, 0), c[6] as int, sf));
            assert(mac3 == mac_spec(c, 2, vertex_spec(d, 0), c[7] as int, sf));
        }
        self.data[Self::MAC1] = clamp_i64(mac1, i32::MIN as i64, i32::MAX as i64) as i32;
        self.data[Self::MAC2] = clamp_i64(mac2, i32::MIN as i64, i32::MAX as i64) as i32;
        self.data[Self::MAC3] = clamp_i64(mac3, i32::MIN as i64, i32::MAX as i64) as i32;
        let z = mac3;
        let flags: u32 = if z <= 0 { 0x4000 } else { 0 };
        self.flags = flags;
        let h = self.control[Self::H] as i64;
        let scale: i64 = if z <= 0 {
            0x1FFFF
        } else {
            let hh = h * 4096;
            let q = if hh >= 0 { hh / z } else { -((-hh) / z) };
            if q < 0x1FFFF { q } else { 0x1FFFF }
        };
        proof {
            assert(scale == scale_spec(c[26] as int, mac3 as int));
            assert(-0x800_0000_0000 <= scale <= 0x1FFFF) by (nonlinear_arith)
                requires
                    scale == scale_spec(h as int, z as int),
                    -0x8000_0000 <= h <= 0x7FFF_FFFF;
            assert(-0x800_0000_0000 * 0x1000_0000_0000 <= (scale as int) * (mac1 as int) <= 0x800_0000_0000 * 0x1000_0000_0000)
                by (nonlinear_arith)
                requires
                    -0x800_0000_0000 <= scale <= 0x800_0000_0000,
                    -0x1000_0000_0000 <= mac1 <= 0x1000_0000_0000;
            assert(-0x800_0000_0000 * 0x1000_0000_0000 <= (scale as int) * (mac2 as int) <= 0x800_0000_0000 * 0x1000_0000_0000)
                by (nonlinear_arith)
                requires
                    -0x800_0000_0000 <= scale <= 0x800_0000_0000,
                    -0x1000_0000_0000 <= mac2 <= 0x1000_0000_0000;
        }
        let px = asr12_wide((scale as i128) * (mac1 as i128));
        let py = asr12_wide((scale as i128) * (mac2 as i128));
        let px32 = if px < i32::MIN as i128 { i32::MIN as i64 } else if px > i32::MAX as i128 { i32::MAX as i64 } else { px as i64 };
        let py32 = if py < i32::MIN as i128 { i32::MIN as i64 } else if py > i32::MAX as i128 { i32::MAX as i64 } else { py as i64 };
        let sx = clamp_i64(px32 + self.control[Self::OFX] as i64, -1024, 1023) as i32;
        let sy = clamp_i64(py32 + self.control[Self::OFY] as i64, -1024, 1023) as i32;
        let sxy = (((sy as u32) << 16u32) | ((sx as u32) & 0xFFFF)) as i32;
        self.data[Self::SXY0] = self.data[Self::SXY1];
        self.data[Self::SXY1] = self.data[Self::SXY2];
        self.data[Self::SXY2] = sxy;
        self.data[Self::SXYP] = sxy;
        self.data[Self::SZ0] = self.data[Self::SZ1];
        self.data[Self::SZ1] = self.data[Self::SZ2];
        self.data[Self::SZ2] = self.data[Self::SZ3];
        let sz3 = clamp_i64(z, 0, 0xFFFF);
        self.data[Self::SZ3] = sz3 as i32;
        let sum = self.data[Self::SZ1] as i64 + self.data[Self::SZ2] as i64 + sz3;
        let otz = if sum <= 0 { 0 } else { clamp_i64(sum / 3, 0, 0xFFFF) };
        self.data[Self::OTZ] = otz as i32;
        self.data[Self::IR1] = clamp_i64(mac1, -32768, 32767) as i32;
        self.data[Self::IR2] = clamp_i64(mac2, -32768, 32767) as i32;
        self.data[Self::IR3] = clamp_i64(mac3, 0, 65535) as i32;
        self.data[Self::LZCR] = flags as i32;
        proof {
            assert(self.data@ =~= rtps_spec(d, c, sf).0);
        }
    }

    /// RTPT: RTPS on vectors 0, 1 and 2 in turn (see [`rtpt_spec`]); vector
    /// 0 is unchanged afterwards.
    pub fn rtpt(&mut self, sf: bool)
        ensures
            final(self).control == old(self).control,
            (final(self).data@, final(self).flags) == rtpt_spec(old(self).data@, old(self).control@, sf),
    {
        self.rtps(sf);
        let v0_xy = self.data[Self::VXY0];
        let v0_z = self.data[Self::VZ0];
        self.data[Self::VXY0] = self.data[Self::VXY1];
        self.data[Self::VZ0] = self.data[Self::VZ1];
        self.rtps(sf);
        self.data[Self::VXY0] = self.data[Self::VXY2];
        self.data[Self::VZ0] = self.data[Self::VZ2];
        self.rtps(sf);
        self.data[Self::VXY0] = v0_xy;
        self.data[Self::VZ0] = v0_z;
        proof {
            let d = old(self).data@;
            let c = old(self).control@;
            let (d1, f1) = rtps_spec(d, c, sf);
            let (d2, f2) = rtps_spec(d1.update(0, d1[2]).update(1, d1[3]), c, sf);
            let (d3, f3) = rtps_spec(d2.update(0, d2[4]).update(1, d2[5]), c, sf);
            lemma_rtps_shape(d, c, sf);
            lemma_rtps_shape(d1.update(0, d1[2]).update(1, d1[3]), c, sf);
            lemma_rtps_shape(d2.update(0, d2[4]).update(1, d2[5]), c, sf);
            assert(d1[0] == d[0] && d1[1] == d[1]);
            assert(self.data@ =~= d3.update(0, d[0]).update(1, d[1]));
        }
    }

    /// NCLIP: MAC0 = SX0*SY1 + SX1*SY2 + SX2*SY0 - SX0*SY2 - SX1*SY0 - SX2*SY1
    /// over the screen XY FIFO (positive for a clockwise triangle), kept to
    /// 32 bits; FLAG and LZCR are cleared.
    pub fn nclip(&mut self)
        ensures
            final(self).control == old(self).control,
            final(self).flags == 0,
            final(self).data@ == old(self).data@.update(24, nclip_det(old(self).data@) as i32).update(31, 0),
    {
        let sx0 = (self.data[Self::SXY0] & 0xFFFF) as i16 as i64;
        let sy0 = (self.data[Self::SXY0] >> 16u32) as i16 as i64;
        let sx1 = (self.data[Self::SXY1] & 0xFFFF) as i16 as i64;
        let sy1 = (self.data[Self::SXY1] >> 16u32) as i16 as i64;
        let sx2 = (self.data[Self::SXY2] & 0xFFFF) as i16 as i64;
        let sy2 = (self.data[Self::SXY2] >> 16u32) as i16 as i64;
        proof {
            lemma_mul_i16(sx0 as int, sy1 as int);
            lemma_mul_i16(sx1 as int, sy2 as int);
            lemma_mul_i16(sx2 as int, sy0 as int);
            lemma_mul_i16(sx0 as int, sy2 as int);
            lemma_mul_i16(sx1 as int, sy0 as int);
            lemma_mul_i16(sx2 as int, sy1 as int);
        }
        let result = sx0 * sy1 + sx1 * sy2 + sx2 * sy0 - sx0 * sy2 - sx1 * sy0 - sx2 * sy1;
        self.data[Self::MAC0] = result as i32;
        self.flags = 0;
        self.data[Self::LZCR] = 0;
        proof {
            assert(self.data@ =~= old(self).data@.update(24, nclip_det(old(self).data@) as i32).update(31, 0));
        }
    }

    /// MVMVA: multiply the rotation matrix by a selected vector and add a
    /// selected translation (see [`mvmva_spec`]).
    pub fn mvmva(&mut self, command: u32)
        ensures
            final(self).control == old(self).control,
            final(self).flags == 0,
            final(self).data@ == mvmva_spec(old(self).data@, old(self).control@, command),
    {
        let ghost d = self.data@;
        let ghost c = self.control@;
        let sf = ((command >> 19u32) & 1) != 0;
        let vsel = (command >> 15u32) & 0x3;
        let cv = (command >> 13u32) & 0x3;
        let lm = ((command >> 10u32) & 1) != 0;
        proof {
            assert((command >> 15u32) & 0x3 <= 3) by (bit_vector);
        }
        let (vx, vy, vz) = if vsel == 3 {
            (self.data[Self::IR1] as i16 as i32, self.data[Self::IR2] as i16 as i32, self.data[Self::IR3] as i16 as i32)
        } else {
            self.vertex(vsel as usize)
        };
        let m = self.get_rotation_matrix();
        let (tx, ty, tz) = if cv <= 1 {
            (self.control[Self::TRX], self.control[Self::TRY], self.control[Self::TRZ])
        } else {
            (0, 0, 0)
        };
        let mac1 = mac_row(&m, 0, vx, vy, vz, tx, sf);
        let mac2 = mac_row(&m, 1, vx, vy, vz, ty, sf);
        let mac3 = mac_row(&m, 2, vx, vy, vz, tz, sf);
        self.data[Self::MAC1] = clamp_i64(mac1, i32::MIN as i64, i32::MAX as i64) as i32;
        self.data[Self::MAC2] = clamp_i64(mac2, i32::MIN as i64, i32::MAX as i64) as i32;
        self.data[Self::MAC3] = clamp_i64(mac3, i32::MIN as i64, i32::MAX as i64) as i32;
        let min_val: i64 = if lm { 0 } else { -32768 };
        self.data[Self::IR1] = clamp_i64(mac1, min_val, 32767) as i32;
        self.data[Self::IR2] = clamp_i64(mac2, min_val, 32767) as i32;
        self.data[Self::IR3] = clamp_i64(mac3, min_val, 32767) as i32;
        self.flags = 0;
        self.data[Self::LZCR] = 0;
        proof {
            assert(self.data@ =~= mvmva_spec(d, c, command));
        }
    }

    /// Execute a GTE command word: opcode in bits 0-5 (01h RTPS, 06h NCLIP,
    /// 12h MVMVA, 30h RTPT), shift flag in bit 19. An unknown opcode sets
    /// the error flag (bit 31) in FLAG and LZCR.
    pub fn execute(&mut self, command: u32)
        ensures
            final(self).control == old(self).control,
            ({
                let op = command & 0x3F;
                let sf = command & 0x80000 != 0;
                let d = old(self).data@;
                let c = old(self).control@;
                if op == 0x01 {
                    (final(self).data@, final(self).flags) == rtps_spec(d, c, sf)
                } else if op == 0x06 {
                    final(self).flags == 0 && final(self).data@ == d.update(24, nclip_det(d) as i32).update(31, 0)
                } else if op == 0x12 {
                    final(self).flags == 0 && final(self).data@ == mvmva_spec(d, c, command)
                } else if op == 0x30 {
                    (final(self).data@, final(self).flags) == rtpt_spec(d, c, sf)
                } else {
                    final(self).flags == 0x8000_0000 && final(self).data@ == d.update(31, i32::MIN)
                }
            }),
    {
        let opcode = command & 0x3F;
        let sf = (command & 0x80000) != 0;
        if opcode == 0x01 {
            self.rtps(sf);
        } else if opcode == 0x06 {
            self.nclip();
        } else if opcode == 0x12 {
            self.mvmva(command);
        } else if opcode == 0x30 {
            self.rtpt(sf);
        } else {
            self.flags = 0x8000_0000;
            self.data[Self::LZCR] = i32::MIN;
            proof {
                assert(self.data@ =~= old(self).data@.update(31, i32::MIN));
            }
        }
    }
}

impl Default for GTE {
    fn default() -> (gte: Self)
        ensures
            forall|i: int| 0 <= i < 32 ==> gte.data@[i] == 0 && gte.control@[i] == 0,
            gte.flags == 0,
    {
        Self::new()
    }
}

} // verus!
