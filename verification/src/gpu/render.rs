//! Drawing of decoded GP0 primitives: the drawing offset is applied, lines,
//! polylines and rectangles are rasterized into VRAM, and primitives that
//! need the floating-point rasterizer are queued as [`DrawCommand`]s.

use vstd::prelude::*;

use super::{DrawCommand, GPU};
use super::line::{line_result, polyline_spec};
use super::primitives::{BlendMode, Color, TexCoord, TextureInfo, Vertex, blend_mode_spec, blend_spec, rgb15_spec};
use super::rasterizer::{
    Rasterizer, VRAM_SIZE, blend_with, box_spec, fill_with, lemma_index, rect_extent_spec,
    tex_rows_spec, wrap_add_i16_spec,
};

verus! {

/// A vertex moved by the drawing offset, each coordinate wrapping in i16.
pub open spec fn offset_spec(g: GPU, v: Vertex) -> (i16, i16) {
    (wrap_add_i16_spec(v.x, g.draw_offset.0), wrap_add_i16_spec(v.y, g.draw_offset.1))
}

/// The queued form of a flat triangle.
pub open spec fn mono_triangle_cmd(g: GPU, v0: Vertex, v1: Vertex, v2: Vertex, c: Color, semi: bool) -> DrawCommand {
    DrawCommand::Triangle {
        v0: offset_spec(g, v0),
        v1: offset_spec(g, v1),
        v2: offset_spec(g, v2),
        color: rgb15_spec(c.r, c.g, c.b),
        blend: if semi {
            Some(blend_mode_spec(g.draw_mode.semi_transparency))
        } else {
            None
        },
        clip: g.clip_spec(),
    }
}

/// The queued form of a Gouraud-shaded triangle.
pub open spec fn gradient_triangle_cmd(
    g: GPU,
    v0: Vertex,
    v1: Vertex,
    v2: Vertex,
    c0: Color,
    c1: Color,
    c2: Color,
) -> DrawCommand {
    DrawCommand::GradientTriangle {
        v0: offset_spec(g, v0),
        c0: (c0.r, c0.g, c0.b),
        v1: offset_spec(g, v1),
        c1: (c1.r, c1.g, c1.b),
        v2: offset_spec(g, v2),
        c2: (c2.r, c2.g, c2.b),
        clip: g.clip_spec(),
    }
}

/// The queued form of a textured triangle, read through the current texture window.
pub open spec fn textured_triangle_cmd(
    g: GPU,
    v0: Vertex,
    v1: Vertex,
    v2: Vertex,
    t0: TexCoord,
    t1: TexCoord,
    t2: TexCoord,
    info: TextureInfo,
    c: Color,
) -> DrawCommand {
    DrawCommand::TexturedTriangle {
        v0: offset_spec(g, v0),
        t0: (t0.u, t0.v),
        v1: offset_spec(g, v1),
        t1: (t1.u, t1.v),
        v2: offset_spec(g, v2),
        t2: (t2.u, t2.v),
        info,
        window: g.texture_window,
        tint: (c.r, c.g, c.b),
        clip: g.clip_spec(),
    }
}

/// The queued form of a shaded line.
pub open spec fn gradient_line_cmd(g: GPU, v0: Vertex, c0: Color, v1: Vertex, c1: Color) -> DrawCommand {
    DrawCommand::GradientLine {
        p0: offset_spec(g, v0),
        c0: (c0.r, c0.g, c0.b),
        p1: offset_spec(g, v1),
        c1: (c1.r, c1.g, c1.b),
        clip: g.clip_spec(),
    }
}

/// The segments of a shaded polyline: one per pair of consecutive points,
/// as far as both the points and the colours go.
pub open spec fn shaded_polyline_cmds(g: GPU, vs: Seq<Vertex>, cs: Seq<Color>) -> Seq<DrawCommand> {
    let n = if vs.len() < cs.len() { vs.len() } else { cs.len() };
    if n < 2 {
        Seq::empty()
    } else {
        Seq::new((n - 1) as nat, |i: int| gradient_line_cmd(g, vs[i], cs[i], vs[i + 1], cs[i + 1]))
    }
}

/// Only the queued draws change: `cmds` are appended.
pub open spec fn queued_post(old: GPU, new: GPU, cmds: Seq<DrawCommand>) -> bool {
    &&& new.vram_spec() == old.vram_spec()
    &&& new.pending_spec() == old.pending_spec() + cmds
    &&& new.same_regs(&old)
}

/// Only VRAM changes, to `vram`.
pub open spec fn drawn_post(old: GPU, new: GPU, vram: Seq<u16>) -> bool {
    &&& new.vram_spec() == vram
    &&& new.pending_spec() == old.pending_spec()
    &&& new.same_regs(&old)
}

/// VRAM after a flat rectangle at (x, y) with the current drawing state.
pub open spec fn mono_rect_vram(g: GPU, x: i16, y: i16, width: u16, height: u16, c: Color, semi: bool) -> Seq<u16> {
    let (x1, y1, x2, y2) = rect_extent_spec(g.draw_area, g.draw_offset, x, y, width, height);
    let c15 = rgb15_spec(c.r, c.g, c.b);
    box_spec(
        g.vram_spec(),
        x1,
        y1,
        x2,
        y2,
        if semi {
            blend_with(blend_mode_spec(g.draw_mode.semi_transparency), c15)
        } else {
            fill_with(c15)
        },
    )
}

/// A flat rectangle is drawn at its position moved by the drawing offset
/// (each coordinate wrapping in i16): the pixel at column `px`, line `py`
/// of VRAM receives the rectangle's colour (or that colour blended over it,
/// when semi-transparent) exactly when it lies in [x + offset X, that +
/// width) x [y + offset Y, that + height) (the size taken as signed 16-bit)
/// and inside the drawing area; every other pixel keeps its value.
pub proof fn law_mono_rect_pixels(
    g: GPU,
    x: i16,
    y: i16,
    width: u16,
    height: u16,
    c: Color,
    semi: bool,
    px: int,
    py: int,
)
    requires
        g.vram_spec().len() == VRAM_SIZE,
        0 <= px < 1024,
        0 <= py < 512,
    ensures
        ({
            let x0 = wrap_add_i16_spec(x, g.draw_offset.0) as int;
            let y0 = wrap_add_i16_spec(y, g.draw_offset.1) as int;
            let inside = x0 <= px < x0 + (width as i16) && y0 <= py < y0 + (height as i16)
                && (g.draw_area.left as i16) <= px <= (g.draw_area.right as i16)
                && (g.draw_area.top as i16) <= py <= (g.draw_area.bottom as i16);
            let old_px = g.vram_spec()[py * 1024 + px];
            let c15 = rgb15_spec(c.r, c.g, c.b);
            mono_rect_vram(g, x, y, width, height, c, semi)[py * 1024 + px] == if !inside {
                old_px
            } else if semi {
                blend_spec(blend_mode_spec(g.draw_mode.semi_transparency), old_px, c15)
            } else {
                c15
            }
        }),
{
    lemma_index(px, py);
}

/// VRAM after a textured rectangle at (x, y) with the current drawing state.
pub open spec fn textured_rect_vram(
    g: GPU,
    x: i16,
    y: i16,
    width: u16,
    height: u16,
    tex_u: u8,
    tex_v: u8,
    info: TextureInfo,
    c: Color,
    semi: bool,
    modulated: bool,
) -> Seq<u16> {
    let p = Rasterizer::tex_rect_spec(
        g.draw_mode,
        g.draw_area,
        g.draw_offset,
        x,
        y,
        width,
        height,
        tex_u,
        tex_v,
        info,
        c,
        semi,
        modulated,
    );
    if p.cx1 >= p.cx2 || p.cy1 >= p.cy2 {
        g.vram_spec()
    } else {
        tex_rows_spec(g.vram_spec(), p, p.cy2)
    }
}

impl GPU {
    /// A vertex plus the drawing offset.
    fn offset_vertex(&self, v: Vertex) -> (r: (i16, i16))
        ensures
            r == offset_spec(*self, v),
    {
        (v.x.wrapping_add(self.draw_offset.0), v.y.wrapping_add(self.draw_offset.1))
    }

    /// Queue a flat triangle, blended with the drawing mode's
    /// semi-transparency when `semi_transparent`.
    pub fn render_monochrome_triangle(&mut self, vertices: &[Vertex; 3], color: &Color, semi_transparent: bool)
        requires
            old(self).wf(),
        ensures
            final(self).wf(),
            final(self).fifo() == old(self).fifo(),
            queued_post(
                *old(self),
                *final(self),
                seq![mono_triangle_cmd(*old(self), vertices@[0], vertices@[1], vertices@[2], *color, semi_transparent)],
            ),
    {
        let v0 = self.offset_vertex(vertices[0]);
        let v1 = self.offset_vertex(vertices[1]);
        let v2 = self.offset_vertex(vertices[2]);
        let blend = if semi_transparent {
            Some(BlendMode::from_bits(self.draw_mode.semi_transparency))
        } else {
            None
        };
        let clip = self.rasterizer.clip_rect();
        let cmd = DrawCommand::Triangle { v0, v1, v2, color: color.to_rgb15(), blend, clip };
        self.pending_draws.push(cmd);
        proof {
            assert(self.pending_spec() =~= old(self).pending_spec() + seq![cmd]);
        }
    }

    /// Queue a flat quad as the triangles (v0, v1, v2) and (v0, v2, v3).
    pub fn render_monochrome_quad(&mut self, vertices: &[Vertex; 4], color: &Color, semi_transparent: bool)
        requires
            old(self).wf(),
        ensures
            final(self).wf(),
            final(self).fifo() == old(self).fifo(),
            queued_post(
                *old(self),
                *final(self),
                seq![
                    mono_triangle_cmd(*old(self), vertices@[0], vertices@[1], vertices@[2], *color, semi_transparent),
                    mono_triangle_cmd(*old(self), vertices@[0], vertices@[2], vertices@[3], *color, semi_transparent),
                ],
            ),
    {
        let tri1 = [vertices[0], vertices[1], vertices[2]];
        let tri2 = [vertices[0], vertices[2], vertices[3]];
        self.render_monochrome_triangle(&tri1, color, semi_transparent);
        self.render_monochrome_triangle(&tri2, color, semi_transparent);
        proof {
            let g = *old(self);
            assert(self.pending_spec() =~= g.pending_spec() + seq![
                mono_triangle_cmd(g, vertices@[0], vertices@[1], vertices@[2], *color, semi_transparent),
                mono_triangle_cmd(g, vertices@[0], vertices@[2], vertices@[3], *color, semi_transparent),
            ]);
        }
    }

    /// Queue a Gouraud-shaded triangle (semi-transparency is not applied).
    pub fn render_gradient_triangle(&mut self, vertices: &[Vertex; 3], colors: &[Color; 3], semi_transparent: bool)
        requires
            old(self).wf(),
        ensures
            final(self).wf(),
            final(self).fifo() == old(self).fifo(),
            queued_post(
                *old(self),
                *final(self),
                seq![gradient_triangle_cmd(*old(self), vertices@[0], vertices@[1], vertices@[2], colors@[0], colors@[1], colors@[2])],
            ),
    {
        let v0 = self.offset_vertex(vertices[0]);
        let v1 = self.offset_vertex(vertices[1]);
        let v2 = self.offset_vertex(vertices[2]);
        let c0 = (colors[0].r, colors[0].g, colors[0].b);
        let c1 = (colors[1].r, colors[1].g, colors[1].b);
        let c2 = (colors[2].r, colors[2].g, colors[2].b);
        let clip = self.rasterizer.clip_rect();
        let cmd = DrawCommand::GradientTriangle { v0, c0, v1, c1, v2, c2, clip };
        self.pending_draws.push(cmd);
        proof {
            assert(self.pending_spec() =~= old(self).pending_spec() + seq![cmd]);
        }
    }

    /// Queue a Gouraud-shaded quad as the triangles (v0, v1, v2) and (v1, v2, v3).
    pub fn render_gradient_quad(&mut self, vertices: &[Vertex; 4], colors: &[Color; 4], semi_transparent: bool)
        requires
            old(self).wf(),
        ensures
            final(self).wf(),
            final(self).fifo() == old(self).fifo(),
            queued_post(
                *old(self),
                *final(self),
                seq![
                    gradient_triangle_cmd(*old(self), vertices@[0], vertices@[1], vertices@[2], colors@[0], colors@[1], colors@[2]),
                    gradient_triangle_cmd(*old(self), vertices@[1], vertices@[2], vertices@[3], colors@[1], colors@[2], colors@[3]),
                ],
            ),
    {
        self.render_gradient_triangle(
            &[vertices[0], vertices[1], vertices[2]],
            &[colors[0], colors[1], colors[2]],
            semi_transparent,
        );
        self.render_gradient_triangle(
            &[vertices[1], vertices[2], vertices[3]],
            &[colors[1], colors[2], colors[3]],
            semi_transparent,
        );
        proof {
            let g = *old(self);
            assert(self.pending_spec() =~= g.pending_spec() + seq![
                gradient_triangle_cmd(g, vertices@[0], vertices@[1], vertices@[2], colors@[0], colors@[1], colors@[2]),
                gradient_triangle_cmd(g, vertices@[1], vertices@[2], vertices@[3], colors@[1], colors@[2], colors@[3]),
            ]);
        }
    }

    /// Queue a textured triangle tinted by `color` (semi-transparency is not applied).
    pub fn render_textured_triangle(
        &mut self,
        vertices: &[Vertex; 3],
        texcoords: &[TexCoord; 3],
        texture_info: &TextureInfo,
        color: &Color,
        semi_transparent: bool,
    )
        requires
            old(self).wf(),
        ensures
            final(self).wf(),
            final(self).fifo() == old(self).fifo(),
            queued_post(
                *old(self),
                *final(self),
                seq![textured_triangle_cmd(*old(self), vertices@[0], vertices@[1], vertices@[2],
                    texcoords@[0], texcoords@[1], texcoords@[2], *texture_info, *color)],
            ),
    {
        let v0 = self.offset_vertex(vertices[0]);
        let v1 = self.offset_vertex(vertices[1]);
        let v2 = self.offset_vertex(vertices[2]);
        let clip = self.rasterizer.clip_rect();
        let cmd = DrawCommand::TexturedTriangle {
                v0,
                t0: (texcoords[0].u, texcoords[0].v),
                v1,
                t1: (texcoords[1].u, texcoords[1].v),
                v2,
                t2: (texcoords[2].u, texcoords[2].v),
                info: *texture_info,
                window: self.texture_window,
                tint: (color.r, color.g, color.b),
                clip,
            };
        self.pending_draws.push(cmd);
        proof {
            assert(self.pending_spec() =~= old(self).pending_spec() + seq![cmd]);
        }
    }

    /// Queue a textured quad as the triangles (v0, v1, v2) and (v1, v2, v3).
    pub fn render_textured_quad(
        &mut self,
        vertices: &[Vertex; 4],
        texcoords: &[TexCoord; 4],
        texture_info: &TextureInfo,
        color: &Color,
        semi_transparent: bool,
    )
        requires
            old(self).wf(),
        ensures
            final(self).wf(),
            final(self).fifo() == old(self).fifo(),
            queued_post(
                *old(self),
                *final(self),
                seq![
                    textured_triangle_cmd(*old(self), vertices@[0], vertices@[1], vertices@[2],
                        texcoords@[0], texcoords@[1], texcoords@[2], *texture_info, *color),
                    textured_triangle_cmd(*old(self), vertices@[1], vertices@[2], vertices@[3],
                        texcoords@[1], texcoords@[2], texcoords@[3], *texture_info, *color),
                ],
            ),
    {
        let tri1_verts = [vertices[0], vertices[1], vertices[2]];
        let tri1_texcoords = [texcoords[0], texcoords[1], texcoords[2]];
        let tri2_verts = [vertices[1], vertices[2], vertices[3]];
        let tri2_texcoords = [texcoords[1], texcoords[2], texcoords[3]];
        self.render_textured_triangle(&tri1_verts, &tri1_texcoords, texture_info, color, semi_transparent);
        self.render_textured_triangle(&tri2_verts, &tri2_texcoords, texture_info, color, semi_transparent);
        proof {
            let g = *old(self);
            assert(self.pending_spec() =~= g.pending_spec() + seq![
                textured_triangle_cmd(g, vertices@[0], vertices@[1], vertices@[2],
                    texcoords@[0], texcoords@[1], texcoords@[2], *texture_info, *color),
                textured_triangle_cmd(g, vertices@[1], vertices@[2], vertices@[3],
                    texcoords@[1], texcoords@[2], texcoords@[3], *texture_info, *color),
            ]);
        }
    }

    /// Draw a flat line (semi-transparency is not applied), clipped to the
    /// clip rectangle.
    pub fn render_line(&mut self, v0: Vertex, v1: Vertex, color: Color, semi_transparent: bool)
        requires
            old(self).wf(),
        ensures
            final(self).wf(),
            final(self).fifo() == old(self).fifo(),
            drawn_post(
                *old(self),
                *final(self),
                line_result(
                    old(self).vram_spec(),
                    old(self).clip_spec(),
                    rgb15_spec(color.r, color.g, color.b),
                    offset_spec(*old(self), v0).0 as int,
                    offset_spec(*old(self), v0).1 as int,
                    offset_spec(*old(self), v1).0 as int,
                    offset_spec(*old(self), v1).1 as int,
                ),
            ),
    {
        let (x0, y0) = self.offset_vertex(v0);
        let (x1, y1) = self.offset_vertex(v1);
        let color_15bit = color.to_rgb15();
        self.rasterizer.draw_line(self.vram.as_mut_slice(), x0, y0, x1, y1, color_15bit);
    }

    /// Draw connected flat lines through the vertices (semi-transparency is
    /// not applied); fewer than two vertices draw nothing.
    pub fn render_polyline(&mut self, vertices: &[Vertex], color: Color, semi_transparent: bool)
        requires
            old(self).wf(),
        ensures
            final(self).wf(),
            final(self).fifo() == old(self).fifo(),
            drawn_post(
                *old(self),
                *final(self),
                if vertices@.len() < 2 {
                    old(self).vram_spec()
                } else {
                    polyline_spec(
                        old(self).vram_spec(),
                        old(self).clip_spec(),
                        rgb15_spec(color.r, color.g, color.b),
                        vertices@.map_values(|v: Vertex| offset_spec(*old(self), v)),
                        (vertices@.len() - 1) as nat,
                    )
                },
            ),
    {
        if vertices.len() < 2 {
            return;
        }
        let color_15bit = color.to_rgb15();
        let mut points: Vec<(i16, i16)> = Vec::new();
        let mut i: usize = 0;
        while i < vertices.len()
            invariant
                i <= vertices@.len(),
                points@ == vertices@.take(i as int).map_values(|v: Vertex| offset_spec(*self, v)),
            decreases vertices@.len() - i,
        {
            let p = self.offset_vertex(vertices[i]);
            points.push(p);
            i = i + 1;
            proof {
                assert(vertices@.take(i as int) =~= vertices@.take(i - 1).push(vertices@[i - 1]));
            }
        }
        proof {
            assert(vertices@.take(vertices@.len() as int) =~= vertices@);
        }
        self.rasterizer.draw_polyline(self.vram.as_mut_slice(), points.as_slice(), color_15bit);
    }

    /// Queue a shaded line (semi-transparency is not applied).
    pub fn render_shaded_line(&mut self, v0: Vertex, c0: Color, v1: Vertex, c1: Color, semi_transparent: bool)
        requires
            old(self).wf(),
        ensures
            final(self).wf(),
            final(self).fifo() == old(self).fifo(),
            queued_post(*old(self), *final(self), seq![gradient_line_cmd(*old(self), v0, c0, v1, c1)]),
    {
        let p0 = self.offset_vertex(v0);
        let p1 = self.offset_vertex(v1);
        let clip = self.rasterizer.clip_rect();
        let cmd = DrawCommand::GradientLine { p0, c0: (c0.r, c0.g, c0.b), p1, c1: (c1.r, c1.g, c1.b), clip };
        self.pending_draws.push(cmd);
        proof {
            assert(self.pending_spec() =~= old(self).pending_spec() + seq![cmd]);
        }
    }

    /// Queue a shaded polyline as one shaded line per pair of consecutive
    /// vertices, as far as both the vertices and the colours go; fewer than
    /// two of either queue nothing.
    pub fn render_shaded_polyline(&mut self, vertices: &[Vertex], colors: &[Color], semi_transparent: bool)
        requires
            old(self).wf(),
        ensures
            final(self).wf(),
            final(self).fifo() == old(self).fifo(),
            queued_post(*old(self), *final(self), shaded_polyline_cmds(*old(self), vertices@, colors@)),
    {
        let ghost g = *self;
        if vertices.len() < 2 || colors.len() < 2 {
            proof {
                assert(old(self).pending_spec() + Seq::<DrawCommand>::empty() =~= old(self).pending_spec());
            }
            return;
        }
        let n = if vertices.len() < colors.len() { vertices.len() } else { colors.len() };
        let ghost cmds = shaded_polyline_cmds(g, vertices@, colors@);
        let mut i: usize = 0;
        while i + 1 < n
            invariant
                2 <= n <= vertices@.len(),
                n <= colors@.len(),
                n == (if vertices@.len() < colors@.len() { vertices@.len() } else { colors@.len() }),
                i + 1 <= n,
                self.wf(),
                self.fifo() == g.fifo(),
                cmds == shaded_polyline_cmds(g, vertices@, colors@),
                cmds.len() == n - 1,
                queued_post(g, *self, cmds.take(i as int)),
            decreases n - i,
        {
            let ghost before = *self;
            self.render_shaded_line(vertices[i], colors[i], vertices[i + 1], colors[i + 1], semi_transparent);
            i = i + 1;
            proof {
                assert(cmds[i - 1] == gradient_line_cmd(before, vertices@[i - 1], colors@[i - 1], vertices@[i as int], colors@[i as int]));
                assert(cmds.take(i as int) =~= cmds.take(i - 1).push(cmds[i - 1]));
                assert(g.pending_spec() + cmds.take(i as int) =~= (g.pending_spec() + cmds.take(i - 1)).push(cmds[i - 1]));
                assert(self.vram_spec() == g.vram_spec());
                assert(self.same_regs(&g));
                assert(self.pending_spec() =~= g.pending_spec() + cmds.take(i as int));
            }
        }
        proof {
            assert(cmds.take(i as int) =~= cmds);
        }
    }

    /// Draw a flat rectangle at (x, y) plus the drawing offset, clipped to
    /// the drawing area, opaque or blended.
    pub fn render_monochrome_rect(
        &mut self,
        x: i16,
        y: i16,
        width: u16,
        height: u16,
        color: &Color,
        semi_transparent: bool,
    )
        requires
            old(self).wf(),
        ensures
            final(self).wf(),
            final(self).fifo() == old(self).fifo(),
            drawn_post(*old(self), *final(self), mono_rect_vram(*old(self), x, y, width, height, *color, semi_transparent)),
    {
        self.rasterizer.draw_rectangle(
            self.vram.as_mut_slice(),
            &self.draw_mode,
            &self.draw_area,
            self.draw_offset,
            x,
            y,
            width,
            height,
            color,
            semi_transparent,
        );
    }

    /// Draw a textured rectangle at (x, y) plus the drawing offset, clipped
    /// to the drawing area.
    pub fn render_textured_rect(
        &mut self,
        x: i16,
        y: i16,
        width: u16,
        height: u16,
        tex_u: u8,
        tex_v: u8,
        texture_info: &TextureInfo,
        color: &Color,
        semi_transparent: bool,
        modulated: bool,
    )
        requires
            old(self).wf(),
        ensures
            final(self).wf(),
            final(self).fifo() == old(self).fifo(),
            drawn_post(
                *old(self),
                *final(self),
                textured_rect_vram(*old(self), x, y, width, height, tex_u, tex_v, *texture_info, *color,
                    semi_transparent, modulated),
            ),
    {
        self.rasterizer.draw_textured_rectangle(
            self.vram.as_mut_slice(),
            &self.draw_mode,
            &self.draw_area,
            self.draw_offset,
            x,
            y,
            width,
            height,
            tex_u,
            tex_v,
            texture_info,
            color,
            semi_transparent,
            modulated,
        );
    }
}

} // verus!
