#![allow(unused_imports)]

use psrx::gpu::primitives::{BlendMode, TextureInfo};
use psrx::gpu::rasterizer::Rasterizer;
use psrx::gpu::registers::{
    ColorDepth, DisplayArea, DisplayMode, DrawMode, DrawingArea, GPUStatus, HorizontalRes,
    TextureWindow, VRAMTransfer, VRAMTransferDirection, VerticalRes, VideoMode,
};
use psrx::gpu::{Color, DrawCommand, TexCoord, TextureDepth, Vertex, GPU};

#[test]
fn test_monochrome_quad_non_rectangular() {
    let mut gpu = GPU::new();

    // Quads don't have to be rectangular (can be trapezoids, etc.)
    let vertices = [
        Vertex { x: 100, y: 100 },
        Vertex { x: 250, y: 120 }, // Skewed
        Vertex { x: 230, y: 200 },
        Vertex { x: 80, y: 180 },
    ];
    let color = Color {
        r: 0,
        g: 255,
        b: 255,
    };

    // Should render without issues
    gpu.render_monochrome_quad(&vertices, &color, false);
}

#[test]
fn test_monochrome_quad_degenerate_colinear_vertices() {
    let mut gpu = GPU::new();

    // All vertices on same line (degenerate quad)
    let vertices = [
        Vertex { x: 100, y: 100 },
        Vertex { x: 200, y: 100 },
        Vertex { x: 300, y: 100 },
        Vertex { x: 400, y: 100 },
    ];
    let color = Color {
        r: 255,
        g: 0,
        b: 0,
    };

    // Should not crash
    gpu.render_monochrome_quad(&vertices, &color, false);
}

#[test]
fn test_monochrome_quad_self_intersecting() {
    let mut gpu = GPU::new();

    // Self-intersecting quad (bow-tie shape)
    let vertices = [
        Vertex { x: 100, y: 100 },
        Vertex { x: 200, y: 200 }, // Cross pattern
        Vertex { x: 200, y: 100 },
        Vertex { x: 100, y: 200 },
    ];
    let color = Color {
        r: 128,
        g: 255,
        b: 128,
    };

    // Should render as two triangles (implementation-defined behavior)
    gpu.render_monochrome_quad(&vertices, &color, false);
}

#[test]
fn test_monochrome_quad_negative_coordinates() {
    let mut gpu = GPU::new();

    // Quad with negative coordinates
    let vertices = [
        Vertex { x: -100, y: -100 },
        Vertex { x: 100, y: -100 },
        Vertex { x: 100, y: 100 },
        Vertex { x: -100, y: 100 },
    ];
    let color = Color {
        r: 192,
        g: 192,
        b: 192,
    };

    // Should handle wrapping
    gpu.render_monochrome_quad(&vertices, &color, false);
}

#[test]
fn test_monochrome_quad_maximum_size() {
    let mut gpu = GPU::new();

    // Maximum size quad
    let vertices = [
        Vertex { x: 0, y: 0 },
        Vertex { x: 1023, y: 0 },
        Vertex { x: 1023, y: 511 },
        Vertex { x: 0, y: 511 },
    ];
    let color = Color {
        r: 64,
        g: 128,
        b: 255,
    };

    // Should not crash
    gpu.render_monochrome_quad(&vertices, &color, false);
}

#[test]
fn test_monochrome_quad_all_black() {
    let mut gpu = GPU::new();

    let vertices = [
        Vertex { x: 100, y: 100 },
        Vertex { x: 200, y: 100 },
        Vertex { x: 200, y: 200 },
        Vertex { x: 100, y: 200 },
    ];
    let color = Color { r: 0, g: 0, b: 0 };

    gpu.render_monochrome_quad(&vertices, &color, false);

    let pixel = gpu.read_vram(150, 150);
    assert_eq!(pixel, 0x0000);
}

#[test]
fn test_monochrome_quad_concave() {
    let mut gpu = GPU::new();

    // Concave quad (arrow shape)
    let vertices = [
        Vertex { x: 100, y: 150 },
        Vertex { x: 200, y: 100 },
        Vertex { x: 200, y: 150 }, // Indent
        Vertex { x: 200, y: 200 },
    ];
    let color = Color {
        r: 255,
        g: 192,
        b: 0,
    };

    // Should render as two triangles
    gpu.render_monochrome_quad(&vertices, &color, false);
}

#[test]
fn test_monochrome_quad_with_extreme_offset() {
    let mut gpu = GPU::new();

    // Extreme offset causing wrapping
    gpu.draw_offset = (30000, 20000);

    let vertices = [
        Vertex { x: 0, y: 0 },
        Vertex { x: 100, y: 0 },
        Vertex { x: 100, y: 100 },
        Vertex { x: 0, y: 100 },
    ];
    let color = Color {
        r: 128,
        g: 0,
        b: 128,
    };

    // Should handle wrapping
    gpu.render_monochrome_quad(&vertices, &color, false);
}

#[test]
fn test_monochrome_quad_large_coordinates() {
    let mut gpu = GPU::new();

    // Large coordinates that will wrap
    let vertices = [
        Vertex { x: 20000, y: 10000 },
        Vertex { x: 21000, y: 10000 },
        Vertex { x: 21000, y: 11000 },
        Vertex { x: 20000, y: 11000 },
    ];
    let color = Color {
        r: 100,
        g: 150,
        b: 200,
    };

    // Should wrap and not crash
    gpu.render_monochrome_quad(&vertices, &color, false);
}
