#![allow(unused_imports)]

use psrx::gpu::primitives::{BlendMode, TextureInfo};
use psrx::gpu::rasterizer::Rasterizer;
use psrx::gpu::registers::{
    ColorDepth, DisplayArea, DisplayMode, DrawMode, DrawingArea, GPUStatus, HorizontalRes,
    TextureWindow, VRAMTransfer, VRAMTransferDirection, VerticalRes, VideoMode,
};
use psrx::gpu::{Color, DrawCommand, TexCoord, TextureDepth, Vertex, GPU};

#[test]
fn test_monochrome_triangle_coordinate_wrapping() {
    let mut gpu = GPU::new();

    // Coordinates wrap around VRAM boundaries
    // Drawing offset causes wrapping: large positive + positive = wrap
    gpu.draw_offset = (1000, 500);

    let vertices = [
        Vertex { x: 50, y: 50 },
        Vertex { x: 100, y: 50 },
        Vertex { x: 75, y: 100 },
    ];
    let color = Color {
        r: 255,
        g: 255,
        b: 255,
    };

    // Should not crash even with wrapping coordinates
    gpu.render_monochrome_triangle(&vertices, &color, false);
}

#[test]
fn test_monochrome_triangle_maximum_vertex_distance() {
    let mut gpu = GPU::new();

    // Maximum vertex distance is 1023 horizontal, 511 vertical
    let vertices = [
        Vertex { x: 0, y: 0 },
        Vertex { x: 1023, y: 0 },
        Vertex { x: 512, y: 511 },
    ];
    let color = Color {
        r: 255,
        g: 0,
        b: 255,
    };

    // Should handle maximum distances
    gpu.render_monochrome_triangle(&vertices, &color, false);
}

#[test]
fn test_monochrome_triangle_degenerate_colinear_vertices() {
    let mut gpu = GPU::new();

    // Degenerate triangles (colinear points) should not crash
    let vertices = [
        Vertex { x: 100, y: 100 },
        Vertex { x: 200, y: 100 },
        Vertex { x: 300, y: 100 }, // All on same horizontal line
    ];
    let color = Color { r: 255, g: 0, b: 0 };

    // Should not crash, may or may not render
    gpu.render_monochrome_triangle(&vertices, &color, false);
}

#[test]
fn test_monochrome_triangle_degenerate_single_point() {
    let mut gpu = GPU::new();

    // All vertices at same point
    let vertices = [
        Vertex { x: 150, y: 150 },
        Vertex { x: 150, y: 150 },
        Vertex { x: 150, y: 150 },
    ];
    let color = Color { r: 0, g: 255, b: 0 };

    // Should not crash
    gpu.render_monochrome_triangle(&vertices, &color, false);
}

#[test]
fn test_monochrome_triangle_vertex_order_independence() {
    let mut gpu = GPU::new();

    // Triangle with vertices in different winding orders should render
    // Backface culling is not automatic
    let vertices_cw = [
        Vertex { x: 100, y: 100 },
        Vertex { x: 200, y: 100 },
        Vertex { x: 150, y: 200 },
    ];
    let vertices_ccw = [
        Vertex { x: 100, y: 100 },
        Vertex { x: 150, y: 200 },
        Vertex { x: 200, y: 100 },
    ];
    let color = Color {
        r: 255,
        g: 255,
        b: 0,
    };

    // Both should render without error
    gpu.render_monochrome_triangle(&vertices_cw, &color, false);
    gpu.render_monochrome_triangle(&vertices_ccw, &color, false);
}

#[test]
fn test_monochrome_triangle_zero_area() {
    let mut gpu = GPU::new();

    // Triangle with near-zero area (very thin)
    let vertices = [
        Vertex { x: 100, y: 100 },
        Vertex { x: 101, y: 100 },
        Vertex { x: 100, y: 101 },
    ];
    let color = Color {
        r: 255,
        g: 255,
        b: 255,
    };

    // Should not crash
    gpu.render_monochrome_triangle(&vertices, &color, false);
}

#[test]
fn test_monochrome_triangle_large_coordinates_wrapping() {
    let mut gpu = GPU::new();

    // Test wrapping with large coordinates beyond i16 range
    let vertices = [
        Vertex { x: 30000, y: 30000 },
        Vertex { x: 31000, y: 30000 },
        Vertex { x: 30500, y: 31000 },
    ];
    let color = Color {
        r: 128,
        g: 64,
        b: 192,
    };

    // Should wrap around and not crash
    gpu.render_monochrome_triangle(&vertices, &color, false);
}

#[test]
fn test_monochrome_triangle_all_black() {
    let mut gpu = GPU::new();

    // Black triangle
    let vertices = [
        Vertex { x: 100, y: 100 },
        Vertex { x: 200, y: 100 },
        Vertex { x: 150, y: 200 },
    ];
    let color = Color { r: 0, g: 0, b: 0 };

    gpu.render_monochrome_triangle(&vertices, &color, false);

    // Verify black pixel at center
    let pixel = gpu.read_vram(150, 133);
    assert_eq!(pixel, 0x0000);
}

#[test]
fn test_monochrome_triangle_with_extreme_offset() {
    let mut gpu = GPU::new();

    // Extreme drawing offset that causes wrapping
    gpu.draw_offset = (32000, 16000);

    let vertices = [
        Vertex { x: 0, y: 0 },
        Vertex { x: 100, y: 0 },
        Vertex { x: 50, y: 100 },
    ];
    let color = Color {
        r: 192,
        g: 192,
        b: 0,
    };

    // Should handle wrapping gracefully
    gpu.render_monochrome_triangle(&vertices, &color, false);
}
