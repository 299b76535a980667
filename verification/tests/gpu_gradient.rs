#![allow(unused_imports)]

use psrx::gpu::primitives::{BlendMode, TextureInfo};
use psrx::gpu::rasterizer::Rasterizer;
use psrx::gpu::registers::{
    ColorDepth, DisplayArea, DisplayMode, DrawMode, DrawingArea, GPUStatus, HorizontalRes,
    TextureWindow, VRAMTransfer, VRAMTransferDirection, VerticalRes, VideoMode,
};
use psrx::gpu::{Color, DrawCommand, TexCoord, TextureDepth, Vertex, GPU};

#[test]
fn test_gradient_triangle_uniform_color() {
    let mut gpu = GPU::new();

    // All vertices same color (should look like flat-shaded)
    let vertices = [
        Vertex { x: 100, y: 100 },
        Vertex { x: 200, y: 100 },
        Vertex { x: 150, y: 200 },
    ];
    let colors = [
        Color {
            r: 128,
            g: 128,
            b: 128,
        },
        Color {
            r: 128,
            g: 128,
            b: 128,
        },
        Color {
            r: 128,
            g: 128,
            b: 128,
        },
    ];

    gpu.render_gradient_triangle(&vertices, &colors, false);

    // All pixels should be same color
    let pixel1 = gpu.read_vram(150, 120);
    let pixel2 = gpu.read_vram(150, 160);
    assert_eq!(pixel1, pixel2);
}

#[test]
fn test_gradient_triangle_negative_coordinates() {
    let mut gpu = GPU::new();

    let vertices = [
        Vertex { x: -50, y: -50 },
        Vertex { x: 100, y: -50 },
        Vertex { x: 25, y: 100 },
    ];
    let colors = [
        Color {
            r: 255,
            g: 0,
            b: 0,
        },
        Color {
            r: 0,
            g: 255,
            b: 0,
        },
        Color {
            r: 0,
            g: 0,
            b: 255,
        },
    ];

    // Should handle wrapping
    gpu.render_gradient_triangle(&vertices, &colors, false);
}

#[test]
fn test_gradient_triangle_degenerate() {
    let mut gpu = GPU::new();

    // Colinear vertices
    let vertices = [
        Vertex { x: 100, y: 100 },
        Vertex { x: 200, y: 100 },
        Vertex { x: 300, y: 100 },
    ];
    let colors = [
        Color {
            r: 255,
            g: 0,
            b: 0,
        },
        Color {
            r: 0,
            g: 255,
            b: 0,
        },
        Color {
            r: 0,
            g: 0,
            b: 255,
        },
    ];

    // Should not crash
    gpu.render_gradient_triangle(&vertices, &colors, false);
}

#[test]
fn test_gradient_quad_uniform_color() {
    let mut gpu = GPU::new();

    let vertices = [
        Vertex { x: 100, y: 100 },
        Vertex { x: 200, y: 100 },
        Vertex { x: 200, y: 200 },
        Vertex { x: 100, y: 200 },
    ];
    let colors = [
        Color {
            r: 200,
            g: 100,
            b: 50,
        },
        Color {
            r: 200,
            g: 100,
            b: 50,
        },
        Color {
            r: 200,
            g: 100,
            b: 50,
        },
        Color {
            r: 200,
            g: 100,
            b: 50,
        },
    ];

    gpu.render_gradient_quad(&vertices, &colors, false);

    // All pixels should be same color
    let pixel1 = gpu.read_vram(120, 120);
    let pixel2 = gpu.read_vram(180, 180);
    assert_eq!(pixel1, pixel2);
}

#[test]
fn test_gradient_quad_non_rectangular() {
    let mut gpu = GPU::new();

    // Non-rectangular quad (trapezoid)
    let vertices = [
        Vertex { x: 100, y: 100 },
        Vertex { x: 250, y: 120 },
        Vertex { x: 230, y: 200 },
        Vertex { x: 80, y: 180 },
    ];
    let colors = [
        Color {
            r: 255,
            g: 0,
            b: 0,
        },
        Color {
            r: 0,
            g: 255,
            b: 0,
        },
        Color {
            r: 0,
            g: 0,
            b: 255,
        },
        Color {
            r: 255,
            g: 255,
            b: 255,
        },
    ];

    // Should render without issues
    gpu.render_gradient_quad(&vertices, &colors, false);
}

