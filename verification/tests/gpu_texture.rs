#![allow(unused_imports)]

use psrx::gpu::primitives::{BlendMode, TextureInfo};
use psrx::gpu::rasterizer::Rasterizer;
use psrx::gpu::registers::{
    ColorDepth, DisplayArea, DisplayMode, DrawMode, DrawingArea, GPUStatus, HorizontalRes,
    TextureWindow, VRAMTransfer, VRAMTransferDirection, VerticalRes, VideoMode,
};
use psrx::gpu::{Color, DrawCommand, TexCoord, TextureDepth, Vertex, GPU};

#[test]
fn test_textured_triangle_texture_coordinates() {
    let mut gpu = GPU::new();

    // Set up gradient texture
    for y in 0..256u16 {
        for x in 0..256u16 {
            let color = ((y >> 3) << 10) | ((x >> 3) << 5) | (x >> 3);
            gpu.write_vram(x, y, color);
        }
    }

    let vertices = [
        Vertex { x: 100, y: 100 },
        Vertex { x: 200, y: 100 },
        Vertex { x: 150, y: 200 },
    ];

    // Texture coordinates are 8-bit (0-255)
    let texcoords = [
        TexCoord { u: 0, v: 0 },
        TexCoord { u: 255, v: 0 },
        TexCoord { u: 128, v: 255 },
    ];

    let texture_info = TextureInfo {
        page_x: 0,
        page_y: 0,
        clut_x: 0,
        clut_y: 0,
        depth: TextureDepth::T15Bit,
    };
    let color = Color {
        r: 128,
        g: 128,
        b: 128,
    };

    gpu.render_textured_triangle(&vertices, &texcoords, &texture_info, &color, false);

    // Should render with full U/V range
    let pixel = gpu.read_vram(150, 133);
    assert_ne!(pixel, 0x0000);
}

#[test]
fn test_textured_triangle_4bit_texture() {
    let mut gpu = GPU::new();

    // 4-bit textures use 16-color CLUT
    // Set up CLUT at (0, 0)
    for i in 0..16u16 {
        let color = (i << 10) | (i << 5) | i; // Grayscale CLUT
        gpu.write_vram(i, 0, color);
    }

    // Set up 4-bit texture data
    for y in 0..16 {
        for x in 0..16 {
            gpu.write_vram(64 + x, y, 0x0000); // 4-bit indices
        }
    }

    let vertices = [
        Vertex { x: 100, y: 100 },
        Vertex { x: 200, y: 100 },
        Vertex { x: 150, y: 200 },
    ];
    let texcoords = [
        TexCoord { u: 0, v: 0 },
        TexCoord { u: 15, v: 0 },
        TexCoord { u: 7, v: 15 },
    ];
    let texture_info = TextureInfo {
        page_x: 64, // Page at 64
        page_y: 0,
        clut_x: 0,
        clut_y: 0,
        depth: TextureDepth::T4Bit,
    };
    let color = Color {
        r: 128,
        g: 128,
        b: 128,
    };

    gpu.render_textured_triangle(&vertices, &texcoords, &texture_info, &color, false);
}

#[test]
fn test_textured_triangle_8bit_texture() {
    let mut gpu = GPU::new();

    // 8-bit textures use 256-color CLUT
    // Set up CLUT at (0, 1)
    for i in 0..256u16 {
        let r = (i & 0x1F) as u16;
        let g = ((i >> 3) & 0x1F) as u16;
        let b = ((i >> 6) & 0x1F) as u16;
        let color = (b << 10) | (g << 5) | r;
        gpu.write_vram(i % 16, 1 + (i / 16), color);
    }

    // Set up 8-bit texture data
    for y in 0..16 {
        for x in 0..16 {
            gpu.write_vram(128 + x, y, 0x0000); // 8-bit indices
        }
    }

    let vertices = [
        Vertex { x: 100, y: 100 },
        Vertex { x: 200, y: 100 },
        Vertex { x: 150, y: 200 },
    ];
    let texcoords = [
        TexCoord { u: 0, v: 0 },
        TexCoord { u: 15, v: 0 },
        TexCoord { u: 7, v: 15 },
    ];
    let texture_info = TextureInfo {
        page_x: 128, // Page at 128
        page_y: 0,
        clut_x: 0,
        clut_y: 1,
        depth: TextureDepth::T8Bit,
    };
    let color = Color {
        r: 128,
        g: 128,
        b: 128,
    };

    gpu.render_textured_triangle(&vertices, &texcoords, &texture_info, &color, false);
}

#[test]
fn test_textured_triangle_negative_coordinates() {
    let mut gpu = GPU::new();

    // Set up texture
    for y in 0..16 {
        for x in 0..16 {
            gpu.write_vram(x, y, 0x7FFF);
        }
    }

    let vertices = [
        Vertex { x: -50, y: -50 },
        Vertex { x: 100, y: -50 },
        Vertex { x: 25, y: 100 },
    ];
    let texcoords = [
        TexCoord { u: 0, v: 0 },
        TexCoord { u: 15, v: 0 },
        TexCoord { u: 7, v: 15 },
    ];
    let texture_info = TextureInfo {
        page_x: 0,
        page_y: 0,
        clut_x: 0,
        clut_y: 0,
        depth: TextureDepth::T15Bit,
    };
    let color = Color {
        r: 128,
        g: 128,
        b: 128,
    };

    // Should handle wrapping
    gpu.render_textured_triangle(&vertices, &texcoords, &texture_info, &color, false);
}

#[test]
fn test_textured_triangle_boundary_coordinates() {
    let mut gpu = GPU::new();

    // Set up large texture area
    for y in 0..512 {
        for x in 0..1024 {
            gpu.write_vram(x, y, 0x7FFF);
        }
    }

    let vertices = [
        Vertex { x: 0, y: 0 },
        Vertex { x: 1023, y: 0 },
        Vertex { x: 512, y: 511 },
    ];
    let texcoords = [
        TexCoord { u: 0, v: 0 },
        TexCoord { u: 255, v: 0 },
        TexCoord { u: 128, v: 255 },
    ];
    let texture_info = TextureInfo {
        page_x: 0,
        page_y: 0,
        clut_x: 0,
        clut_y: 0,
        depth: TextureDepth::T15Bit,
    };
    let color = Color {
        r: 128,
        g: 128,
        b: 128,
    };

    gpu.render_textured_triangle(&vertices, &texcoords, &texture_info, &color, false);
}

#[test]
fn test_textured_triangle_darken_modulation() {
    let mut gpu = GPU::new();

    // Set up white texture
    for y in 0..16 {
        for x in 0..16 {
            gpu.write_vram(x, y, 0x7FFF); // White
        }
    }

    let vertices = [
        Vertex { x: 100, y: 100 },
        Vertex { x: 200, y: 100 },
        Vertex { x: 150, y: 200 },
    ];
    let texcoords = [
        TexCoord { u: 0, v: 0 },
        TexCoord { u: 15, v: 0 },
        TexCoord { u: 7, v: 15 },
    ];
    let texture_info = TextureInfo {
        page_x: 0,
        page_y: 0,
        clut_x: 0,
        clut_y: 0,
        depth: TextureDepth::T15Bit,
    };

    // Values < 128 darken the texture
    let color = Color {
        r: 64,
        g: 64,
        b: 64,
    }; // Half brightness

    gpu.render_textured_triangle(&vertices, &texcoords, &texture_info, &color, false);

    let pixel = gpu.read_vram(150, 133);
    // Should be darker than the white texture
    assert!(pixel < 0x7FFF);
}

