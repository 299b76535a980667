//! GPU register state: drawing mode, drawing area, texture window, display
//! configuration, the GPUSTAT fields and VRAM transfer progress.

use vstd::prelude::*;

verus! {

/// Drawing mode set by GP0(E1h).
#[derive(Debug, Clone, Copy, PartialEq, Eq, Structural)]
pub struct DrawMode {
    /// Texture page X base in VRAM pixels (multiple of 64).
    pub texture_page_x_base: u16,
    /// Texture page Y base in VRAM lines (0 or 256).
    pub texture_page_y_base: u16,
    /// Semi-transparency mode (0-3).
    pub semi_transparency: u8,
    /// Texture depth (0 = 4-bit, 1 = 8-bit, 2 = 15-bit).
    pub texture_depth: u8,
    pub dithering: bool,
    pub draw_to_display: bool,
    pub texture_disable: bool,
    pub texture_x_flip: bool,
    pub texture_y_flip: bool,
}

impl DrawMode {
    /// The power-on value.
    pub open spec fn initial() -> Self {
        DrawMode {
            texture_page_x_base: 0,
            texture_page_y_base: 0,
            semi_transparency: 0,
            texture_depth: 0,
            dithering: false,
            draw_to_display: false,
            texture_disable: false,
            texture_x_flip: false,
            texture_y_flip: false,
        }
    }
}

impl Default for DrawMode {
    fn default() -> (r: Self)
        ensures
            r == DrawMode::initial(),
    {
        DrawMode {
            texture_page_x_base: 0,
            texture_page_y_base: 0,
            semi_transparency: 0,
            texture_depth: 0,
            dithering: false,
            draw_to_display: false,
            texture_disable: false,
            texture_x_flip: false,
            texture_y_flip: false,
        }
    }
}

/// Drawing area (clip rectangle, inclusive) set by GP0(E3h)/GP0(E4h).
#[derive(Debug, Clone, Copy, PartialEq, Eq, Structural)]
pub struct DrawingArea {
    pub left: u16,
    pub top: u16,
    pub right: u16,
    pub bottom: u16,
}

impl DrawingArea {
    /// The power-on value.
    pub open spec fn initial() -> Self {
        DrawingArea {
            left: 0,
            top: 0,
            right: 1023,
            bottom: 511,
        }
    }
}

impl Default for DrawingArea {
    /// The whole of VRAM.
    fn default() -> (r: Self)
        ensures
            r == DrawingArea::initial(),
    {
        DrawingArea {
            left: 0,
            top: 0,
            right: 1023,
            bottom: 511,
        }
    }
}

/// Texture window set by GP0(E2h); each field is in units of 8 texels.
#[derive(Debug, Clone, Copy, PartialEq, Eq, Structural)]
pub struct TextureWindow {
    pub mask_x: u8,
    pub mask_y: u8,
    pub offset_x: u8,
    pub offset_y: u8,
}

impl TextureWindow {
    /// The power-on value.
    pub open spec fn initial() -> Self {
        TextureWindow {
            mask_x: 0,
            mask_y: 0,
            offset_x: 0,
            offset_y: 0,
        }
    }
}

impl Default for TextureWindow {
    fn default() -> (r: Self)
        ensures
            r == TextureWindow::initial(),
    {
        TextureWindow {
            mask_x: 0,
            mask_y: 0,
            offset_x: 0,
            offset_y: 0,
        }
    }
}

/// The displayed part of VRAM, set by GP1(05h)-GP1(07h).
#[derive(Debug, Clone, Copy, PartialEq, Eq, Structural)]
pub struct DisplayArea {
    pub x: u16,
    pub y: u16,
    pub width: u16,
    pub height: u16,
}

impl DisplayArea {
    /// The power-on value.
    pub open spec fn initial() -> Self {
        DisplayArea {
            x: 0,
            y: 0,
            width: 320,
            height: 240,
        }
    }
}

impl Default for DisplayArea {
    fn default() -> (r: Self)
        ensures
            r == DisplayArea::initial(),
    {
        DisplayArea {
            x: 0,
            y: 0,
            width: 320,
            height: 240,
        }
    }
}

/// Display mode set by GP1(08h).
#[derive(Debug, Clone, Copy, PartialEq, Eq, Structural)]
pub struct DisplayMode {
    pub horizontal_res: HorizontalRes,
    pub vertical_res: VerticalRes,
    pub video_mode: VideoMode,
    pub display_area_color_depth: ColorDepth,
    pub interlaced: bool,
    pub display_disabled: bool,
}

impl DisplayMode {
    /// The power-on value.
    pub open spec fn initial() -> Self {
        DisplayMode {
            horizontal_res: HorizontalRes::R320,
            vertical_res: VerticalRes::R240,
            video_mode: VideoMode::NTSC,
            display_area_color_depth: ColorDepth::C15Bit,
            interlaced: false,
            display_disabled: true,
        }
    }
}

impl Default for DisplayMode {
    /// 320x240 NTSC, 15-bit, progressive, display disabled.
    fn default() -> (r: Self)
        ensures
            r == DisplayMode::initial(),
    {
        DisplayMode {
            horizontal_res: HorizontalRes::R320,
            vertical_res: VerticalRes::R240,
            video_mode: VideoMode::NTSC,
            display_area_color_depth: ColorDepth::C15Bit,
            interlaced: false,
            display_disabled: true,
        }
    }
}

/// Horizontal display resolution.
#[derive(Debug, Clone, Copy, PartialEq, Eq, Structural)]
pub enum HorizontalRes {
    R256,
    R320,
    R512,
    R640,
    R368,
    R384,
}

/// Vertical display resolution.
#[derive(Debug, Clone, Copy, PartialEq, Eq, Structural)]
pub enum VerticalRes {
    R240,
    R480,
}

/// Video standard.
#[derive(Debug, Clone, Copy, PartialEq, Eq, Structural)]
pub enum VideoMode {
    NTSC,
    PAL,
}

/// Colour depth of the displayed area.
#[derive(Debug, Clone, Copy, PartialEq, Eq, Structural)]
pub enum ColorDepth {
    C15Bit,
    C24Bit,
}

/// The fields of the GPUSTAT register.
#[derive(Debug, Clone, Copy, PartialEq, Eq, Structural)]
pub struct GPUStatus {
    /// Texture page X base, in units of 64 pixels (bits 0-3).
    pub texture_page_x_base: u8,
    /// Texture page Y base, in units of 256 lines (bit 4).
    pub texture_page_y_base: u8,
    /// Semi-transparency (bits 5-6).
    pub semi_transparency: u8,
    /// Texture depth (bits 7-8).
    pub texture_depth: u8,
    pub dithering: bool,
    pub draw_to_display: bool,
    pub set_mask_bit: bool,
    pub draw_pixels: bool,
    pub interlace_field: bool,
    pub reverse_flag: bool,
    pub texture_disable: bool,
    /// Horizontal resolution 2 (bit 16).
    pub horizontal_res_2: u8,
    /// Horizontal resolution 1 (bits 17-18).
    pub horizontal_res_1: u8,
    pub vertical_res: bool,
    pub video_mode: bool,
    pub display_area_color_depth: bool,
    pub vertical_interlace: bool,
    pub display_disabled: bool,
    pub interrupt_request: bool,
    pub dma_request: bool,
    pub ready_to_receive_cmd: bool,
    pub ready_to_send_vram: bool,
    pub ready_to_receive_dma: bool,
    /// DMA direction (bits 29-30): 0 off, 1 FIFO, 2 CPU to GP0, 3 GPUREAD to CPU.
    pub dma_direction: u8,
    pub drawing_odd_line: bool,
}

impl GPUStatus {
    /// The power-on value.
    pub open spec fn initial() -> Self {
        GPUStatus {
            texture_page_x_base: 0,
            texture_page_y_base: 0,
            semi_transparency: 0,
            texture_depth: 0,
            dithering: false,
            draw_to_display: false,
            set_mask_bit: false,
            draw_pixels: false,
            interlace_field: false,
            reverse_flag: false,
            texture_disable: false,
            horizontal_res_2: 0,
            horizontal_res_1: 0,
            vertical_res: false,
            video_mode: false,
            display_area_color_depth: false,
            vertical_interlace: false,
            display_disabled: true,
            interrupt_request: false,
            dma_request: false,
            ready_to_receive_cmd: true,
            ready_to_send_vram: true,
            ready_to_receive_dma: true,
            dma_direction: 0,
            drawing_odd_line: false,
        }
    }
}

impl Default for GPUStatus {
    /// Display disabled, ready for commands, DMA and VRAM reads; all else clear.
    fn default() -> (r: Self)
        ensures
            r == GPUStatus::initial(),
    {
        GPUStatus {
            texture_page_x_base: 0,
            texture_page_y_base: 0,
            semi_transparency: 0,
            texture_depth: 0,
            dithering: false,
            draw_to_display: false,
            set_mask_bit: false,
            draw_pixels: false,
            interlace_field: false,
            reverse_flag: false,
            texture_disable: false,
            horizontal_res_2: 0,
            horizontal_res_1: 0,
            vertical_res: false,
            video_mode: false,
            display_area_color_depth: false,
            vertical_interlace: false,
            display_disabled: true,
            interrupt_request: false,
            dma_request: false,
            ready_to_receive_cmd: true,
            ready_to_send_vram: true,
            ready_to_receive_dma: true,
            dma_direction: 0,
            drawing_odd_line: false,
        }
    }
}

/// Direction of a VRAM transfer.
#[derive(Debug, Clone, Copy, PartialEq, Eq, Structural)]
pub enum VRAMTransferDirection {
    CpuToVram,
    VramToCpu,
}

/// Progress of a rectangular VRAM transfer.
#[derive(Debug, Clone, Copy, PartialEq, Eq, Structural)]
pub struct VRAMTransfer {
    pub x: u16,
    pub y: u16,
    pub width: u16,
    pub height: u16,
    pub current_x: u16,
    pub current_y: u16,
    pub direction: VRAMTransferDirection,
}

} // verus!
