//! GP1 display control commands: reset, command buffer reset, interrupt
//! acknowledge, display enable, DMA direction, display area and range,
//! display mode and GPU info.

use vstd::prelude::*;

use super::GPU;
use super::registers::{
    ColorDepth, DisplayArea, DisplayMode, DrawMode, DrawingArea, GPUStatus, HorizontalRes,
    TextureWindow, VerticalRes, VideoMode,
};

verus! {

/// What GP1 commands other than the reset leave alone: VRAM, the pending
/// draws and the drawing registers.
pub open spec fn gp1_frame(old: GPU, new: GPU) -> bool {
    &&& new.vram_spec() == old.vram_spec()
    &&& new.pending_spec() == old.pending_spec()
    &&& new.draw_mode == old.draw_mode
    &&& new.draw_area == old.draw_area
    &&& new.draw_offset == old.draw_offset
    &&& new.texture_window == old.texture_window
    &&& new.clip_spec() == old.clip_spec()
}

/// The state after GP1(00h): every register back to its power-on value,
/// the FIFO empty, no transfer, display disabled; VRAM and the queued draws kept.
pub open spec fn reset_post(old: GPU, new: GPU) -> bool {
    &&& new.vram_spec() == old.vram_spec()
    &&& new.pending_spec() == old.pending_spec()
    &&& new.fifo().len() == 0
    &&& new.vram_transfer is None
    &&& new.draw_mode == DrawMode::initial()
    &&& new.draw_area == DrawingArea::initial()
    &&& new.draw_offset == (0i16, 0i16)
    &&& new.texture_window == TextureWindow::initial()
    &&& new.display_area == DisplayArea::initial()
    &&& new.display_mode == DisplayMode { display_disabled: true, ..DisplayMode::initial() }
    &&& new.status == GPUStatus { display_disabled: true, ..GPUStatus::initial() }
    &&& new.clip_spec() == (0i16, 0i16, 1023i16, 511i16)
}

/// The state after GP1(01h): FIFO emptied and any VRAM transfer cancelled.
pub open spec fn reset_command_buffer_post(old: GPU, new: GPU) -> bool {
    &&& gp1_frame(old, new)
    &&& new.fifo().len() == 0
    &&& new.vram_transfer is None
    &&& new.status == old.status
    &&& new.display_area == old.display_area
    &&& new.display_mode == old.display_mode
}

/// Only GPUSTAT changes, to `status`.
pub open spec fn status_post(old: GPU, new: GPU, status: GPUStatus) -> bool {
    &&& gp1_frame(old, new)
    &&& new.fifo() == old.fifo()
    &&& new.vram_transfer == old.vram_transfer
    &&& new.status == status
    &&& new.display_area == old.display_area
    &&& new.display_mode == old.display_mode
}

/// Only the display area changes, to `area`.
pub open spec fn display_area_post(old: GPU, new: GPU, area: DisplayArea) -> bool {
    &&& gp1_frame(old, new)
    &&& new.fifo() == old.fifo()
    &&& new.vram_transfer == old.vram_transfer
    &&& new.status == old.status
    &&& new.display_area == area
    &&& new.display_mode == old.display_mode
}

/// Only the display mode and GPUSTAT change, to `mode` and `status`.
pub open spec fn display_mode_post(old: GPU, new: GPU, mode: DisplayMode, status: GPUStatus) -> bool {
    &&& gp1_frame(old, new)
    &&& new.fifo() == old.fifo()
    &&& new.vram_transfer == old.vram_transfer
    &&& new.status == status
    &&& new.display_area == old.display_area
    &&& new.display_mode == mode
}

/// `b - a`, or 0 when `a` is larger.
pub open spec fn sat_sub_spec(b: u16, a: u16) -> u16 {
    if b >= a {
        (b - a) as u16
    } else {
        0
    }
}

/// Horizontal resolution from the HR2 bit and the HR1 field; reserved
/// combinations of HR2 = 1 give 368.
pub open spec fn hres_spec(hr2: u8, hr1: u8) -> HorizontalRes {
    if hr2 == 0 {
        if hr1 == 0 {
            HorizontalRes::R256
        } else if hr1 == 1 {
            HorizontalRes::R320
        } else if hr1 == 2 {
            HorizontalRes::R512
        } else if hr1 == 3 {
            HorizontalRes::R640
        } else {
            HorizontalRes::R320
        }
    } else if hr2 == 1 {
        if hr1 == 1 {
            HorizontalRes::R384
        } else {
            HorizontalRes::R368
        }
    } else {
        HorizontalRes::R320
    }
}

/// Bit `n` of `value` is set.
pub open spec fn bit(value: u32, n: u32) -> bool {
    (value >> n) & 1 != 0
}

/// The display mode set by GP1(08h); the display enable flag is kept.
pub open spec fn display_mode_spec(value: u32, disabled: bool) -> DisplayMode {
    DisplayMode {
        horizontal_res: hres_spec(((value >> 6u32) & 1) as u8, (value & 3) as u8),
        vertical_res: if bit(value, 2) { VerticalRes::R480 } else { VerticalRes::R240 },
        video_mode: if bit(value, 3) { VideoMode::PAL } else { VideoMode::NTSC },
        display_area_color_depth: if bit(value, 4) { ColorDepth::C24Bit } else { ColorDepth::C15Bit },
        interlaced: bit(value, 5),
        display_disabled: disabled,
    }
}

/// GPUSTAT after GP1(08h).
pub open spec fn display_mode_status_spec(s: GPUStatus, value: u32) -> GPUStatus {
    GPUStatus {
        horizontal_res_1: (value & 3) as u8,
        horizontal_res_2: ((value >> 6u32) & 1) as u8,
        vertical_res: bit(value, 2),
        video_mode: bit(value, 3),
        display_area_color_depth: bit(value, 4),
        vertical_interlace: bit(value, 5),
        reverse_flag: bit(value, 7),
        ..s
    }
}

/// The effect of a GP1 command word (command in the top byte); unknown
/// commands and GP1(10h) change nothing.
pub open spec fn gp1_post(old: GPU, new: GPU, value: u32) -> bool {
    let cmd = value >> 24u32;
    if cmd == 0x00 {
        reset_post(old, new)
    } else if cmd == 0x01 {
        reset_command_buffer_post(old, new)
    } else if cmd == 0x02 {
        status_post(old, new, GPUStatus { interrupt_request: false, ..old.status })
    } else if cmd == 0x03 {
        display_enable_post(old, new, value)
    } else if cmd == 0x04 {
        status_post(old, new, GPUStatus { dma_direction: (value & 3) as u8, ..old.status })
    } else if cmd == 0x05 {
        display_area_post(old, new, display_start_spec(old.display_area, value))
    } else if cmd == 0x06 {
        display_area_post(old, new, horizontal_range_spec(old.display_area, value))
    } else if cmd == 0x07 {
        display_area_post(old, new, vertical_range_spec(old.display_area, value))
    } else if cmd == 0x08 {
        display_mode_post(
            old,
            new,
            display_mode_spec(value, old.display_mode.display_disabled),
            display_mode_status_spec(old.status, value),
        )
    } else {
        new == old
    }
}

/// The state after GP1(03h): bit 0 clear enables the display, set disables it.
pub open spec fn display_enable_post(old: GPU, new: GPU, value: u32) -> bool {
    let disabled = value & 1 != 0;
    display_mode_post(
        old,
        new,
        DisplayMode { display_disabled: disabled, ..old.display_mode },
        GPUStatus { display_disabled: disabled, ..old.status },
    )
}

/// The display area after GP1(05h): X from bits 0-9, Y from bits 10-18.
pub open spec fn display_start_spec(a: DisplayArea, value: u32) -> DisplayArea {
    DisplayArea { x: (value & 0x3FF) as u16, y: ((value >> 10u32) & 0x1FF) as u16, ..a }
}

/// The display area after GP1(06h): width X2 - X1 (saturating), X1 in bits
/// 0-11 and X2 in bits 12-23.
pub open spec fn horizontal_range_spec(a: DisplayArea, value: u32) -> DisplayArea {
    DisplayArea {
        width: sat_sub_spec(((value >> 12u32) & 0xFFF) as u16, (value & 0xFFF) as u16),
        ..a
    }
}

/// The display area after GP1(07h): height Y2 - Y1 (saturating), Y1 in bits
/// 0-9 and Y2 in bits 10-19.
pub open spec fn vertical_range_spec(a: DisplayArea, value: u32) -> DisplayArea {
    DisplayArea {
        height: sat_sub_spec(((value >> 10u32) & 0x3FF) as u16, (value & 0x3FF) as u16),
        ..a
    }
}

impl GPU {
    /// Every register back to its power-on value; VRAM is kept.
    fn reset_state_preserving_vram(&mut self)
        requires
            old(self).wf(),
        ensures
            final(self).wf(),
            reset_post(*old(self), *final(self)),
    {
        self.command_fifo.clear();
        self.draw_mode = DrawMode::default();
        self.draw_area = DrawingArea::default();
        self.draw_offset = (0, 0);
        self.texture_window = TextureWindow::default();
        self.display_area = DisplayArea::default();
        self.display_mode = DisplayMode::default();
        self.status = GPUStatus::default();
        self.vram_transfer = None;
        self.rasterizer.set_clip_rect(0, 0, 1023, 511);
    }

    /// GP1(00h): reset the GPU; VRAM is not affected and the display is disabled.
    pub fn gp1_reset_gpu(&mut self)
        requires
            old(self).wf(),
        ensures
            final(self).wf(),
            reset_post(*old(self), *final(self)),
    {
        self.reset_state_preserving_vram();
        self.display_mode.display_disabled = true;
        self.status.display_disabled = true;
    }

    /// GP1(01h): clear the command FIFO and cancel any VRAM transfer.
    pub fn gp1_reset_command_buffer(&mut self)
        requires
            old(self).wf(),
        ensures
            final(self).wf(),
            reset_command_buffer_post(*old(self), *final(self)),
    {
        self.command_fifo.clear();
        self.vram_transfer = None;
    }

    /// GP1(02h): clear the GPU interrupt request.
    pub fn gp1_acknowledge_interrupt(&mut self)
        requires
            old(self).wf(),
        ensures
            final(self).wf(),
            status_post(*old(self), *final(self), GPUStatus { interrupt_request: false, ..old(self).status }),
    {
        self.status.interrupt_request = false;
    }

    /// GP1(04h): set the DMA direction from bits 0-1 (0 off, 1 FIFO,
    /// 2 CPU to GP0, 3 GPUREAD to CPU).
    pub fn gp1_dma_direction(&mut self, value: u32)
        requires
            old(self).wf(),
        ensures
            final(self).wf(),
            status_post(*old(self), *final(self), GPUStatus { dma_direction: (value & 3) as u8, ..old(self).status }),
    {
        let direction = (value & 3) as u8;
        self.status = GPUStatus { dma_direction: direction, ..self.status };
    }

    /// GP1(10h): a request for GPU information (type in bits 0-7); it
    /// changes no state.
    pub fn gp1_get_gpu_info(&mut self, value: u32)
        ensures
            *final(self) == *old(self),
    {
    }

    /// GP1(03h): bit 0 clear enables the display, set disables it.
    pub fn gp1_display_enable(&mut self, value: u32)
        requires
            old(self).wf(),
        ensures
            final(self).wf(),
            display_enable_post(*old(self), *final(self), value),
    {
        let disabled = (value & 1) != 0;
        self.display_mode = DisplayMode { display_disabled: disabled, ..self.display_mode };
        self.status = GPUStatus { display_disabled: disabled, ..self.status };
    }

    /// GP1(05h): start of the displayed area in VRAM.
    pub fn gp1_display_area_start(&mut self, value: u32)
        requires
            old(self).wf(),
        ensures
            final(self).wf(),
            display_area_post(*old(self), *final(self), display_start_spec(old(self).display_area, value)),
    {
        let x = (value & 0x3FF) as u16;
        let y = ((value >> 10u32) & 0x1FF) as u16;
        self.display_area.x = x;
        self.display_area.y = y;
    }

    /// GP1(06h): horizontal display range; the width is X2 - X1, 0 when X2 < X1.
    pub fn gp1_horizontal_display_range(&mut self, value: u32)
        requires
            old(self).wf(),
        ensures
            final(self).wf(),
            display_area_post(*old(self), *final(self), horizontal_range_spec(old(self).display_area, value)),
    {
        let x1 = (value & 0xFFF) as u16;
        let x2 = ((value >> 12u32) & 0xFFF) as u16;
        self.display_area.width = x2.saturating_sub(x1);
    }

    /// GP1(07h): vertical display range; the height is Y2 - Y1, 0 when Y2 < Y1.
    pub fn gp1_vertical_display_range(&mut self, value: u32)
        requires
            old(self).wf(),
        ensures
            final(self).wf(),
            display_area_post(*old(self), *final(self), vertical_range_spec(old(self).display_area, value)),
    {
        let y1 = (value & 0x3FF) as u16;
        let y2 = ((value >> 10u32) & 0x3FF) as u16;
        self.display_area.height = y2.saturating_sub(y1);
    }

    /// GP1(08h): display mode (resolution, video standard, colour depth,
    /// interlace, reverse flag), mirrored into GPUSTAT.
    pub fn gp1_display_mode(&mut self, value: u32)
        requires
            old(self).wf(),
        ensures
            final(self).wf(),
            display_mode_post(
                *old(self),
                *final(self),
                display_mode_spec(value, old(self).display_mode.display_disabled),
                display_mode_status_spec(old(self).status, value),
            ),
    {
        let hr1 = (value & 3) as u8;
        let hr2 = ((value >> 6u32) & 1) as u8;
        self.display_mode.horizontal_res = if hr2 == 0 {
            if hr1 == 0 {
                HorizontalRes::R256
            } else if hr1 == 1 {
                HorizontalRes::R320
            } else if hr1 == 2 {
                HorizontalRes::R512
            } else {
                HorizontalRes::R640
            }
        } else if hr1 == 1 {
            HorizontalRes::R384
        } else {
            HorizontalRes::R368
        };
        proof {
            assert(value & 3 <= 3) by (bit_vector);
            assert((value >> 6u32) & 1 <= 1) by (bit_vector);
        }
        self.status.horizontal_res_1 = hr1;
        self.status.horizontal_res_2 = hr2;
        let vres = ((value >> 2u32) & 1) != 0;
        self.display_mode.vertical_res = if vres {
            VerticalRes::R480
        } else {
            VerticalRes::R240
        };
        self.status.vertical_res = vres;
        let video_mode = ((value >> 3u32) & 1) != 0;
        self.display_mode.video_mode = if video_mode {
            VideoMode::PAL
        } else {
            VideoMode::NTSC
        };
        self.status.video_mode = video_mode;
        let color_depth = ((value >> 4u32) & 1) != 0;
        self.display_mode.display_area_color_depth = if color_depth {
            ColorDepth::C24Bit
        } else {
            ColorDepth::C15Bit
        };
        self.status.display_area_color_depth = color_depth;
        let interlaced = ((value >> 5u32) & 1) != 0;
        self.display_mode.interlaced = interlaced;
        self.status.vertical_interlace = interlaced;
        self.status.reverse_flag = ((value >> 7u32) & 1) != 0;
    }

    /// Write a GP1 (display control) command word; the command is in the top byte.
    pub fn write_gp1(&mut self, value: u32)
        requires
            old(self).wf(),
        ensures
            final(self).wf(),
            gp1_post(*old(self), *final(self), value),
    {
        let cmd = value >> 24u32;
        if cmd == 0x00 {
            self.gp1_reset_gpu();
        } else if cmd == 0x01 {
            self.gp1_reset_command_buffer();
        } else if cmd == 0x02 {
            self.gp1_acknowledge_interrupt();
        } else if cmd == 0x03 {
            self.gp1_display_enable(value);
        } else if cmd == 0x04 {
            self.gp1_dma_direction(value);
        } else if cmd == 0x05 {
            self.gp1_display_area_start(value);
        } else if cmd == 0x06 {
            self.gp1_horizontal_display_range(value);
        } else if cmd == 0x07 {
            self.gp1_vertical_display_range(value);
        } else if cmd == 0x08 {
            self.gp1_display_mode(value);
        } else if cmd == 0x10 {
            self.gp1_get_gpu_info(value);
        }
    }
}

} // verus!
