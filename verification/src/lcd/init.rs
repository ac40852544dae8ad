//! The timing of the display that the LCD controller (LTDC) is set up with, and the window
//! and frame buffer geometry of its layers.

use super::{HEIGHT, LAYER_1_OCTETS_PER_PIXEL, LAYER_2_OCTETS_PER_PIXEL, WIDTH};
use vstd::prelude::*;

verus! {

/// The horizontal synchronization width, in pixel clocks.
pub const HSYNC_WIDTH: u16 = 41;
/// The horizontal back porch, in pixel clocks.
pub const HORIZONTAL_BACK_PORCH: u16 = 13;
/// The horizontal front porch, in pixel clocks.
pub const HORIZONTAL_FRONT_PORCH: u16 = 32;
/// The vertical synchronization height, in lines.
pub const VSYNC_HEIGHT: u16 = 10;
/// The vertical back porch, in lines.
pub const VERTICAL_BACK_PORCH: u16 = 2;
/// The vertical front porch, in lines.
pub const VERTICAL_FRONT_PORCH: u16 = 2;

/// The values that the LCD controller's timing registers get (each register field holds the
/// value minus one, as the reference manual defines), and the window of the layers.
#[derive(Debug, Clone, Copy, PartialEq, Eq, Structural)]
pub struct Timing {
    /// Synchronization size: HSW (horizontal sync width - 1).
    pub hsw: u16,
    /// Synchronization size: VSH (vertical sync height - 1).
    pub vsh: u16,
    /// Accumulated horizontal back porch: sync width + back porch - 1.
    pub ahbp: u16,
    /// Accumulated vertical back porch: sync height + back porch - 1.
    pub avbp: u16,
    /// Accumulated active width: sync width + back porch + width - 1.
    pub aaw: u16,
    /// Accumulated active height: sync height + back porch + height - 1.
    pub aah: u16,
    /// Total width: sync width + back porch + width + front porch - 1.
    pub total_width: u16,
    /// Total height: sync height + back porch + height + front porch - 1.
    pub total_height: u16,
    /// The first column of the layer window.
    pub window_h_start: u16,
    /// The last column of the layer window.
    pub window_h_stop: u16,
    /// The first line of the layer window.
    pub window_v_start: u16,
    /// The last line of the layer window.
    pub window_v_stop: u16,
}

/// Computes the timing register values of the display.
pub fn timing() -> (r: Timing)
    ensures
        r.hsw == HSYNC_WIDTH - 1,
        r.vsh == VSYNC_HEIGHT - 1,
        r.ahbp == HSYNC_WIDTH + HORIZONTAL_BACK_PORCH - 1,
        r.avbp == VSYNC_HEIGHT + VERTICAL_BACK_PORCH - 1,
        r.aaw == WIDTH + HSYNC_WIDTH + HORIZONTAL_BACK_PORCH - 1,
        r.aah == HEIGHT + VSYNC_HEIGHT + VERTICAL_BACK_PORCH - 1,
        r.total_width == WIDTH + HSYNC_WIDTH + HORIZONTAL_BACK_PORCH + HORIZONTAL_FRONT_PORCH - 1,
        r.total_height == HEIGHT + VSYNC_HEIGHT + VERTICAL_BACK_PORCH + VERTICAL_FRONT_PORCH - 1,
        r.window_h_start == HSYNC_WIDTH + HORIZONTAL_BACK_PORCH,
        r.window_h_stop == WIDTH + HSYNC_WIDTH + HORIZONTAL_BACK_PORCH - 1,
        r.window_v_start == VSYNC_HEIGHT + VERTICAL_BACK_PORCH,
        r.window_v_stop == HEIGHT + VSYNC_HEIGHT + VERTICAL_BACK_PORCH - 1,
        // the layer window is the active area: WIDTH columns and HEIGHT lines after the
        // accumulated back porch
        r.window_h_stop - r.window_h_start + 1 == WIDTH,
        r.window_v_stop - r.window_v_start + 1 == HEIGHT,
        r.window_h_start == r.ahbp + 1 && r.window_h_stop == r.aaw,
        r.window_v_start == r.avbp + 1 && r.window_v_stop == r.aah,
{
    let width = WIDTH as u16;
    let height = HEIGHT as u16;
    Timing {
        hsw: HSYNC_WIDTH - 1,
        vsh: VSYNC_HEIGHT - 1,
        ahbp: HSYNC_WIDTH + HORIZONTAL_BACK_PORCH - 1,
        avbp: VSYNC_HEIGHT + VERTICAL_BACK_PORCH - 1,
        aaw: width + HSYNC_WIDTH + HORIZONTAL_BACK_PORCH - 1,
        aah: height + VSYNC_HEIGHT + VERTICAL_BACK_PORCH - 1,
        total_width: width + HSYNC_WIDTH + HORIZONTAL_BACK_PORCH + HORIZONTAL_FRONT_PORCH - 1,
        total_height: height + VSYNC_HEIGHT + VERTICAL_BACK_PORCH + VERTICAL_FRONT_PORCH - 1,
        window_h_start: HSYNC_WIDTH + HORIZONTAL_BACK_PORCH,
        window_h_stop: width + HSYNC_WIDTH + HORIZONTAL_BACK_PORCH - 1,
        window_v_start: VSYNC_HEIGHT + VERTICAL_BACK_PORCH,
        window_v_stop: height + VSYNC_HEIGHT + VERTICAL_BACK_PORCH - 1,
    }
}

/// The pitch (bytes from the start of one line to the next) and the line length register
/// value (the bytes of a line plus 3) of a layer frame buffer with `octets_per_pixel` bytes
/// per pixel, and its number of lines.
pub fn frame_buffer_geometry(octets_per_pixel: u16) -> (r: (u16, u16, u16))
    requires
        octets_per_pixel == LAYER_1_OCTETS_PER_PIXEL || octets_per_pixel == LAYER_2_OCTETS_PER_PIXEL,
    ensures
        r.0 == WIDTH * octets_per_pixel,
        r.1 == WIDTH * octets_per_pixel + 3,
        r.2 == HEIGHT,
{
    let width = WIDTH as u16;
    (width * octets_per_pixel, width * octets_per_pixel + 3, HEIGHT as u16)
}

} // verus!
