//! Operating modes and pixel formats of the DMA2D graphics accelerator.

use vstd::prelude::*;

verus! {

/// The transfer modes of the DMA2D.
#[derive(Debug, Clone, Copy, PartialEq, Eq, Structural)]
pub enum Mode {
    /// Fill an area with one color.
    RegisterToMemory,
    /// Copy memory.
    MemoryToMemory,
    /// Copy memory with pixel format conversion.
    MemoryToMemoryWithPfc,
    /// Blend foreground and background into the output.
    MemoryToMemoryWithBlending,
}

impl Mode {
    /// The value of the mode field of the control register.
    pub fn bits(&self) -> (r: u8)
        ensures
            r == match *self {
                Mode::RegisterToMemory => 0b11u8,
                Mode::MemoryToMemory => 0b00u8,
                Mode::MemoryToMemoryWithPfc => 0b01u8,
                Mode::MemoryToMemoryWithBlending => 0b10u8,
            },
    {
        match *self {
            Mode::RegisterToMemory => 0b11,
            Mode::MemoryToMemory => 0b00,
            Mode::MemoryToMemoryWithPfc => 0b01,
            Mode::MemoryToMemoryWithBlending => 0b10,
        }
    }
}

/// The pixel formats (pixel format conversion codes) of the DMA2D.
#[derive(Debug, Clone, Copy, PartialEq, Eq, Structural)]
pub enum Pfc {
    /// 32-bit ARGB.
    Argb8888,
    /// 24-bit RGB.
    Rgb888,
    /// 16-bit RGB.
    Rgb565,
    /// 16-bit ARGB with one bit of alpha.
    Argb1555,
    /// 16-bit ARGB with four bits per channel.
    Argb4444,
    /// 8-bit luminance.
    L8,
    /// 4-bit alpha and 4-bit luminance.
    Al44,
    /// 8-bit alpha and 8-bit luminance.
    Al88,
    /// 4-bit luminance.
    L4,
    /// 8-bit alpha.
    A8,
    /// 4-bit alpha.
    A4,
}

impl Pfc {
    /// The value of the color mode field.
    pub fn bits(&self) -> (r: u8)
        ensures
            r == match *self {
                Pfc::Argb8888 => 0u8,
                Pfc::Rgb888 => 1u8,
                Pfc::Rgb565 => 2u8,
                Pfc::Argb1555 => 3u8,
                Pfc::Argb4444 => 4u8,
                Pfc::L8 => 5u8,
                Pfc::Al44 => 6u8,
                Pfc::Al88 => 7u8,
                Pfc::L4 => 8u8,
                Pfc::A8 => 9u8,
                Pfc::A4 => 10u8,
            },
    {
        match *self {
            Pfc::Argb8888 => 0b0000,
            Pfc::Rgb888 => 0b0001,
            Pfc::Rgb565 => 0b0010,
            Pfc::Argb1555 => 0b0011,
            Pfc::Argb4444 => 0b0100,
            Pfc::L8 => 0b0101,
            Pfc::Al44 => 0b0110,
            Pfc::Al88 => 0b0111,
            Pfc::L4 => 0b1000,
            Pfc::A8 => 0b1001,
            Pfc::A4 => 0b1010,
        }
    }
}

} // verus!
