//! Drawing on the layers of the LCD: framebuffers in the two pixel formats, layers with test
//! patterns, an audio oscilloscope and a text writer.
//!
//! The display has two layers that are blended on top of each other, and a background layer
//! with an uniform color. A framebuffer here holds the bytes of its pixels; the display
//! controller shows them once they are in the layer's memory.

pub mod color;
pub mod dma2d;
pub mod init;
pub mod stdout;

pub use self::color::Color;

use self::color::{argb8888_color, rgb_value};
use font8x8::UnicodeFonts;
use vstd::prelude::*;

verus! {

/// The height of the display in pixels.
pub const HEIGHT: usize = 272;
/// The width of the display in pixels.
pub const WIDTH: usize = 480;
/// The number of pixels of the display.
pub const PIXELS: usize = 130560;

/// The number of bytes per pixel for layer 1.
pub const LAYER_1_OCTETS_PER_PIXEL: usize = 4;
/// The length of the layer 1 buffer in bytes.
pub const LAYER_1_LENGTH: usize = 522240;
/// The number of bytes per pixel for layer 2.
pub const LAYER_2_OCTETS_PER_PIXEL: usize = 2;
/// The length of the layer 2 buffer in bytes.
pub const LAYER_2_LENGTH: usize = 261120;

/// The index of the pixel at column `x` of row `y`.
pub open spec fn pixel_index(x: int, y: int) -> int {
    y * WIDTH + x
}

/// Represents a buffer of pixels.
pub trait Framebuffer {
    /// Whether the buffer has the size of the display.
    spec fn wf(&self) -> bool;

    /// The bytes that pixel `p` (counted row by row) holds.
    spec fn pixel(&self, p: int) -> Seq<u8>;

    /// The bytes that a pixel of this format holds for a color.
    spec fn encode(color: Color) -> Seq<u8>;

    /// Set the pixel at the specified coordinates to the specified color.
    ///
    /// The coordinates address pixel `y * WIDTH + x`, which must lie on the display.
    fn set_pixel(&mut self, x: usize, y: usize, color: Color)
        requires
            old(self).wf(),
            pixel_index(x as int, y as int) < PIXELS,
        ensures
            final(self).wf(),
            final(self).pixel(pixel_index(x as int, y as int)) == Self::encode(color),
            forall|p: int|
                0 <= p < PIXELS && p != pixel_index(x as int, y as int) ==> #[trigger] final(self).pixel(p) == old(self).pixel(p),
    ;
}

/// A framebuffer in the ARGB8888 format.
///
/// It uses 8bits for alpha, red, green, and blue respectively, totaling in 32bits per pixel.
pub struct FramebufferArgb8888 {
    mem: Vec<u8>,
}

impl FramebufferArgb8888 {
    /// Creates the framebuffer on the given pixel memory of [`LAYER_1_LENGTH`] bytes.
    pub fn new(mem: Vec<u8>) -> (r: Self)
        requires
            mem@.len() == LAYER_1_LENGTH,
        ensures
            r.wf(),
            r.bytes() == mem@,
    {
        Self { mem }
    }

    /// The bytes of the pixel memory.
    pub closed spec fn bytes(&self) -> Seq<u8> {
        self.mem@
    }

    /// The pixel memory, to be copied into the layer's memory.
    pub fn as_slice(&self) -> (r: &[u8])
        ensures
            r@ == self.bytes(),
    {
        self.mem.as_slice()
    }

    /// Pixel `p` is the bytes `4 * p .. 4 * p + 4` of the pixel memory, and the
    /// framebuffer is valid when the memory has [`LAYER_1_LENGTH`] bytes.
    pub proof fn lemma_pixel_bytes(&self)
        ensures
            forall|p: int| #[trigger] self.pixel(p) == self.bytes().subrange(4 * p, 4 * p + 4),
            self.wf() <==> self.bytes().len() == LAYER_1_LENGTH,
    {
    }
}

impl Framebuffer for FramebufferArgb8888 {
    closed spec fn wf(&self) -> bool {
        self.mem@.len() == LAYER_1_LENGTH
    }

    closed spec fn pixel(&self, p: int) -> Seq<u8> {
        self.mem@.subrange(4 * p, 4 * p + 4)
    }

    open spec fn encode(color: Color) -> Seq<u8> {
        seq![color.alpha, color.red, color.green, color.blue]
    }

    fn set_pixel(&mut self, x: usize, y: usize, color: Color) {
        let pixel = y * WIDTH + x;
        let pixel_idx = pixel * LAYER_1_OCTETS_PER_PIXEL;
        let ghost before = self.mem@;
        self.mem.set(pixel_idx, color.alpha);
        self.mem.set(pixel_idx + 1, color.red);
        self.mem.set(pixel_idx + 2, color.green);
        self.mem.set(pixel_idx + 3, color.blue);
        assert(self.mem@.subrange(4 * pixel, 4 * pixel + 4) =~= Self::encode(color));
        assert forall|p: int| 0 <= p < PIXELS && p != pixel implies #[trigger] self.pixel(p)
            == before.subrange(4 * p, 4 * p + 4) by {
            assert(self.mem@.subrange(4 * p, 4 * p + 4) =~= before.subrange(4 * p, 4 * p + 4));
        }
    }
}

/// A framebuffer in the AL88 format.
///
/// There are 8bits for the alpha channel and 8 bits for specifying a color using a
/// lookup table. Thus, each pixel is represented by 16bits. The red channel of a color
/// selects the entry of the lookup table.
pub struct FramebufferAl88 {
    mem: Vec<u8>,
}

impl FramebufferAl88 {
    /// Creates the framebuffer on the given pixel memory of [`LAYER_2_LENGTH`] bytes.
    pub fn new(mem: Vec<u8>) -> (r: Self)
        requires
            mem@.len() == LAYER_2_LENGTH,
        ensures
            r.wf(),
            r.bytes() == mem@,
    {
        Self { mem }
    }

    /// The bytes of the pixel memory.
    pub closed spec fn bytes(&self) -> Seq<u8> {
        self.mem@
    }

    /// The pixel memory, to be copied into the layer's memory.
    pub fn as_slice(&self) -> (r: &[u8])
        ensures
            r@ == self.bytes(),
    {
        self.mem.as_slice()
    }

    /// Pixel `p` is the bytes `2 * p .. 2 * p + 2` of the pixel memory, and the
    /// framebuffer is valid when the memory has [`LAYER_2_LENGTH`] bytes.
    pub proof fn lemma_pixel_bytes(&self)
        ensures
            forall|p: int| #[trigger] self.pixel(p) == self.bytes().subrange(2 * p, 2 * p + 2),
            self.wf() <==> self.bytes().len() == LAYER_2_LENGTH,
    {
    }
}

impl Framebuffer for FramebufferAl88 {
    closed spec fn wf(&self) -> bool {
        self.mem@.len() == LAYER_2_LENGTH
    }

    closed spec fn pixel(&self, p: int) -> Seq<u8> {
        self.mem@.subrange(2 * p, 2 * p + 2)
    }

    open spec fn encode(color: Color) -> Seq<u8> {
        seq![color.alpha, color.red]
    }

    fn set_pixel(&mut self, x: usize, y: usize, color: Color) {
        let pixel = y * WIDTH + x;
        let pixel_idx = pixel * LAYER_2_OCTETS_PER_PIXEL;
        let ghost before = self.mem@;
        self.mem.set(pixel_idx, color.alpha);
        self.mem.set(pixel_idx + 1, color.red);
        assert(self.mem@.subrange(2 * pixel, 2 * pixel + 2) =~= Self::encode(color));
        assert forall|p: int| 0 <= p < PIXELS && p != pixel implies #[trigger] self.pixel(p)
            == before.subrange(2 * p, 2 * p + 2) by {
            assert(self.mem@.subrange(2 * p, 2 * p + 2) =~= before.subrange(2 * p, 2 * p + 2));
        }
    }
}

/// The colors of the horizontal stripes, from the top.
pub open spec fn horizontal_stripe_colors() -> Seq<u32> {
    seq![0xff_ff_ff, 0xcc_cc_cc, 0x99_99_99, 0x66_66_66, 0x33_33_33, 0x00_00_00, 0xff_00_00, 0x00_00_ff]
}

/// The colors of the vertical stripes, from the left.
pub open spec fn vertical_stripe_colors() -> Seq<u32> {
    seq![0xcc_cc_cc, 0x99_99_99, 0x66_66_66, 0x33_33_33, 0x00_00_00, 0xff_00_00, 0x00_00_ff, 0xff_ff_ff]
}

/// The opaque color of a 24-bit RGB value.
pub open spec fn rgb888_color(value: u32) -> Color {
    Color { alpha: 255, ..argb8888_color(value) }
}

/// The color of row `y` in the horizontal stripes pattern: stripes of 10 rows, cycling
/// through [`horizontal_stripe_colors`].
pub open spec fn horizontal_stripe(y: int) -> Color {
    rgb888_color(horizontal_stripe_colors()[(y / 10) % 8])
}

/// The color of column `x` in the vertical stripes pattern: stripes of 10 columns, cycling
/// through [`vertical_stripe_colors`].
pub open spec fn vertical_stripe(x: int) -> Color {
    rgb888_color(vertical_stripe_colors()[(x / 10) % 8])
}

/// The color that clears a layer: all channels zero (transparent black).
pub open spec fn cleared() -> Color {
    Color { red: 0, green: 0, blue: 0, alpha: 0 }
}

/// Represents a layer of the LCD controller.
pub struct Layer<T> {
    framebuffer: T,
}

impl<T: Framebuffer> Layer<T> {
    /// Creates a layer that draws into the given framebuffer.
    pub fn new(framebuffer: T) -> (r: Self)
        ensures
            r.fb() == framebuffer,
    {
        Layer { framebuffer }
    }

    /// The framebuffer of the layer.
    pub closed spec fn fb(&self) -> T {
        self.framebuffer
    }

    /// The framebuffer of the layer.
    pub fn framebuffer(&self) -> (r: &T)
        ensures
            *r == self.fb(),
    {
        &self.framebuffer
    }

    /// Fill the layer with horizontal stripes.
    ///
    /// Useful for testing.
    pub fn horizontal_stripes(&mut self)
        requires
            old(self).fb().wf(),
        ensures
            final(self).fb().wf(),
            forall|p: int|
                0 <= p < PIXELS ==> #[trigger] final(self).fb().pixel(p) == T::encode(
                    horizontal_stripe(p / WIDTH as int),
                ),
    {
        let colors: [u32; 8] = [
            0xff_ff_ff,
            0xcc_cc_cc,
            0x99_99_99,
            0x66_66_66,
            0x33_33_33,
            0x00_00_00,
            0xff_00_00,
            0x00_00_ff,
        ];
        assert(colors@ == horizontal_stripe_colors());
        let mut i: usize = 0;
        while i < HEIGHT
            invariant
                i <= HEIGHT,
                colors@ == horizontal_stripe_colors(),
                self.framebuffer.wf(),
                forall|p: int|
                    0 <= p < i * WIDTH ==> #[trigger] self.framebuffer.pixel(p) == T::encode(
                        horizontal_stripe(p / WIDTH as int),
                    ),
            decreases HEIGHT - i,
        {
            let mut j: usize = 0;
            while j < WIDTH
                invariant
                    i < HEIGHT,
                    j <= WIDTH,
                    colors@ == horizontal_stripe_colors(),
                    self.framebuffer.wf(),
                    forall|p: int|
                        0 <= p < i * WIDTH + j ==> #[trigger] self.framebuffer.pixel(p)
                            == T::encode(horizontal_stripe(p / WIDTH as int)),
                decreases WIDTH - j,
            {
                let value = colors[(i / 10) % 8];
                let color = Color::from_rgb888(value);
                self.framebuffer.set_pixel(j, i, color);
                assert((i * WIDTH + j) / WIDTH as int == i);
                j = j + 1;
            }
            i = i + 1;
        }
    }

    /// Fill the layer with vertical stripes.
    ///
    /// Useful for testing.
    pub fn vertical_stripes(&mut self)
        requires
            old(self).fb().wf(),
        ensures
            final(self).fb().wf(),
            forall|p: int|
                0 <= p < PIXELS ==> #[trigger] final(self).fb().pixel(p) == T::encode(
                    vertical_stripe(p % WIDTH as int),
                ),
    {
        let colors: [u32; 8] = [
            0xcc_cc_cc,
            0x99_99_99,
            0x66_66_66,
            0x33_33_33,
            0x00_00_00,
            0xff_00_00,
            0x00_00_ff,
            0xff_ff_ff,
        ];
        assert(colors@ == vertical_stripe_colors());
        let mut i: usize = 0;
        while i < HEIGHT
            invariant
                i <= HEIGHT,
                colors@ == vertical_stripe_colors(),
                self.framebuffer.wf(),
                forall|p: int|
                    0 <= p < i * WIDTH ==> #[trigger] self.framebuffer.pixel(p) == T::encode(
                        vertical_stripe(p % WIDTH as int),
                    ),
            decreases HEIGHT - i,
        {
            let mut j: usize = 0;
            while j < WIDTH
                invariant
                    i < HEIGHT,
                    j <= WIDTH,
                    colors@ == vertical_stripe_colors(),
                    self.framebuffer.wf(),
                    forall|p: int|
                        0 <= p < i * WIDTH + j ==> #[trigger] self.framebuffer.pixel(p)
                            == T::encode(vertical_stripe(p % WIDTH as int)),
                decreases WIDTH - j,
            {
                let value = colors[(j / 10) % 8];
                let color = Color::from_rgb888(value);
                self.framebuffer.set_pixel(j, i, color);
                assert((i * WIDTH + j) % WIDTH as int == j);
                j = j + 1;
            }
            i = i + 1;
        }
    }

    /// Clear all pixels.
    ///
    /// This method sets each pixel to transparent or black, depending on the framebuffer format.
    pub fn clear(&mut self)
        requires
            old(self).fb().wf(),
        ensures
            final(self).fb().wf(),
            forall|p: int| 0 <= p < PIXELS ==> #[trigger] final(self).fb().pixel(p) == T::encode(cleared()),
    {
        let mut i: usize = 0;
        while i < HEIGHT
            invariant
                i <= HEIGHT,
                self.framebuffer.wf(),
                forall|p: int|
                    0 <= p < i * WIDTH ==> #[trigger] self.framebuffer.pixel(p) == T::encode(cleared()),
            decreases HEIGHT - i,
        {
            let mut j: usize = 0;
            while j < WIDTH
                invariant
                    i < HEIGHT,
                    j <= WIDTH,
                    self.framebuffer.wf(),
                    forall|p: int|
                        0 <= p < i * WIDTH + j ==> #[trigger] self.framebuffer.pixel(p)
                            == T::encode(cleared()),
                decreases WIDTH - j,
            {
                let color = Color::from_argb8888(0);
                self.framebuffer.set_pixel(j, i, color);
                j = j + 1;
            }
            i = i + 1;
        }
    }

    /// Sets the pixel at the specified coordinates to white.
    pub fn print_point_at(&mut self, x: usize, y: usize)
        requires
            old(self).fb().wf(),
            x < WIDTH,
            y < HEIGHT,
        ensures
            final(self).fb().wf(),
            final(self).fb().pixel(pixel_index(x as int, y as int)) == T::encode(
                Color { red: 255, green: 255, blue: 255, alpha: 255 },
            ),
            forall|p: int|
                0 <= p < PIXELS && p != pixel_index(x as int, y as int) ==> #[trigger] final(self).fb().pixel(p) == old(self).fb().pixel(p),
    {
        let white = Color::from_hex(0xff_ff_ff);
        self.print_point_color_at(x, y, white);
    }

    /// Sets the pixel at the specified coordinates to the specified color.
    pub fn print_point_color_at(&mut self, x: usize, y: usize, color: Color)
        requires
            old(self).fb().wf(),
            x < WIDTH,
            y < HEIGHT,
        ensures
            final(self).fb().wf(),
            final(self).fb().pixel(pixel_index(x as int, y as int)) == T::encode(color),
            forall|p: int|
                0 <= p < PIXELS && p != pixel_index(x as int, y as int) ==> #[trigger] final(self).fb().pixel(p) == old(self).fb().pixel(p),
    {
        self.framebuffer.set_pixel(x, y, color);
    }
}


/// Allows to print audio data: draws sample levels column by column, and single pixels one
/// after the other.
pub struct AudioWriter {
    next_pixel: usize,
    next_col: usize,
    prev_value: (usize, usize),
}

/// The display row that an audio sample stands for: the 16-bit sample, shifted from signed to
/// unsigned, scaled to the height of the display.
pub open spec fn audio_level(value: u32) -> int {
    ((value + 0x8000) % 0x1_0000) / 241
}

/// Whether row `i` lies between `a` and `b` (inclusive, in either order, `from` being the
/// previous level).
pub open spec fn between_levels(i: int, from: int, to: int) -> bool {
    if to >= from {
        from <= i && i <= to
    } else {
        to <= i && i <= from
    }
}

/// The color of row `i` of an audio column for the levels `v0` (red) and `v1` (green), with
/// the previous levels `prev`: each channel is lit on the rows between the previous and the
/// new level. The green channel's range starts at the previous red level.
pub open spec fn audio_color(i: int, v0: int, v1: int, prev: (usize, usize)) -> Color {
    let red = between_levels(i, prev.0 as int, v0);
    let green = if v1 >= prev.1 {
        prev.0 <= i && i <= v1
    } else {
        v1 <= i && i <= prev.0
    };
    Color {
        red: if red { 0xff } else { 0 },
        green: if green { 0xff } else { 0 },
        blue: 0,
        alpha: if red || green { 0xff } else { 0 },
    }
}

/// The colors of an audio column: the red channel is lit exactly on the rows from the
/// previous red level to the new one, both included, whether the signal rises or falls; the
/// green channel is lit from the previous red level to the new green level (in the direction
/// in which the green signal moved); a lit channel is opaque, an unlit row transparent black.
pub proof fn lemma_audio_column_colors(i: int, v0: int, v1: int, prev: (usize, usize))
    ensures
        audio_color(i, v0, v1, prev).red == 0xff <==> ((prev.0 <= i && i <= v0) || (v0 <= i && i
            <= prev.0)),
        audio_color(i, v0, v1, prev).red == 0xff || audio_color(i, v0, v1, prev).red == 0,
        audio_color(i, v0, v1, prev).green == 0xff <==> (if v1 >= prev.1 {
            prev.0 <= i && i <= v1
        } else {
            v1 <= i && i <= prev.0
        }),
        audio_color(i, v0, v1, prev).green == 0xff || audio_color(i, v0, v1, prev).green == 0,
        audio_color(i, v0, v1, prev).blue == 0,
        audio_color(i, v0, v1, prev).alpha == if audio_color(i, v0, v1, prev).red == 0xff
            || audio_color(i, v0, v1, prev).green == 0xff {
            0xffu8
        } else {
            0u8
        },
{
}

impl AudioWriter {
    /// The pixel that [`set_next_pixel`](Self::set_next_pixel) draws next.
    pub closed spec fn spec_next_pixel(&self) -> usize {
        self.next_pixel
    }

    /// The column that [`set_next_col`](Self::set_next_col) draws next.
    pub closed spec fn spec_next_col(&self) -> usize {
        self.next_col
    }

    /// The levels of the previous column.
    pub closed spec fn spec_prev_value(&self) -> (usize, usize) {
        self.prev_value
    }

    /// The next pixel and the next column lie on the display.
    pub open spec fn wf(&self) -> bool {
        self.spec_next_pixel() < PIXELS && self.spec_next_col() < WIDTH
    }

    /// Creates a new audio writer starting at the left edge of the screen.
    pub fn new() -> (r: Self)
        ensures
            r.wf(),
            r.spec_next_pixel() == 0,
            r.spec_next_col() == 0,
            r.spec_prev_value() == (0usize, 0usize),
    {
        AudioWriter { next_pixel: 0, next_col: 0, prev_value: (0, 0) }
    }

    /// Sets the next pixel on the layer, going through the display row by row and starting
    /// over at the top.
    ///
    /// Useful for testing.
    pub fn set_next_pixel<F: Framebuffer>(&mut self, layer: &mut Layer<F>, color: Color)
        requires
            old(self).wf(),
            old(layer).fb().wf(),
        ensures
            final(self).wf(),
            final(layer).fb().wf(),
            final(layer).fb().pixel(old(self).spec_next_pixel() as int) == F::encode(color),
            forall|p: int|
                0 <= p < PIXELS && p != old(self).spec_next_pixel() ==> #[trigger] final(layer).fb().pixel(p) == old(layer).fb().pixel(p),
            final(self).spec_next_pixel() == (old(self).spec_next_pixel() + 1) % (PIXELS as int),
            final(self).spec_next_col() == old(self).spec_next_col(),
            final(self).spec_prev_value() == old(self).spec_prev_value(),
    {
        let x = self.next_pixel % WIDTH;
        let y = self.next_pixel / WIDTH;
        layer.print_point_color_at(x, y, color);
        self.next_pixel = (self.next_pixel + 1) % (HEIGHT * WIDTH);
    }

    /// Sets the next column of the screen according to the passed audio data, then moves on
    /// to the next column (starting over at the left edge).
    ///
    /// Each sample is a 16-bit value in two's complement in the low bits of its word.
    pub fn set_next_col<F: Framebuffer>(&mut self, layer: &mut Layer<F>, value0: u32, value1: u32)
        requires
            old(self).wf(),
            old(layer).fb().wf(),
            value0 + 0x8000 <= u32::MAX,
            value1 + 0x8000 <= u32::MAX,
        ensures
            final(self).wf(),
            final(layer).fb().wf(),
            forall|i: int|
                0 <= i < HEIGHT ==> #[trigger] final(layer).fb().pixel(
                    pixel_index(old(self).spec_next_col() as int, i),
                ) == F::encode(
                    audio_color(
                        i,
                        audio_level(value0),
                        audio_level(value1),
                        old(self).spec_prev_value(),
                    ),
                ),
            forall|p: int|
                0 <= p < PIXELS && p % (WIDTH as int) != old(self).spec_next_col() ==> #[trigger] final(layer).fb().pixel(p) == old(layer).fb().pixel(p),
            final(self).spec_next_col() == (old(self).spec_next_col() + 1) % (WIDTH as int),
            final(self).spec_prev_value() == (
                audio_level(value0) as usize,
                audio_level(value1) as usize,
            ),
            final(self).spec_next_pixel() == old(self).spec_next_pixel(),
    {
        let shifted0 = value0 + 0x8000;
        let truncated0 = shifted0 as u16;
        assert(truncated0 == shifted0 % 0x1_0000) by (bit_vector)
            requires
                truncated0 == shifted0 as u16,
        ;
        let level0 = (truncated0 as usize) / 241;

        let shifted1 = value1 + 0x8000;
        let truncated1 = shifted1 as u16;
        assert(truncated1 == shifted1 % 0x1_0000) by (bit_vector)
            requires
                truncated1 == shifted1 as u16,
        ;
        let level1 = (truncated1 as usize) / 241;
        assert(level0 == audio_level(value0) && level1 == audio_level(value1));

        let col = self.next_col;
        let prev = self.prev_value;
        let ghost before = layer.fb();
        let mut i: usize = 0;
        while i < HEIGHT
            invariant
                i <= HEIGHT,
                col < WIDTH,
                layer.fb().wf(),
                forall|r: int|
                    0 <= r < i ==> #[trigger] layer.fb().pixel(pixel_index(col as int, r))
                        == F::encode(audio_color(r, level0 as int, level1 as int, prev)),
                forall|p: int|
                    0 <= p < PIXELS && (p % (WIDTH as int) != col || p / (WIDTH as int) >= i)
                        ==> #[trigger] layer.fb().pixel(p) == before.pixel(p),
            decreases HEIGHT - i,
        {
            let mut color = Color::from_argb8888(0);

            if level0 >= prev.0 {
                if i >= prev.0 && i <= level0 {
                    color.red = 0xff;
                    color.alpha = 0xff;
                }
            } else if i <= prev.0 && i >= level0 {
                color.red = 0xff;
                color.alpha = 0xff;
            }

            if level1 >= prev.1 {
                if i >= prev.0 && i <= level1 {
                    color.green = 0xff;
                    color.alpha = 0xff;
                }
            } else if i <= prev.0 && i >= level1 {
                color.green = 0xff;
                color.alpha = 0xff;
            }

            layer.print_point_color_at(col, i, color);
            i = i + 1;
        }

        self.next_col = (self.next_col + 1) % WIDTH;
        self.prev_value = (level0, level1);
    }
}


/// The glyphs of the `font8x8` basic font: for a character, its 8 rows of 8 pixels (bit `b`
/// of row `r` set means the pixel in column `b` is drawn), if the font has it.
pub uninterp spec fn basic_glyph(c: char) -> Option<Seq<u8>>;

/// Looks up the glyph of a character in `font8x8::BASIC_FONTS`. The font holds the 128 ASCII
/// characters, so the lookup succeeds for them; which glyph comes back is named, not stated.
#[verifier::external_body]
fn basic_font(c: char) -> (r: Option<[u8; 8]>)
    ensures
        basic_glyph(c) == (match r {
            Some(g) => Some(g@),
            None => None::<Seq<u8>>,
        }),
        (c as u32) < 128 ==> r is Some,
{
    font8x8::BASIC_FONTS.get(c)
}

/// The color of the pixel in row `row` and column `col` of a glyph: white, opaque where the
/// glyph's bit is set and transparent elsewhere.
pub open spec fn glyph_color(glyph: Seq<u8>, row: int, col: int) -> Color {
    Color {
        red: 255,
        green: 255,
        blue: 255,
        alpha: if (glyph[row] >> (col as u8)) & 1u8 == 0 {
            0
        } else {
            255
        },
    }
}

/// Whether pixel `p` lies in the 8x8 box whose top left corner is at column `x` of row `y`.
pub open spec fn in_glyph_box(p: int, x: int, y: int) -> bool {
    x <= p % (WIDTH as int) < x + 8 && y <= p / (WIDTH as int) < y + 8
}

/// The pixels of a screen of format `T` after drawing a glyph with its top left corner at
/// column `x` of row `y`.
pub open spec fn draw_glyph<T: Framebuffer>(screen: Seq<Seq<u8>>, x: int, y: int, glyph: Seq<u8>) -> Seq<Seq<u8>> {
    Seq::new(
        screen.len(),
        |p: int|
            if in_glyph_box(p, x, y) {
                T::encode(glyph_color(glyph, p / (WIDTH as int) - y, p % (WIDTH as int) - x))
            } else {
                screen[p]
            },
    )
}

/// The pixels of a cleared screen of format `T`.
pub open spec fn cleared_screen<T: Framebuffer>() -> Seq<Seq<u8>> {
    Seq::new(PIXELS as nat, |p: int| T::encode(cleared()))
}

/// The pixels that a framebuffer shows.
pub open spec fn screen_of<T: Framebuffer>(fb: T) -> Seq<Seq<u8>> {
    Seq::new(PIXELS as nat, |p: int| fb.pixel(p))
}

/// The state of a text writer: cursor column, cursor row and the pixels of the screen.
pub type TextState = (int, int, Seq<Seq<u8>>);

/// The effect of writing one character: a newline moves the cursor to the start of the next
/// line (8 rows down), a carriage return to the start of the line; a printable character
/// wraps to the next line at the right edge, clears the screen and starts at the top left
/// when the cursor is below the bottom edge, and is drawn at the cursor, which then moves 8
/// columns to the right.
pub open spec fn write_char<T: Framebuffer>(state: TextState, c: char) -> TextState {
    let (x, y, screen) = state;
    if c == '\n' {
        (0, y + 8, screen)
    } else if c == '\r' {
        (0, y, screen)
    } else {
        let (x1, y1) = if x >= WIDTH { (0, y + 8) } else { (x, y) };
        let (x2, y2, screen2) = if y1 >= HEIGHT {
            (0, 0, cleared_screen::<T>())
        } else {
            (x1, y1, screen)
        };
        (x2 + 8, y2, draw_glyph::<T>(screen2, x2, y2, basic_glyph(c)->Some_0))
    }
}

/// The effect of writing the characters `cs` one after the other.
pub open spec fn write_chars<T: Framebuffer>(state: TextState, cs: Seq<char>) -> TextState
    decreases cs.len(),
{
    if cs.len() == 0 {
        state
    } else {
        write_char::<T>(write_chars::<T>(state, cs.drop_last()), cs.last())
    }
}

/// Writing a printable character when the cursor, after wrapping at the right edge, is at or
/// below the bottom edge first clears the screen: the character is drawn at the top left
/// corner, the cursor ends right of it on the top row, and every pixel outside the
/// character's box is transparent black, whatever the screen showed before. So the result
/// does not depend on the earlier screen at all.
pub proof fn lemma_write_below_bottom_clears<T: Framebuffer>(
    x: int,
    y: int,
    screen: Seq<Seq<u8>>,
    other_screen: Seq<Seq<u8>>,
    c: char,
)
    requires
        c != '\n',
        c != '\r',
        y >= HEIGHT || (x >= WIDTH && y + 8 >= HEIGHT),
    ensures
        write_chars::<T>((x, y, screen), seq![c]).0 == 8,
        write_chars::<T>((x, y, screen), seq![c]).1 == 0,
        write_chars::<T>((x, y, screen), seq![c]).2.len() == PIXELS,
        forall|p: int|
            0 <= p < PIXELS && !(p % (WIDTH as int) < 8 && p / (WIDTH as int) < 8) ==> #[trigger] write_chars::<T>(
                (x, y, screen),
                seq![c],
            ).2[p] == T::encode(Color { red: 0, green: 0, blue: 0, alpha: 0 }),
        write_chars::<T>((x, y, screen), seq![c]) == write_chars::<T>((x, y, other_screen), seq![c]),
{
    assert(seq![c].drop_last() =~= Seq::<char>::empty());
    assert(seq![c].last() == c);
    assert(write_chars::<T>((x, y, screen), Seq::<char>::empty()) == (x, y, screen));
    assert(write_chars::<T>((x, y, other_screen), Seq::<char>::empty()) == (x, y, other_screen));
    assert(write_chars::<T>((x, y, screen), seq![c]) == write_char::<T>((x, y, screen), c));
    assert(write_chars::<T>((x, y, other_screen), seq![c]) == write_char::<T>((x, y, other_screen), c));
}

/// Whether writing `c` in the state `state` draws inside the screen: a printable character's
/// box, at the cursor after wrapping and clearing, must fit; newlines and carriage returns
/// draw nothing.
pub open spec fn char_fits(state: TextState, c: char) -> bool {
    let (x, y, screen) = state;
    if c == '\n' || c == '\r' {
        true
    } else {
        let (x1, y1) = if x >= WIDTH { (0, y + 8) } else { (x, y) };
        let (x2, y2) = if y1 >= HEIGHT { (0, 0) } else { (x1, y1) };
        x2 + 8 <= WIDTH && y2 + 8 <= HEIGHT
    }
}

/// Whether writing the characters `cs` one after the other draws inside the screen.
pub open spec fn chars_fit<T: Framebuffer>(state: TextState, cs: Seq<char>) -> bool
    decreases cs.len(),
{
    cs.len() == 0 || (chars_fit::<T>(state, cs.drop_last()) && char_fits(
        write_chars::<T>(state, cs.drop_last()),
        cs.last(),
    ))
}

/// The characters of a prefix of a text that fits also fit.
proof fn lemma_chars_fit_prefix<T: Framebuffer>(state: TextState, cs: Seq<char>, k: int)
    requires
        chars_fit::<T>(state, cs),
        0 <= k <= cs.len(),
    ensures
        chars_fit::<T>(state, cs.subrange(0, k)),
    decreases cs.len(),
{
    if k == cs.len() {
        assert(cs.subrange(0, k) == cs);
    } else {
        lemma_chars_fit_prefix::<T>(state, cs.drop_last(), k);
        assert(cs.drop_last().subrange(0, k) == cs.subrange(0, k));
    }
}

/// Writing two texts one after the other has the same effect as writing them together.
pub proof fn lemma_write_chars_append<T: Framebuffer>(state: TextState, a: Seq<char>, b: Seq<char>)
    ensures
        write_chars::<T>(write_chars::<T>(state, a), b) == write_chars::<T>(state, a + b),
    decreases b.len(),
{
    if b.len() == 0 {
        assert(a + b =~= a);
    } else {
        lemma_write_chars_append::<T>(state, a, b.drop_last());
        assert((a + b).drop_last() =~= a + b.drop_last());
        assert((a + b).last() == b.last());
    }
}

/// Whether a character can be written: printable ASCII, newline or carriage return.
pub open spec fn writable(c: char) -> bool {
    (' ' <= c && c <= '~') || c == '\n' || c == '\r'
}

/// Allows writing text to the wrapped layer.
pub struct TextWriter<'a, T: Framebuffer> {
    layer: &'a mut Layer<T>,
    /// Column position of the cursor
    pub x_pos: usize,
    /// Row/Line position of the cursor
    pub y_pos: usize,
}

impl<'a, T: Framebuffer> TextWriter<'a, T> {
    /// The framebuffer that the writer draws on.
    pub closed spec fn fb(&self) -> T {
        self.layer.fb()
    }

    /// The cursor column.
    pub closed spec fn spec_x_pos(&self) -> usize {
        self.x_pos
    }

    /// The cursor row.
    pub closed spec fn spec_y_pos(&self) -> usize {
        self.y_pos
    }

    /// The state of the writer: cursor and screen.
    pub open spec fn state(&self) -> TextState {
        (self.spec_x_pos() as int, self.spec_y_pos() as int, screen_of(self.fb()))
    }

    /// The framebuffer is valid.
    pub open spec fn wf(&self) -> bool {
        self.fb().wf()
    }

    fn newline(&mut self)
        requires
            old(self).y_pos + 8 <= usize::MAX,
        ensures
            final(self).x_pos == 0,
            final(self).y_pos == old(self).y_pos + 8,
            final(self).fb() == old(self).fb(),
    {
        self.y_pos = self.y_pos + 8;
        self.carriage_return()
    }

    fn carriage_return(&mut self)
        ensures
            final(self).x_pos == 0,
            final(self).y_pos == old(self).y_pos,
            final(self).fb() == old(self).fb(),
    {
        self.x_pos = 0;
    }

    /// Erases all text on the screen and moves the cursor to the top left corner.
    pub fn clear(&mut self)
        requires
            old(self).fb().wf(),
        ensures
            final(self).wf(),
            final(self).state() == (0int, 0int, cleared_screen::<T>()),
    {
        self.x_pos = 0;
        self.y_pos = 0;
        self.layer.clear();
        assert(screen_of(self.fb()) =~= cleared_screen::<T>());
    }

    /// Draws the glyph at the cursor, which must leave room for it.
    fn draw(&mut self, glyph: [u8; 8])
        requires
            old(self).fb().wf(),
            old(self).x_pos + 8 <= WIDTH,
            old(self).y_pos + 8 <= HEIGHT,
        ensures
            final(self).fb().wf(),
            final(self).x_pos == old(self).x_pos,
            final(self).y_pos == old(self).y_pos,
            screen_of(final(self).fb()) == draw_glyph::<T>(
                screen_of(old(self).fb()),
                old(self).x_pos as int,
                old(self).y_pos as int,
                glyph@,
            ),
    {
        let x0 = self.x_pos;
        let y0 = self.y_pos;
        let ghost before = screen_of(self.fb());
        let mut y: usize = 0;
        while y < 8
            invariant
                y <= 8,
                x0 + 8 <= WIDTH,
                y0 + 8 <= HEIGHT,
                self.x_pos == x0,
                self.y_pos == y0,
                self.fb().wf(),
                forall|p: int|
                    0 <= p < PIXELS ==> #[trigger] self.fb().pixel(p) == if in_glyph_box(
                        p,
                        x0 as int,
                        y0 as int,
                    ) && p / (WIDTH as int) - y0 < y {
                        T::encode(
                            glyph_color(glyph@, p / (WIDTH as int) - y0, p % (WIDTH as int) - x0),
                        )
                    } else {
                        before[p]
                    },
            decreases 8 - y,
        {
            let byte = glyph[y];
            let mut x: usize = 0;
            while x < 8
                invariant
                    y < 8,
                    x <= 8,
                    x0 + 8 <= WIDTH,
                    y0 + 8 <= HEIGHT,
                    byte == glyph@[y as int],
                    self.x_pos == x0,
                    self.y_pos == y0,
                    self.fb().wf(),
                    forall|p: int|
                        0 <= p < PIXELS ==> #[trigger] self.fb().pixel(p) == if in_glyph_box(
                            p,
                            x0 as int,
                            y0 as int,
                        ) && (p / (WIDTH as int) - y0 < y || (p / (WIDTH as int) - y0 == y && p
                            % (WIDTH as int) - x0 < x)) {
                            T::encode(
                                glyph_color(
                                    glyph@,
                                    p / (WIDTH as int) - y0,
                                    p % (WIDTH as int) - x0,
                                ),
                            )
                        } else {
                            before[p]
                        },
                decreases 8 - x,
            {
                let bit = x as u8;
                let alpha: u8 = if byte & (1u8 << bit) == 0 {
                    0
                } else {
                    255
                };
                assert((byte & (1u8 << bit) == 0) == ((byte >> bit) & 1u8 == 0)) by (bit_vector)
                    requires
                        bit < 8,
                ;
                let color = Color { red: 255, green: 255, blue: 255, alpha };
                let ghost target = pixel_index((x0 + x) as int, (y0 + y) as int);
                assert(target / (WIDTH as int) == y0 + y);
                assert(target % (WIDTH as int) == x0 + x);
                self.layer.print_point_color_at(x0 + x, y0 + y, color);
                x = x + 1;
            }
            y = y + 1;
        }
        assert(screen_of(self.fb()) =~= draw_glyph::<T>(before, x0 as int, y0 as int, glyph@));
    }

    /// Writes the characters of `s` at the cursor (see [`write_char`]).
    ///
    /// The text may hold printable ASCII characters, newlines and carriage returns, and each
    /// character must be drawn inside the screen (see [`fits`](Self::fits)).
    pub fn write_str(&mut self, s: &str)
        requires
            old(self).wf(),
            forall|i: int| 0 <= i < s@.len() ==> writable(#[trigger] s@[i]),
            chars_fit::<T>(old(self).state(), s@),
            old(self).spec_y_pos() + 8 * s@.len() + 8 <= usize::MAX,
        ensures
            final(self).wf(),
            final(self).state() == write_chars::<T>(old(self).state(), s@),
    {
        let n = s.unicode_len();
        let mut i: usize = 0;
        while i < n
            invariant
                n == s@.len(),
                i <= n,
                self.wf(),
                self.state() == write_chars::<T>(old(self).state(), s@.subrange(0, i as int)),
                self.y_pos <= old(self).y_pos + 8 * i,
                forall|k: int| 0 <= k < s@.len() ==> writable(#[trigger] s@[k]),
                chars_fit::<T>(old(self).state(), s@),
                old(self).y_pos + 8 * s@.len() + 8 <= usize::MAX,
            decreases n - i,
        {
            let c = s.get_char(i);
            assert(s@.subrange(0, i + 1).drop_last() == s@.subrange(0, i as int));
            assert(s@.subrange(0, i + 1).last() == c);
            assert(writable(s@[i as int]));
            proof {
                lemma_chars_fit_prefix::<T>(old(self).state(), s@, i + 1);
            }
            if c == '\n' {
                self.newline();
            } else if c == '\r' {
                self.carriage_return();
            } else {
                if self.x_pos >= WIDTH {
                    self.newline();
                }
                if self.y_pos >= HEIGHT {
                    self.clear();
                }
                let glyph = basic_font(c).expect("character not found in basic font");
                self.draw(glyph);
                self.x_pos = self.x_pos + 8;
            }
            i = i + 1;
        }
        assert(s@.subrange(0, n as int) == s@);
    }
}

impl<'a, T: Framebuffer> TextWriter<'a, T> {
    /// Whether writing `s` at the cursor draws every character inside the screen (see
    /// [`chars_fit`]).
    pub fn fits(&self, s: &str) -> (r: bool)
        requires
            self.spec_y_pos() + 8 * s@.len() + 8 <= usize::MAX,
        ensures
            r == chars_fit::<T>(self.state(), s@),
    {
        let n = s.unicode_len();
        let mut x = self.x_pos;
        let mut y = self.y_pos;
        let mut i: usize = 0;
        while i < n
            invariant
                n == s@.len(),
                i <= n,
                self.y_pos + 8 * s@.len() + 8 <= usize::MAX,
                y <= self.y_pos + 8 * i,
                x <= WIDTH + 8 || x == self.x_pos,
                x == write_chars::<T>(self.state(), s@.subrange(0, i as int)).0,
                y == write_chars::<T>(self.state(), s@.subrange(0, i as int)).1,
                chars_fit::<T>(self.state(), s@.subrange(0, i as int)),
            decreases n - i,
        {
            let c = s.get_char(i);
            assert(s@.subrange(0, i + 1).drop_last() == s@.subrange(0, i as int));
            assert(s@.subrange(0, i + 1).last() == c);
            if c == '\n' {
                x = 0;
                y = y + 8;
            } else if c == '\r' {
                x = 0;
            } else {
                if x >= WIDTH {
                    x = 0;
                    y = y + 8;
                }
                if y >= HEIGHT {
                    x = 0;
                    y = 0;
                }
                if x + 8 > WIDTH || y + 8 > HEIGHT {
                    proof {
                        assert(!chars_fit::<T>(self.state(), s@.subrange(0, i + 1)));
                        lemma_chars_fit_prefix_contra::<T>(self.state(), s@, i + 1);
                    }
                    return false;
                }
                x = x + 8;
            }
            i = i + 1;
        }
        assert(s@.subrange(0, n as int) == s@);
        true
    }

    /// Whether `s` can be written at the cursor: it holds only printable ASCII characters,
    /// newlines and carriage returns, the cursor leaves room for its lines, and every
    /// character is drawn inside the screen.
    pub open spec fn can_write(&self, s: Seq<char>) -> bool {
        &&& forall|i: int| 0 <= i < s.len() ==> writable(#[trigger] s[i])
        &&& self.spec_y_pos() + 8 * s.len() + 8 <= usize::MAX
        &&& chars_fit::<T>(self.state(), s)
    }

    /// Writes `s` at the cursor (see [`write_str`](Self::write_str)) if it can be written, and
    /// returns whether it did; otherwise nothing changes.
    pub fn try_write_str(&mut self, s: &str) -> (r: bool)
        requires
            old(self).wf(),
        ensures
            final(self).wf(),
            r == old(self).can_write(s@),
            r ==> final(self).state() == write_chars::<T>(old(self).state(), s@),
            !r ==> *final(self) == *old(self),
    {
        if !all_writable(s) {
            return false;
        }
        let n = s.unicode_len();
        if n > (usize::MAX - 8) / 8 || self.y_pos > usize::MAX - 8 - 8 * n {
            return false;
        }
        if !self.fits(s) {
            return false;
        }
        self.write_str(s);
        true
    }
}

/// Whether every character of `s` can be written (see [`writable`]).
pub fn all_writable(s: &str) -> (r: bool)
    ensures
        r == (forall|i: int| 0 <= i < s@.len() ==> writable(#[trigger] s@[i])),
{
    let n = s.unicode_len();
    let mut i: usize = 0;
    while i < n
        invariant
            n == s@.len(),
            i <= n,
            forall|k: int| 0 <= k < i ==> writable(#[trigger] s@[k]),
        decreases n - i,
    {
        let c = s.get_char(i);
        if !((' ' <= c && c <= '~') || c == '\n' || c == '\r') {
            assert(!writable(s@[i as int]));
            return false;
        }
        i = i + 1;
    }
    true
}

/// A text whose prefix does not fit does not fit.
proof fn lemma_chars_fit_prefix_contra<T: Framebuffer>(state: TextState, cs: Seq<char>, k: int)
    requires
        0 <= k <= cs.len(),
        !chars_fit::<T>(state, cs.subrange(0, k)),
    ensures
        !chars_fit::<T>(state, cs),
{
    if chars_fit::<T>(state, cs) {
        lemma_chars_fit_prefix::<T>(state, cs, k);
    }
}

impl<T: Framebuffer> Layer<T> {
    /// Creates a text writer on this layer, with the cursor at the top left corner.
    pub fn text_writer(&mut self) -> (r: TextWriter<'_, T>)
        requires
            old(self).fb().wf(),
        ensures
            r.spec_x_pos() == 0,
            r.spec_y_pos() == 0,
            r.fb() == old(self).fb(),
            r.wf(),
    {
        TextWriter { layer: self, x_pos: 0, y_pos: 0 }
    }
}

} // verus!
