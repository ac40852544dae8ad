//! Colors with alpha, red, green and blue channels, and their packed encodings.

use vstd::prelude::*;

verus! {

/// Represents a color with alpha, red, green, and blue channels.
#[derive(Debug, Clone, Copy, PartialEq, Eq, Structural)]
pub struct Color {
    /// The red channel.
    pub red: u8,
    /// The green channel.
    pub green: u8,
    /// The blue channel.
    pub blue: u8,
    /// The alpha channel (0 is transparent, 255 is opaque).
    pub alpha: u8,
}

/// The 24-bit RGB value of the channels `red`, `green` and `blue`.
pub open spec fn rgb_value(red: u8, green: u8, blue: u8) -> int {
    red * 0x1_0000 + green * 0x100 + blue
}

/// The color that a 32-bit ARGB value describes.
pub open spec fn argb8888_color(color: u32) -> Color {
    Color {
        alpha: (color / 0x100_0000) as u8,
        red: ((color / 0x1_0000) % 0x100) as u8,
        green: ((color / 0x100) % 0x100) as u8,
        blue: (color % 0x100) as u8,
    }
}

/// The 16-bit ARGB1555 value of a color: the top bit of alpha and the top five bits of each
/// color channel.
pub open spec fn argb1555_value(c: Color) -> int {
    (c.alpha / 0x80) * 0x8000 + (c.red / 8) * 0x400 + (c.green / 8) * 0x20 + c.blue / 8
}

/// The color that an ARGB1555 value describes: each field is placed in the top bits of its
/// channel.
pub open spec fn argb1555_color(color: u16) -> Color {
    Color {
        alpha: ((color / 0x8000) * 0x80) as u8,
        red: (((color / 0x400) % 0x20) * 8) as u8,
        green: (((color / 0x20) % 0x20) * 8) as u8,
        blue: ((color % 0x20) * 8) as u8,
    }
}

/// What of a color survives the ARGB1555 encoding: the top bit of alpha and the top five
/// bits of each color channel.
pub open spec fn argb1555_truncated(c: Color) -> Color {
    Color {
        alpha: ((c.alpha / 0x80) * 0x80) as u8,
        red: ((c.red / 8) * 8) as u8,
        green: ((c.green / 8) * 8) as u8,
        blue: ((c.blue / 8) * 8) as u8,
    }
}

impl Color {
    /// Creates a color from the passed RGB values. The alpha channel is set to 255 (opaque).
    pub fn rgb(red: u8, green: u8, blue: u8) -> (c: Color)
        ensures
            c == (Color { red, green, blue, alpha: 255 }),
    {
        Self::rgba(red, green, blue, 255)
    }

    /// Converts the color to RGB. The alpha channel is ignored.
    pub fn to_rgb(&self) -> (r: u32)
        ensures
            r == rgb_value(self.red, self.green, self.blue),
    {
        let red = self.red as u32;
        let green = self.green as u32;
        let blue = self.blue as u32;
        let r = (red << 16) | (green << 8) | blue;
        assert(r == red * 0x1_0000 + green * 0x100 + blue) by (bit_vector)
            requires
                r == (red << 16) | (green << 8) | blue,
                red < 0x100,
                green < 0x100,
                blue < 0x100,
        ;
        r
    }

    /// Creates a color from the passed values.
    pub fn rgba(red: u8, green: u8, blue: u8, alpha: u8) -> (c: Color)
        ensures
            c == (Color { red, green, blue, alpha }),
    {
        Color { red: red, green: green, blue: blue, alpha: alpha }
    }

    /// Creates a color from the passed hex RGB value. The alpha channel is set to 255 (opaque).
    ///
    /// The value must fit into 24 bits.
    pub fn from_hex(color: u32) -> (c: Color)
        requires
            color < 0x100_0000,
        ensures
            c == (Color { alpha: 255, ..argb8888_color(color) }),
            rgb_value(c.red, c.green, c.blue) == color,
    {
        let red = (color >> 16) as u8;
        let green = (color >> 8) as u8;
        let blue = color as u8;
        proof {
            lemma_unpack_u32(color);
        }
        Color { red: red, green: green, blue: blue, alpha: 255 }
    }

    /// Converts the color to RGB. The alpha channel is ignored.
    pub fn to_rgb888(&self) -> (r: u32)
        ensures
            r == rgb_value(self.red, self.green, self.blue),
    {
        self.to_rgb()
    }

    /// Creates a color from the passed RGB value. The alpha channel is set to 255 (opaque).
    pub fn from_rgb888(color: u32) -> (c: Color)
        requires
            color < 0x100_0000,
        ensures
            c == (Color { alpha: 255, ..argb8888_color(color) }),
            rgb_value(c.red, c.green, c.blue) == color,
    {
        Color::from_hex(color)
    }

    /// Converts the color to ARGB.
    pub fn to_argb8888(&self) -> (r: u32)
        ensures
            r == self.alpha * 0x100_0000 + rgb_value(self.red, self.green, self.blue),
    {
        let alpha = self.alpha as u32;
        let rgb = self.to_rgb888();
        let r = (alpha << 24) | rgb;
        assert(r == alpha * 0x100_0000 + rgb) by (bit_vector)
            requires
                r == (alpha << 24) | rgb,
                alpha < 0x100,
                rgb < 0x100_0000,
        ;
        r
    }

    /// Creates a color from the passed ARGB value.
    pub fn from_argb8888(color: u32) -> (c: Color)
        ensures
            c == argb8888_color(color),
    {
        proof {
            lemma_unpack_u32(color);
        }
        Color {
            red: (color >> 16) as u8,
            green: (color >> 8) as u8,
            blue: color as u8,
            alpha: (color >> 24) as u8,
        }
    }

    /// Converts the color to ARGB1555.
    pub fn to_argb1555(&self) -> (r: u16)
        ensures
            r == argb1555_value(*self),
    {
        let a = self.alpha as u16;
        let red = self.red as u16;
        let g = self.green as u16;
        let b = self.blue as u16;
        let r = (a & 0x80) << 8 | (red & 0xf8) << 7 | (g & 0xf8) << 2 | (b & 0xf8) >> 3;
        assert(r == (a / 0x80) * 0x8000 + (red / 8) * 0x400 + (g / 8) * 0x20 + b / 8)
            by (bit_vector)
            requires
                r == (a & 0x80) << 8 | (red & 0xf8) << 7 | (g & 0xf8) << 2 | (b & 0xf8) >> 3,
                a < 0x100,
                red < 0x100,
                g < 0x100,
                b < 0x100,
        ;
        r
    }

    /// Creates a color from the passed ARGB1555 value.
    pub fn from_argb1555(color: u16) -> (c: Color)
        ensures
            c == argb1555_color(color),
    {
        let alpha = ((color >> 8) & 0x80) as u8;
        let red = ((color >> 7) & 0xf8) as u8;
        let green = ((color >> 2) & 0xf8) as u8;
        let blue = ((color << 3) & 0xf8) as u8;
        assert({
            &&& ((color >> 8) & 0x80) == (color / 0x8000) * 0x80
            &&& ((color >> 7) & 0xf8) == ((color / 0x400) % 0x20) * 8
            &&& ((color >> 2) & 0xf8) == ((color / 0x20) % 0x20) * 8
            &&& ((color << 3) & 0xf8) == (color % 0x20) * 8
        }) by (bit_vector);
        Color { alpha: alpha, red: red, green: green, blue: blue }
    }
}

/// The byte fields of a 32-bit value, in the forms the shifts produce them.
proof fn lemma_unpack_u32(color: u32)
    ensures
        (color >> 24) as u8 == color / 0x100_0000,
        (color >> 16) as u8 == (color / 0x1_0000) % 0x100,
        (color >> 8) as u8 == (color / 0x100) % 0x100,
        color as u8 == color % 0x100,
        color < 0x100_0000 ==> (color >> 16) as u8 == color / 0x1_0000,
        color < 0x100_0000 ==> color / 0x100_0000 == 0,
{
    assert({
        &&& (color >> 24) as u8 == color / 0x100_0000
        &&& (color >> 16) as u8 == (color / 0x1_0000) % 0x100
        &&& (color >> 8) as u8 == (color / 0x100) % 0x100
        &&& color as u8 == color % 0x100
        &&& color < 0x100_0000 ==> (color >> 16) as u8 == color / 0x1_0000
    }) by (bit_vector);
}

/// Converting a color to ARGB and back gives the color back.
pub proof fn lemma_argb8888_round_trip(c: Color)
    ensures
        argb8888_color((c.alpha * 0x100_0000 + rgb_value(c.red, c.green, c.blue)) as u32) == c,
{
    let a = c.alpha as u32;
    let r = c.red as u32;
    let g = c.green as u32;
    let b = c.blue as u32;
    assert({
        let v = (a * 0x100_0000 + r * 0x1_0000 + g * 0x100 + b) as u32;
        &&& v / 0x100_0000 == a
        &&& (v / 0x1_0000) % 0x100 == r
        &&& (v / 0x100) % 0x100 == g
        &&& v % 0x100 == b
    }) by (bit_vector)
        requires
            a < 0x100,
            r < 0x100,
            g < 0x100,
            b < 0x100,
    ;
}

/// Reading a 32-bit ARGB value as a color and converting it back gives the value back.
pub proof fn lemma_argb8888_value_round_trip(color: u32)
    ensures
        ({
            let c = argb8888_color(color);
            c.alpha * 0x100_0000 + rgb_value(c.red, c.green, c.blue) == color
        }),
{
    assert((color / 0x100_0000) * 0x100_0000 + ((color / 0x1_0000) % 0x100) * 0x1_0000 + ((
    color / 0x100) % 0x100) * 0x100 + color % 0x100 == color) by (bit_vector);
}

/// Reading an ARGB1555 value as a color and converting it back gives the value back.
pub proof fn lemma_argb1555_value_round_trip(color: u16)
    ensures
        argb1555_value(argb1555_color(color)) == color,
{
    assert((((color / 0x8000) * 0x80) / 0x80) * 0x8000 + ((((color / 0x400) % 0x20) * 8) / 8)
        * 0x400 + ((((color / 0x20) % 0x20) * 8) / 8) * 0x20 + ((color % 0x20) * 8) / 8 == color)
        by (bit_vector);
}

/// Converting a color to ARGB1555 and back keeps exactly the top bit of alpha and the top
/// five bits of each color channel.
pub proof fn lemma_argb1555_round_trip(c: Color)
    ensures
        argb1555_color(argb1555_value(c) as u16) == argb1555_truncated(c),
{
    let a = c.alpha as u16;
    let r = c.red as u16;
    let g = c.green as u16;
    let b = c.blue as u16;
    assert({
        let v = ((a / 0x80) * 0x8000 + (r / 8) * 0x400 + (g / 8) * 0x20 + b / 8) as u16;
        &&& (v / 0x8000) * 0x80 == (a / 0x80) * 0x80
        &&& ((v / 0x400) % 0x20) * 8 == (r / 8) * 8
        &&& ((v / 0x20) % 0x20) * 8 == (g / 8) * 8
        &&& (v % 0x20) * 8 == (b / 8) * 8
    }) by (bit_vector)
        requires
            a < 0x100,
            r < 0x100,
            g < 0x100,
            b < 0x100,
    ;
}

/// The RGB value of a color read from a 24-bit hex value is that value.
pub proof fn lemma_rgb888_value_round_trip(color: u32)
    requires
        color < 0x100_0000,
    ensures
        ({
            let c = argb8888_color(color);
            rgb_value(c.red, c.green, c.blue) == color
        }),
{
    lemma_argb8888_value_round_trip(color);
    assert(color / 0x100_0000 == 0) by (bit_vector)
        requires
            color < 0x100_0000,
    ;
}

} // verus!
