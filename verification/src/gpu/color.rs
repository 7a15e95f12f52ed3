//! Colours and pixels: four channels of eight bits.
use vstd::prelude::*;
use vstd::std_specs::convert::FromSpecImpl;

verus! {

/// A colour: red, green, blue and opacity.
#[derive(Debug, Clone, Copy)]
pub struct Color {
    pub r: u8,
    pub g: u8,
    pub b: u8,
    pub a: u8,
}

impl Color {
    /// The colour that a packed number stands for: red in the lowest eight
    /// bits, then green, blue and opacity.
    pub open spec fn unpack(color: i64) -> Color {
        Color {
            r: (color & 0xff) as u8,
            g: ((color >> 8) & 0xff) as u8,
            b: ((color >> 16) & 0xff) as u8,
            a: ((color >> 24) & 0xff) as u8,
        }
    }

    /// An opaque colour.
    pub fn new_rgb(r: u8, g: u8, b: u8) -> (color: Self)
        ensures
            color == (Color { r, g, b, a: 255 }),
    {
        Self { r, g, b, a: 255 }
    }

    pub fn new_rgba(r: u8, g: u8, b: u8, a: u8) -> (color: Self)
        ensures
            color == (Color { r, g, b, a }),
    {
        Self { r, g, b, a }
    }

    pub fn red() -> (color: Self)
        ensures
            color == (Color { r: 255, g: 0, b: 0, a: 255 }),
    {
        Self::new_rgb(255, 0, 0)
    }

    pub fn green() -> (color: Self)
        ensures
            color == (Color { r: 0, g: 255, b: 0, a: 255 }),
    {
        Self::new_rgb(0, 255, 0)
    }

    pub fn blue() -> (color: Self)
        ensures
            color == (Color { r: 0, g: 0, b: 255, a: 255 }),
    {
        Self::new_rgb(0, 0, 255)
    }

    pub fn white() -> (color: Self)
        ensures
            color == (Color { r: 255, g: 255, b: 255, a: 255 }),
    {
        Self::new_rgb(255, 255, 255)
    }

    pub fn black() -> (color: Self)
        ensures
            color == (Color { r: 0, g: 0, b: 0, a: 255 }),
    {
        Self::new_rgb(0, 0, 0)
    }
}

impl From<i64> for Color {
    fn from(color: i64) -> (unpacked: Self) {
        assert(color & 0xff < 256 && (color >> 8) & 0xff < 256 && (color >> 16) & 0xff < 256 && (
        color >> 24) & 0xff < 256 && color & 0xff >= 0 && (color >> 8) & 0xff >= 0 && (color
            >> 16) & 0xff >= 0 && (color >> 24) & 0xff >= 0) by (bit_vector);
        Color::new_rgba(
            (color & 0xff) as u8,
            ((color >> 8) & 0xff) as u8,
            ((color >> 16) & 0xff) as u8,
            ((color >> 24) & 0xff) as u8,
        )
    }
}

impl FromSpecImpl<i64> for Color {
    open spec fn obeys_from_spec() -> bool {
        true
    }

    open spec fn from_spec(color: i64) -> Self {
        Color::unpack(color)
    }
}

/// A pixel: red, green, blue and opacity.
#[derive(Debug, Clone, Copy)]
pub struct Pixel {
    pub r: u8,
    pub g: u8,
    pub b: u8,
    pub a: u8,
}

impl Pixel {
    /// An opaque pixel.
    pub fn new_rgb(r: u8, g: u8, b: u8) -> (pixel: Self)
        ensures
            pixel == (Pixel { r, g, b, a: 255 }),
    {
        Self { r, g, b, a: 255 }
    }

    pub fn new_rgba(r: u8, g: u8, b: u8, a: u8) -> (pixel: Self)
        ensures
            pixel == (Pixel { r, g, b, a }),
    {
        Self { r, g, b, a }
    }
}

} // verus!
