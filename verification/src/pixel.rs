use vstd::prelude::*;

verus! {

/// A color with four 8-bit channels: red, green, blue, alpha.
///
/// The rasterizer backend maps each channel to a normalized value in
/// `[0, 1]` by dividing by 255, so 255 is full intensity and, for the
/// alpha channel, fully opaque.
#[derive(Clone, Copy, PartialEq, Eq, Structural, Debug)]
pub struct Pixel {
    pub r: u8,
    pub g: u8,
    pub b: u8,
    pub a: u8,
}

/// The fully opaque color with the given 8-bit red, green and blue channels.
pub open spec fn spec_rgb(r: u8, g: u8, b: u8) -> Pixel {
    Pixel { r, g, b, a: 255u8 }
}

/// Builds a fully opaque color from its three 8-bit channels.
pub fn pixel_rgb(r: u8, g: u8, b: u8) -> (p: Pixel)
    ensures
        p == spec_rgb(r, g, b),
{
    Pixel { r, g, b, a: 255 }
}

/// Builds a fully opaque color from its three 8-bit channels.
pub fn new_pixel(r: u8, g: u8, b: u8) -> (p: Pixel)
    ensures
        p == spec_rgb(r, g, b),
{
    pixel_rgb(r, g, b)
}

/// Opaque white.
pub fn white() -> (p: Pixel)
    ensures
        p == spec_rgb(255u8, 255u8, 255u8),
{
    pixel_rgb(255, 255, 255)
}

/// Opaque black.
pub fn black() -> (p: Pixel)
    ensures
        p == spec_rgb(0u8, 0u8, 0u8),
{
    pixel_rgb(0, 0, 0)
}

/// Opaque red.
pub fn red() -> (p: Pixel)
    ensures
        p == spec_rgb(255u8, 0u8, 0u8),
{
    pixel_rgb(255, 0, 0)
}

/// Opaque green.
pub fn green() -> (p: Pixel)
    ensures
        p == spec_rgb(0u8, 255u8, 0u8),
{
    pixel_rgb(0, 255, 0)
}

/// Opaque blue.
pub fn blue() -> (p: Pixel)
    ensures
        p == spec_rgb(0u8, 0u8, 255u8),
{
    pixel_rgb(0, 0, 255)
}

} // verus!
