//! snui: widgets, damage tracking and input handling for a small Wayland toolkit, with the
//! pixel buffers, caches and state machines stated and proved.
use vstd::prelude::*;

pub mod cache;
pub mod controller;
pub mod cursor;
pub mod damage;
pub mod data;
pub mod demo;
pub mod font;
pub mod input;
pub mod mail;
pub mod pointer;
pub mod proxy;
pub mod scene;
pub mod seat;
pub mod snui;
pub mod widgets;

pub mod theme;
pub mod view;

verus! {

#[verifier::external_type_specification]
#[verifier::external_body]
pub struct ExColor(tiny_skia::Color);

/// The color `tiny_skia::Color::from_rgba8` builds from four 8-bit components.
pub uninterp spec fn rgba8_color(r: u8, g: u8, b: u8, a: u8) -> tiny_skia::Color;

/// Calls `tiny_skia::Color::from_rgba8`, which builds a color from four 8-bit components (each
/// divided by 255, as floats); the result is named by the components and nothing more is
/// stated of it.
#[verifier::external_body]
fn color_from_rgba8(r: u8, g: u8, b: u8, a: u8) -> (c: tiny_skia::Color)
    ensures
        c == rgba8_color(r, g, b, a),
{
    tiny_skia::Color::from_rgba8(r, g, b, a)
}

/// The components handed to `Color::from_rgba8` for a color written `0xAARRGGBB`: the
/// lowest byte goes first and the highest (alpha) last, as the pixel buffers store blue,
/// green, red, alpha.
pub fn to_color_channels(color: u32) -> (r: (u8, u8, u8, u8))
    ensures
        r == (
            (color % 0x100) as u8,
            ((color / 0x100) % 0x100) as u8,
            ((color / 0x1_0000) % 0x100) as u8,
            (color / 0x100_0000) as u8,
        ),
{
    (
        (color % 0x100) as u8,
        ((color / 0x100) % 0x100) as u8,
        ((color / 0x1_0000) % 0x100) as u8,
        (color / 0x100_0000) as u8,
    )
}

/// The color `0xAARRGGBB` as tiny-skia builds it from the channels of `to_color_channels`.
pub fn to_color(color: u32) -> (c: tiny_skia::Color)
    ensures
        c == rgba8_color(
            (color % 0x100) as u8,
            ((color / 0x100) % 0x100) as u8,
            ((color / 0x1_0000) % 0x100) as u8,
            (color / 0x100_0000) as u8,
        ),
{
    let (r, g, b, a) = to_color_channels(color);
    color_from_rgba8(r, g, b, a)
}

} // verus!
