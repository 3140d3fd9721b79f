//! Terminal cell colors and the GUI colors they are painted with.

use vstd::prelude::*;

verus! {

/// A terminal cell color: the sixteen named colors, a true color, an index
/// into the 256-color palette, or the terminal's default.
#[derive(Debug, Clone, Copy, PartialEq, Eq, Structural)]
pub enum Color {
    Reset,
    Black,
    Red,
    Green,
    Yellow,
    Blue,
    Magenta,
    Cyan,
    Gray,
    DarkGray,
    LightRed,
    LightGreen,
    LightYellow,
    LightBlue,
    LightMagenta,
    LightCyan,
    White,
    Rgb(u8, u8, u8),
    Indexed(u8),
}

/// A GUI color: red, green, blue and alpha channels.
#[derive(Debug, Clone, Copy, PartialEq, Eq, Structural)]
pub struct Rgba {
    pub r: u8,
    pub g: u8,
    pub b: u8,
    pub a: u8,
}

/// An opaque color.
pub open spec fn spec_from_rgb(r: u8, g: u8, b: u8) -> Rgba {
    Rgba { r, g, b, a: 255 }
}

pub open spec fn spec_black() -> Rgba {
    spec_from_rgb(0, 0, 0)
}

pub open spec fn spec_white() -> Rgba {
    spec_from_rgb(255, 255, 255)
}

pub open spec fn spec_gray() -> Rgba {
    spec_from_rgb(160, 160, 160)
}

pub open spec fn spec_transparent() -> Rgba {
    Rgba { r: 0, g: 0, b: 0, a: 0 }
}

/// An opaque color from its three channels.
pub fn from_rgb(r: u8, g: u8, b: u8) -> (c: Rgba)
    ensures
        c == spec_from_rgb(r, g, b),
{
    Rgba { r, g, b, a: 255 }
}

/// Opaque black.
pub fn black() -> (c: Rgba)
    ensures
        c == spec_black(),
{
    from_rgb(0, 0, 0)
}

/// Opaque white.
pub fn white() -> (c: Rgba)
    ensures
        c == spec_white(),
{
    from_rgb(255, 255, 255)
}

/// The GUI's neutral gray.
pub fn gray() -> (c: Rgba)
    ensures
        c == spec_gray(),
{
    from_rgb(160, 160, 160)
}

/// Fully transparent.
pub fn transparent() -> (c: Rgba)
    ensures
        c == spec_transparent(),
{
    Rgba { r: 0, g: 0, b: 0, a: 0 }
}

/// The xterm colors of the sixteen base palette entries; every other index
/// shows as gray.
pub open spec fn palette(i: u8) -> Rgba {
    match i {
        0u8 => spec_black(),
        1u8 => spec_from_rgb(205, 0, 0),
        2u8 => spec_from_rgb(0, 205, 0),
        3u8 => spec_from_rgb(205, 205, 0),
        4u8 => spec_from_rgb(0, 0, 238),
        5u8 => spec_from_rgb(205, 0, 205),
        6u8 => spec_from_rgb(0, 205, 205),
        7u8 => spec_from_rgb(229, 229, 229),
        8u8 => spec_from_rgb(127, 127, 127),
        9u8 => spec_from_rgb(255, 0, 0),
        10u8 => spec_from_rgb(0, 255, 0),
        11u8 => spec_from_rgb(255, 255, 0),
        12u8 => spec_from_rgb(92, 92, 255),
        13u8 => spec_from_rgb(255, 0, 255),
        14u8 => spec_from_rgb(0, 255, 255),
        15u8 => spec_white(),
        _ => spec_gray(),
    }
}

/// The palette index of a named color.
pub open spec fn named_index(c: Color) -> Option<u8> {
    match c {
        Color::Black => Some(0u8),
        Color::Red => Some(1u8),
        Color::Green => Some(2u8),
        Color::Yellow => Some(3u8),
        Color::Blue => Some(4u8),
        Color::Magenta => Some(5u8),
        Color::Cyan => Some(6u8),
        Color::Gray => Some(7u8),
        Color::DarkGray => Some(8u8),
        Color::LightRed => Some(9u8),
        Color::LightGreen => Some(10u8),
        Color::LightYellow => Some(11u8),
        Color::LightBlue => Some(12u8),
        Color::LightMagenta => Some(13u8),
        Color::LightCyan => Some(14u8),
        Color::White => Some(15u8),
        _ => None,
    }
}

/// The GUI color of a terminal color: the default is white, a named color
/// shows as its base palette entry, a true color keeps its channels.
pub open spec fn color_spec(c: Color) -> Rgba {
    match c {
        Color::Reset => spec_white(),
        Color::Rgb(r, g, b) => spec_from_rgb(r, g, b),
        Color::Indexed(i) => palette(i),
        _ => palette(named_index(c).unwrap()),
    }
}

/// Translate a terminal color into the GUI color it is painted with.
pub fn translate_color(c: Color) -> (r: Rgba)
    ensures
        r == color_spec(c),
{
    match c {
        Color::Reset => white(),
        Color::Black => black(),
        Color::Red => from_rgb(205, 0, 0),
        Color::Green => from_rgb(0, 205, 0),
        Color::Yellow => from_rgb(205, 205, 0),
        Color::Blue => from_rgb(0, 0, 238),
        Color::Magenta => from_rgb(205, 0, 205),
        Color::Cyan => from_rgb(0, 205, 205),
        Color::Gray => from_rgb(229, 229, 229),
        Color::DarkGray => from_rgb(127, 127, 127),
        Color::LightRed => from_rgb(255, 0, 0),
        Color::LightGreen => from_rgb(0, 255, 0),
        Color::LightYellow => from_rgb(255, 255, 0),
        Color::LightBlue => from_rgb(92, 92, 255),
        Color::LightMagenta => from_rgb(255, 0, 255),
        Color::LightCyan => from_rgb(0, 255, 255),
        Color::White => white(),
        Color::Rgb(r, g, b) => from_rgb(r, g, b),
        Color::Indexed(i) => {
            match i {
                0 => black(),
                1 => from_rgb(205, 0, 0),
                2 => from_rgb(0, 205, 0),
                3 => from_rgb(205, 205, 0),
                4 => from_rgb(0, 0, 238),
                5 => from_rgb(205, 0, 205),
                6 => from_rgb(0, 205, 205),
                7 => from_rgb(229, 229, 229),
                8 => from_rgb(127, 127, 127),
                9 => from_rgb(255, 0, 0),
                10 => from_rgb(0, 255, 0),
                11 => from_rgb(255, 255, 0),
                12 => from_rgb(92, 92, 255),
                13 => from_rgb(255, 0, 255),
                14 => from_rgb(0, 255, 255),
                15 => white(),
                _ => gray(),
            }
        },
    }
}

/// The fill of a cell background: nothing for the terminal's default
/// background, the translated color otherwise.
pub open spec fn background_spec(bg: Color) -> Rgba {
    match bg {
        Color::Reset => spec_transparent(),
        _ => color_spec(bg),
    }
}

/// The color a cell background is filled with.
pub fn background_color(bg: Color) -> (r: Rgba)
    ensures
        r == background_spec(bg),
{
    match bg {
        Color::Reset => transparent(),
        c => translate_color(c),
    }
}

/// Whether a run of cells with background `bg` gets its background painted:
/// only when its fill is not transparent.
pub fn paints_background(bg: Color) -> (r: bool)
    ensures
        r == (background_spec(bg) != spec_transparent()),
{
    let fill = background_color(bg);
    let none = transparent();
    !(fill == none)
}

/// Every translated color is opaque.
pub proof fn lemma_translated_colors_are_opaque(c: Color)
    ensures
        color_spec(c).a == 255,
{
}

/// A named color shows exactly as the palette entry of its index.
pub proof fn lemma_named_colors_match_palette(c: Color)
    requires
        named_index(c) is Some,
    ensures
        color_spec(c) == color_spec(Color::Indexed(named_index(c).unwrap())),
        named_index(c).unwrap() < 16,
{
}

/// A background is painted exactly when it is not the terminal's default.
pub proof fn lemma_background_painted_unless_default(bg: Color)
    ensures
        (background_spec(bg) != spec_transparent()) <==> (bg != Color::Reset),
{
}

/// The colors of the terminal's sixteen named colors, and of the same
/// entries of the palette, are the xterm ones; the default color is white.
pub proof fn lemma_base_colors()
    ensures
        color_spec(Color::Reset) == (Rgba { r: 255, g: 255, b: 255, a: 255 }),
        color_spec(Color::Black) == (Rgba { r: 0, g: 0, b: 0, a: 255 }),
        color_spec(Color::Indexed(0u8)) == (Rgba { r: 0, g: 0, b: 0, a: 255 }),
        color_spec(Color::Red) == (Rgba { r: 205, g: 0, b: 0, a: 255 }),
        color_spec(Color::Indexed(1u8)) == (Rgba { r: 205, g: 0, b: 0, a: 255 }),
        color_spec(Color::Green) == (Rgba { r: 0, g: 205, b: 0, a: 255 }),
        color_spec(Color::Indexed(2u8)) == (Rgba { r: 0, g: 205, b: 0, a: 255 }),
        color_spec(Color::Yellow) == (Rgba { r: 205, g: 205, b: 0, a: 255 }),
        color_spec(Color::Indexed(3u8)) == (Rgba { r: 205, g: 205, b: 0, a: 255 }),
        color_spec(Color::Blue) == (Rgba { r: 0, g: 0, b: 238, a: 255 }),
        color_spec(Color::Indexed(4u8)) == (Rgba { r: 0, g: 0, b: 238, a: 255 }),
        color_spec(Color::Magenta) == (Rgba { r: 205, g: 0, b: 205, a: 255 }),
        color_spec(Color::Indexed(5u8)) == (Rgba { r: 205, g: 0, b: 205, a: 255 }),
        color_spec(Color::Cyan) == (Rgba { r: 0, g: 205, b: 205, a: 255 }),
        color_spec(Color::Indexed(6u8)) == (Rgba { r: 0, g: 205, b: 205, a: 255 }),
        color_spec(Color::Gray) == (Rgba { r: 229, g: 229, b: 229, a: 255 }),
        color_spec(Color::Indexed(7u8)) == (Rgba { r: 229, g: 229, b: 229, a: 255 }),
        color_spec(Color::DarkGray) == (Rgba { r: 127, g: 127, b: 127, a: 255 }),
        color_spec(Color::Indexed(8u8)) == (Rgba { r: 127, g: 127, b: 127, a: 255 }),
        color_spec(Color::LightRed) == (Rgba { r: 255, g: 0, b: 0, a: 255 }),
        color_spec(Color::Indexed(9u8)) == (Rgba { r: 255, g: 0, b: 0, a: 255 }),
        color_spec(Color::LightGreen) == (Rgba { r: 0, g: 255, b: 0, a: 255 }),
        color_spec(Color::Indexed(10u8)) == (Rgba { r: 0, g: 255, b: 0, a: 255 }),
        color_spec(Color::LightYellow) == (Rgba { r: 255, g: 255, b: 0, a: 255 }),
        color_spec(Color::Indexed(11u8)) == (Rgba { r: 255, g: 255, b: 0, a: 255 }),
        color_spec(Color::LightBlue) == (Rgba { r: 92, g: 92, b: 255, a: 255 }),
        color_spec(Color::Indexed(12u8)) == (Rgba { r: 92, g: 92, b: 255, a: 255 }),
        color_spec(Color::LightMagenta) == (Rgba { r: 255, g: 0, b: 255, a: 255 }),
        color_spec(Color::Indexed(13u8)) == (Rgba { r: 255, g: 0, b: 255, a: 255 }),
        color_spec(Color::LightCyan) == (Rgba { r: 0, g: 255, b: 255, a: 255 }),
        color_spec(Color::Indexed(14u8)) == (Rgba { r: 0, g: 255, b: 255, a: 255 }),
        color_spec(Color::White) == (Rgba { r: 255, g: 255, b: 255, a: 255 }),
        color_spec(Color::Indexed(15u8)) == (Rgba { r: 255, g: 255, b: 255, a: 255 }),
{
}

/// A true color keeps its channels and becomes opaque; palette entries past
/// the sixteen base colors all show as gray (160, 160, 160).
pub proof fn lemma_other_colors(r: u8, g: u8, b: u8, i: u8)
    ensures
        color_spec(Color::Rgb(r, g, b)) == (Rgba { r, g, b, a: 255 }),
        i >= 16 ==> color_spec(Color::Indexed(i)) == (Rgba { r: 160, g: 160, b: 160, a: 255 }),
{
}

/// The default background is fully transparent black and is not painted;
/// every other background is filled with its translated color.
pub proof fn lemma_background_fill(bg: Color)
    ensures
        background_spec(Color::Reset) == (Rgba { r: 0, g: 0, b: 0, a: 0 }),
        bg != Color::Reset ==> background_spec(bg) == color_spec(bg),
{
}

} // verus!
