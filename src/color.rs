use vstd::prelude::*;

verus! {

/// A terminal foreground color.
#[derive(Clone, Copy, Debug, PartialEq, Eq, Structural)]
pub enum Color {
    Reset,
    Black,
    DarkGrey,
    Red,
    DarkRed,
    Green,
    DarkGreen,
    Yellow,
    DarkYellow,
    Blue,
    DarkBlue,
    Magenta,
    DarkMagenta,
    Cyan,
    DarkCyan,
    White,
    Grey,
    Rgb { r: u8, g: u8, b: u8 },
    AnsiValue(u8),
}

/// The color a frame is drawn in: none without a palette; otherwise the
/// palette entry at `index`, or white where `index` is past its end.
pub open spec fn color_at(palette: Option<Seq<Color>>, index: int) -> Option<Color> {
    match palette {
        None => None,
        Some(p) => Some(
            if 0 <= index < p.len() {
                p[index]
            } else {
                Color::White
            },
        ),
    }
}

/// The view of an optional palette.
pub open spec fn palette_view(palette: &Option<Vec<Color>>) -> Option<Seq<Color>> {
    match palette {
        None => None,
        Some(v) => Some(v@),
    }
}

/// The number of colors a palette cycles through (none when absent).
pub open spec fn palette_len(palette: Option<Seq<Color>>) -> nat {
    match palette {
        None => 0,
        Some(p) => p.len(),
    }
}

/// The next palette cursor: one step on modulo the palette's length, or
/// unchanged where there is no palette or it is empty.
pub open spec fn next_color_index(palette: Option<Seq<Color>>, index: int) -> int {
    if palette_len(palette) == 0 {
        index
    } else {
        (index + 1) % (palette_len(palette) as int)
    }
}

/// Picks the color for a frame drawn at palette cursor `index`.
pub fn pick_color(palette: &Option<Vec<Color>>, index: usize) -> (r: Option<Color>)
    ensures
        r == color_at(palette_view(palette), index as int),
{
    match palette {
        None => None,
        Some(p) => {
            if index < p.len() {
                Some(p[index])
            } else {
                Some(Color::White)
            }
        },
    }
}

/// Advances a palette cursor by one, wrapping at the palette's length.
pub fn advance_color_index(palette: &Option<Vec<Color>>, index: usize) -> (r: usize)
    ensures
        r as int == next_color_index(palette_view(palette), index as int),
{
    match palette {
        None => index,
        Some(p) => {
            if p.len() == 0 {
                index
            } else {
                ((index as u128 + 1) % (p.len() as u128)) as usize
            }
        },
    }
}

} // verus!
