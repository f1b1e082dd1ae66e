use vstd::prelude::*;

use crate::color::Color;

verus! {

/// One line to be drawn: its text, the color to draw it in (none for plain
/// output), and whether it is the widget's final frame.
pub struct Frame {
    pub text: String,
    pub color: Option<Color>,
    pub last: bool,
}

} // verus!
