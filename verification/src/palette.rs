//! The colours and stroke widths that a toolbar offers.

use vstd::prelude::*;
use crate::color::Color;

verus! {

/// The stroke widths on offer, in sub-units: one, two, three, five and eight
/// units.
pub open spec fn spec_stroke_widths() -> Seq<i32> {
    seq![1000, 2000, 3000, 5000, 8000]
}

/// The colours on offer: red, yellow, green, cyan, blue, magenta, pink and
/// black.
pub open spec fn spec_colors() -> Seq<Color> {
    seq![
        Color::spec_from_rgb(255, 0, 0),
        Color::spec_from_rgb(255, 255, 0),
        Color::spec_from_rgb(0, 255, 0),
        Color::spec_from_rgb(0, 255, 255),
        Color::spec_from_rgb(0, 0, 255),
        Color::spec_from_rgb(255, 0, 255),
        Color::spec_from_rgb(255, 192, 203),
        Color::spec_from_rgb(0, 0, 0),
    ]
}

/// The stroke widths on offer.
pub fn stroke_widths() -> (widths: [i32; 5])
    ensures
        widths@ == spec_stroke_widths(),
{
    let widths: [i32; 5] = [1000, 2000, 3000, 5000, 8000];
    widths
}

/// The colours on offer.
pub fn colors() -> (palette: [Color; 8])
    ensures
        palette@ == spec_colors(),
{
    let palette: [Color; 8] = [
        Color::from_rgb(255, 0, 0),
        Color::from_rgb(255, 255, 0),
        Color::from_rgb(0, 255, 0),
        Color::from_rgb(0, 255, 255),
        Color::from_rgb(0, 0, 255),
        Color::from_rgb(255, 0, 255),
        Color::from_rgb(255, 192, 203),
        Color::from_rgb(0, 0, 0),
    ];
    palette
}

} // verus!
