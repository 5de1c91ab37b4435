//! The glyph sets that the screens share.

use crate::ui::widgets::border::{Borders, Corners};
use vstd::prelude::*;

verus! {

/// The colours of the screens, by their numbers in the console's palette.
pub const COLOR_WHITE: u8 = 0x0F;

pub const COLOR_MAGENTA: u8 = 5;

pub const COLOR_LIGHTMAGENTA: u8 = 13;

pub const COLOR_YELLOW: u8 = 3;

pub const COLOR_LIGHTYELLOW: u8 = 11;

/// Rounded corners: `.` at the top, a backtick and an apostrophe at the
/// bottom.
pub open spec fn corners_round_spec() -> Corners {
    Corners {
        top_left: Some('.'),
        top_right: Some('.'),
        bottom_left: Some('`'),
        bottom_right: Some('\''),
    }
}

/// No corner glyphs: the corners of a frame stay blank.
pub open spec fn corners_none_spec() -> Corners {
    Corners { top_left: None, top_right: None, bottom_left: None, bottom_right: None }
}

/// The sides of a plain frame: `|` left and right, `-` above and below.
pub open spec fn borders_plain_spec() -> Borders {
    Borders { left: Some('|'), right: Some('|'), top: Some('-'), bottom: Some('-') }
}

/// The sides of the frame of a selected button: `|` left and right, `=`
/// above and below.
pub open spec fn borders_selected_spec() -> Borders {
    Borders { left: Some('|'), right: Some('|'), top: Some('='), bottom: Some('=') }
}

/// Rounded corners.
#[verifier::when_used_as_spec(corners_round_spec)]
pub fn corners_round() -> (corners: Corners)
    ensures
        corners == corners_round_spec(),
{
    Corners {
        top_left: Some('.'),
        top_right: Some('.'),
        bottom_left: Some('`'),
        bottom_right: Some('\''),
    }
}

/// No corner glyphs.
#[verifier::when_used_as_spec(corners_none_spec)]
pub fn corners_none() -> (corners: Corners)
    ensures
        corners == corners_none_spec(),
{
    Corners { top_left: None, top_right: None, bottom_left: None, bottom_right: None }
}

/// The sides of a plain frame.
#[verifier::when_used_as_spec(borders_plain_spec)]
pub fn borders_plain() -> (borders: Borders)
    ensures
        borders == borders_plain_spec(),
{
    Borders { left: Some('|'), right: Some('|'), top: Some('-'), bottom: Some('-') }
}

/// The sides of the frame of a selected button.
#[verifier::when_used_as_spec(borders_selected_spec)]
pub fn borders_selected() -> (borders: Borders)
    ensures
        borders == borders_selected_spec(),
{
    Borders { left: Some('|'), right: Some('|'), top: Some('='), bottom: Some('=') }
}

} // verus!
