//! The animations that open and close the program, as lists of frames.

use crate::ui::rendering::{IntoWidget, Widget};
use crate::ui::shape::is_image;
use crate::ui::tree::AnyWidget;
use crate::ui::widgets::image::image;
use vstd::prelude::*;

verus! {

/// The pictures that the animations show.
#[derive(Clone, Copy, Debug, PartialEq, Eq, Structural)]
pub enum Picture {
    Mew,
    MewFlash,
    MewFlashSparkle,
    MewFlashFull,
    Pikachu,
    PikachuSpark,
}

/// One frame of an animation: a picture, shown for a number of
/// milliseconds, in a colour of its own where it has one.
#[derive(Clone, Copy, Debug, PartialEq, Eq, Structural)]
pub struct Frame {
    pub duration: u32,
    pub picture: Picture,
    pub color: Option<u8>,
}

/// The milliseconds for which the first picture stands before an animation
/// begins.
pub const LEAD_IN: u32 = 650;

/// The frames that are shown in a second while progress is animated.
pub const FPS: u32 = 60;

/// The parts in which progress is counted: progress `p` is the share
/// `p / PARTS`.
pub const PARTS: u32 = 1_000_000;

/// The cube of `n`.
pub open spec fn cube(n: int) -> int {
    n * n * n
}

/// The progress at frame `frame` of `total` on the way from `from` to `to`
/// along a cubic ease-out curve: the share `1 - (1 - frame / total)^3` of
/// the way, rounded towards `from`.
pub open spec fn eased(from: u32, to: u32, frame: int, total: int) -> int {
    let done = cube(total) - cube(total - frame);
    if from <= to {
        from + ((to - from) * done) / cube(total)
    } else {
        from - ((from - to) * done) / cube(total)
    }
}

/// The number of frames of an animation of `duration_ms` milliseconds.
pub open spec fn frames_in(duration_ms: u32) -> int {
    duration_ms as int / (1000int / FPS as int)
}

/// A share of a way is within the way.
proof fn lemma_share_within(way: int, done: int, whole: int)
    requires
        0 <= way,
        0 <= done <= whole,
        0 < whole,
    ensures
        0 <= (way * done) / whole <= way,
        0 <= way * done,
{
    assert(0 <= way * done <= way * whole) by (nonlinear_arith)
        requires
            0 <= way,
            0 <= done <= whole,
    ;
    assert((way * done) / whole <= way) by (nonlinear_arith)
        requires
            0 <= way * done <= way * whole,
            0 < whole,
    ;
    assert(0 <= (way * done) / whole) by (nonlinear_arith)
        requires
            0 <= way * done,
            0 < whole,
    ;
}

/// The cube of a number within 28 bits is within 84 bits, and cubes grow
/// with their numbers.
proof fn lemma_cube_bounds(n: int, m: int)
    requires
        0 <= n <= m < 0x1000_0000,
    ensures
        0 <= cube(n) <= cube(m) < 0x1_0000_0000_0000_0000_0000_0000,
        n > 0 ==> cube(n) > 0,
{
    assert(0 <= n * n <= m * m && m * m < 0x1000_0000 * 0x1000_0000) by (nonlinear_arith)
        requires
            0 <= n <= m < 0x1000_0000,
    ;
    assert(0 <= (n * n) * n <= (m * m) * m && (m * m) * m < (0x1000_0000 * 0x1000_0000)
        * 0x1000_0000) by (nonlinear_arith)
        requires
            0 <= n <= m < 0x1000_0000,
            0 <= n * n <= m * m,
            m * m < 0x1000_0000 * 0x1000_0000,
    ;
    if n > 0 {
        assert((n * n) * n > 0) by (nonlinear_arith)
            requires
                n > 0,
        ;
    }
}

/// Returns the progress at frame `frame` of `total` on the way from `from`
/// to `to`.
pub fn progress_at(from: u32, to: u32, frame: u32, total: u32) -> (progress: u32)
    requires
        frame <= total,
        0 < total < 0x1000_0000,
    ensures
        progress == eased(from, to, frame as int, total as int),
        from <= to ==> from <= progress <= to,
        to <= from ==> to <= progress <= from,
{
    let whole: u128 = cube_of(total);
    let left: u128 = cube_of(total - frame);
    proof {
        lemma_cube_bounds((total - frame) as int, total as int);
        lemma_cube_bounds(total as int, total as int);
    }
    let done: u128 = whole - left;
    let way: u128 = if from <= to {
        (to - from) as u128
    } else {
        (from - to) as u128
    };
    proof {
        lemma_share_within(way as int, done as int, whole as int);
        assert(way * done <= 0xffff_ffff * 0x1_0000_0000_0000_0000_0000_0000)
            by (nonlinear_arith)
            requires
                0 <= way <= 0xffff_ffff,
                0 <= done <= 0x1_0000_0000_0000_0000_0000_0000,
        ;
    }
    let share: u128 = (way * done) / whole;
    if from <= to {
        from + share as u32
    } else {
        from - share as u32
    }
}

/// Returns the cube of `n`.
fn cube_of(n: u32) -> (c: u128)
    requires
        n < 0x1000_0000,
    ensures
        c == cube(n as int),
{
    proof {
        lemma_cube_bounds(n as int, n as int);
        assert(0 <= n * n < 0x1000_0000 * 0x1000_0000) by (nonlinear_arith)
            requires
                0 <= n < 0x1000_0000,
        ;
    }
    let square: u128 = (n as u128) * (n as u128);
    square * (n as u128)
}

/// Returns the progress to show in each frame of an animation from `from`
/// to `to` over `duration_ms` milliseconds: one value for each frame along
/// the curve, and `to` itself at the end.
pub fn progress_steps(from: u32, to: u32, duration_ms: u32) -> (steps: Vec<u32>)
    ensures
        steps@.len() == frames_in(duration_ms) + 1,
        forall|k: int|
            0 <= k < frames_in(duration_ms) ==> #[trigger] steps@[k] == eased(
                from,
                to,
                k,
                frames_in(duration_ms),
            ),
        steps@[frames_in(duration_ms)] == to,
{
    let frame_time: u32 = 1000 / FPS;
    let total: u32 = duration_ms / frame_time;
    let mut steps: Vec<u32> = Vec::new();
    let mut frame: u32 = 0;
    while frame < total
        invariant
            frame <= total,
            total == frames_in(duration_ms),
            total < 0x1000_0000,
            steps@.len() == frame,
            forall|k: int|
                0 <= k < frame ==> #[trigger] steps@[k] == eased(from, to, k, total as int),
        decreases total - frame,
    {
        steps.push(progress_at(from, to, frame, total));
        frame = frame + 1;
    }
    steps.push(to);
    steps
}

/// Builds what a frame shows: `picture` from the top-left corner on. A
/// picture of at most 65535 characters is sure to be well formed.
pub fn picture_view(picture: &str) -> (widget: AnyWidget)
    ensures
        is_image(widget, picture@),
        picture@.len() <= u16::MAX ==> widget.well_formed(),
{
    image(picture).into_widget()
}

} // verus!
