//! The animation that opens the program.

use crate::ui::screens::animation::{Frame, Picture};
use crate::ui::theme::{COLOR_MAGENTA, COLOR_LIGHTMAGENTA};
use vstd::prelude::*;

verus! {

/// The animation that opens the program.
pub struct SplashScreen;

/// The frames of the animation, in their order.
pub open spec fn splash_frames() -> Seq<Frame> {
    seq![
        Frame { duration: 50, picture: Picture::MewFlash, color: None },
        Frame { duration: 300, picture: Picture::Mew, color: None },
        Frame { duration: 50, picture: Picture::MewFlash, color: None },
        Frame { duration: 100, picture: Picture::Mew, color: None },
        Frame { duration: 50, picture: Picture::MewFlash, color: None },
        Frame { duration: 400, picture: Picture::Mew, color: None },
        Frame {
            duration: 100,
            picture: Picture::MewFlashSparkle,
            color: Some(COLOR_LIGHTMAGENTA),
        },
        Frame { duration: 500, picture: Picture::Mew, color: None },
        Frame { duration: 50, picture: Picture::Mew, color: None },
        Frame {
            duration: 50,
            picture: Picture::MewFlashSparkle,
            color: Some(COLOR_LIGHTMAGENTA),
        },
        Frame {
            duration: 300,
            picture: Picture::MewFlashFull,
            color: Some(COLOR_LIGHTMAGENTA),
        },
        Frame { duration: 50, picture: Picture::Mew, color: None },
    ]
}

impl SplashScreen {
    /// The colour of the screen, to which it returns after a frame in a
    /// colour of its own.
    pub fn color(&self) -> (color: u8)
        ensures
            color == COLOR_MAGENTA,
    {
        COLOR_MAGENTA
    }

    /// The picture that stands before the animation begins.
    pub fn still(&self) -> (picture: Picture)
        ensures
            picture == Picture::Mew,
    {
        Picture::Mew
    }

    /// Returns the frames of the animation, in their order.
    pub fn frames(&self) -> (frames: Vec<Frame>)
        ensures
            frames@ == splash_frames(),
    {
        let mut frames: Vec<Frame> = Vec::new();
        frames.push(Frame { duration: 50, picture: Picture::MewFlash, color: None });
        frames.push(Frame { duration: 300, picture: Picture::Mew, color: None });
        frames.push(Frame { duration: 50, picture: Picture::MewFlash, color: None });
        frames.push(Frame { duration: 100, picture: Picture::Mew, color: None });
        frames.push(Frame { duration: 50, picture: Picture::MewFlash, color: None });
        frames.push(Frame { duration: 400, picture: Picture::Mew, color: None });
        frames.push(
            Frame {
            duration: 100,
            picture: Picture::MewFlashSparkle,
            color: Some(COLOR_LIGHTMAGENTA),
        },
        );
        frames.push(Frame { duration: 500, picture: Picture::Mew, color: None });
        frames.push(Frame { duration: 50, picture: Picture::Mew, color: None });
        frames.push(
            Frame {
            duration: 50,
            picture: Picture::MewFlashSparkle,
            color: Some(COLOR_LIGHTMAGENTA),
        },
        );
        frames.push(
            Frame {
            duration: 300,
            picture: Picture::MewFlashFull,
            color: Some(COLOR_LIGHTMAGENTA),
        },
        );
        frames.push(Frame { duration: 50, picture: Picture::Mew, color: None });
        assert(frames@ =~= splash_frames());
        frames
    }
}

} // verus!
