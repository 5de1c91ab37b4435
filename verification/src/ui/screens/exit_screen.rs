//! The animation that closes the program.

use crate::ui::screens::animation::{Frame, Picture};
use crate::ui::theme::{COLOR_YELLOW, COLOR_LIGHTYELLOW};
use vstd::prelude::*;

verus! {

/// The animation that closes the program.
pub struct ExitScreen;

/// The frames of the animation, in their order.
pub open spec fn exit_frames() -> Seq<Frame> {
    seq![
        Frame {
            duration: 50,
            picture: Picture::PikachuSpark,
            color: Some(COLOR_LIGHTYELLOW),
        },
        Frame { duration: 300, picture: Picture::Pikachu, color: None },
        Frame {
            duration: 50,
            picture: Picture::PikachuSpark,
            color: Some(COLOR_LIGHTYELLOW),
        },
        Frame { duration: 100, picture: Picture::Pikachu, color: None },
        Frame {
            duration: 50,
            picture: Picture::PikachuSpark,
            color: Some(COLOR_LIGHTYELLOW),
        },
        Frame { duration: 400, picture: Picture::Pikachu, color: None },
        Frame {
            duration: 100,
            picture: Picture::PikachuSpark,
            color: Some(COLOR_LIGHTYELLOW),
        },
        Frame { duration: 500, picture: Picture::Pikachu, color: None },
        Frame {
            duration: 50,
            picture: Picture::PikachuSpark,
            color: Some(COLOR_LIGHTYELLOW),
        },
        Frame { duration: 50, picture: Picture::Pikachu, color: None },
        Frame {
            duration: 300,
            picture: Picture::PikachuSpark,
            color: Some(COLOR_LIGHTYELLOW),
        },
        Frame { duration: 50, picture: Picture::Pikachu, color: None },
    ]
}

impl ExitScreen {
    /// The colour of the screen, to which it returns after a frame in a
    /// colour of its own.
    pub fn color(&self) -> (color: u8)
        ensures
            color == COLOR_YELLOW,
    {
        COLOR_YELLOW
    }

    /// The picture that stands before the animation begins.
    pub fn still(&self) -> (picture: Picture)
        ensures
            picture == Picture::Pikachu,
    {
        Picture::Pikachu
    }

    /// Returns the frames of the animation, in their order.
    pub fn frames(&self) -> (frames: Vec<Frame>)
        ensures
            frames@ == exit_frames(),
    {
        let mut frames: Vec<Frame> = Vec::new();
        frames.push(
            Frame {
            duration: 50,
            picture: Picture::PikachuSpark,
            color: Some(COLOR_LIGHTYELLOW),
        },
        );
        frames.push(Frame { duration: 300, picture: Picture::Pikachu, color: None });
        frames.push(
            Frame {
            duration: 50,
            picture: Picture::PikachuSpark,
            color: Some(COLOR_LIGHTYELLOW),
        },
        );
        frames.push(Frame { duration: 100, picture: Picture::Pikachu, color: None });
        frames.push(
            Frame {
            duration: 50,
            picture: Picture::PikachuSpark,
            color: Some(COLOR_LIGHTYELLOW),
        },
        );
        frames.push(Frame { duration: 400, picture: Picture::Pikachu, color: None });
        frames.push(
            Frame {
            duration: 100,
            picture: Picture::PikachuSpark,
            color: Some(COLOR_LIGHTYELLOW),
        },
        );
        frames.push(Frame { duration: 500, picture: Picture::Pikachu, color: None });
        frames.push(
            Frame {
            duration: 50,
            picture: Picture::PikachuSpark,
            color: Some(COLOR_LIGHTYELLOW),
        },
        );
        frames.push(Frame { duration: 50, picture: Picture::Pikachu, color: None });
        frames.push(
            Frame {
            duration: 300,
            picture: Picture::PikachuSpark,
            color: Some(COLOR_LIGHTYELLOW),
        },
        );
        frames.push(Frame { duration: 50, picture: Picture::Pikachu, color: None });
        assert(frames@ =~= exit_frames());
        frames
    }
}

} // verus!
