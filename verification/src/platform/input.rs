//! The keys that the screens react to.

use vstd::prelude::*;

verus! {

/// One press of a key.
#[derive(Clone, Copy, Debug, PartialEq, Eq, Structural)]
pub enum InputKey {
    Up,
    Down,
    Left,
    Right,
    Enter,
    Escape,
}

} // verus!
