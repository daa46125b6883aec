pub mod keyboard;

pub use keyboard::Keyboard;

use vstd::prelude::*;

verus! {

/// What the window reports, as far as the keyboard is concerned.
#[derive(Clone, Copy, Debug, PartialEq, Eq, Structural)]
pub enum WindowEvent {
    /// The user typed `c`.
    ReceivedCharacter(char),
    /// Any other event.
    Other,
}

} // verus!
