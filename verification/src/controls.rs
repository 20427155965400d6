use vstd::prelude::*;

verus! {

/// The per-frame state of one input binding.
#[derive(Debug, PartialEq, Eq, Copy, Clone, Structural)]
pub enum KeyState {
    Active,
    Inactive,
    Clicked,
}

/// The game actions an input binding can be mapped to.
#[derive(PartialEq, Eq, Hash, Copy, Clone, Debug, Structural)]
pub enum KeyAction {
    Forward,
    Back,
    Left,
    Right,
    Jump,
    Sprint,
    Crouch,
}

/// The binding state after one frame: pressed keys are active; releasing
/// an active key yields a one-frame click; anything else is inactive.
pub open spec fn spec_next_state(current: KeyState, pressed: bool) -> KeyState {
    if pressed {
        KeyState::Active
    } else if current == KeyState::Active {
        KeyState::Clicked
    } else {
        KeyState::Inactive
    }
}

impl KeyState {
    /// Advances one binding's state given whether its key is pressed this
    /// frame.
    pub fn next(self, pressed: bool) -> (r: KeyState)
        ensures
            r == spec_next_state(self, pressed),
    {
        if pressed {
            KeyState::Active
        } else if self == KeyState::Active {
            KeyState::Clicked
        } else {
            KeyState::Inactive
        }
    }
}

} // verus!
