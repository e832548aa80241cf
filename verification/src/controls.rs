//! The held-key state that the movement code reads each frame.

use vstd::prelude::*;

verus! {

/// Which movement controls are currently held.
pub struct ControlsState {
    pub left: bool,
    pub right: bool,
    pub forward: bool,
    pub back: bool,
    pub up: bool,
    pub lookingleft: bool,
    pub lookingright: bool,
    pub shift: bool,
}

/// What the overlay shown during a vision draws: a skinned model or a voxel
/// model, by its index in the respective table.
pub enum VisionType {
    Model(usize),
    Vox(usize),
}

impl ControlsState {
    /// True when no directional or look control is held. `shift` is a
    /// modifier and is not counted.
    pub open spec fn is_idle(&self) -> bool {
        &&& !self.left
        &&& !self.right
        &&& !self.forward
        &&& !self.back
        &&& !self.up
        &&& !self.lookingleft
        &&& !self.lookingright
    }

    /// A state with nothing held.
    pub fn new() -> (state: ControlsState)
        ensures
            state.is_idle(),
            !state.shift,
    {
        ControlsState {
            left: false,
            right: false,
            forward: false,
            back: false,
            up: false,
            lookingleft: false,
            lookingright: false,
            shift: false,
        }
    }

    /// Releases every directional and look control. The modifier `shift` is
    /// left as it was.
    pub fn clear(&mut self)
        ensures
            final(self).is_idle(),
            final(self).shift == old(self).shift,
    {
        self.left = false;
        self.right = false;
        self.forward = false;
        self.back = false;
        self.up = false;
        self.lookingleft = false;
        self.lookingright = false;
    }
}

} // verus!
