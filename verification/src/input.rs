//! Snapshot of the input collaborator's key state for one tick: for
//! each key of the fixed set, whether it is held this tick and, where
//! the simulation reacts to edges, whether it was just pressed.

use vstd::prelude::*;

verus! {

/// The keys read during one simulation tick. `flap_just_pressed` is
/// the rising edge of the flap key; `reset_just_pressed` the rising
/// edge of the manual reset key. The remaining fields are level
/// state.
#[derive(Clone, Copy, PartialEq, Eq, Structural)]
pub struct InputState {
    pub left_held: bool,
    pub right_held: bool,
    pub flap_just_pressed: bool,
    pub flap_held: bool,
    pub descend_held: bool,
    pub reset_just_pressed: bool,
}

impl InputState {
    /// The tick with no key active.
    pub fn none() -> (r: InputState)
        ensures
            r == (InputState {
                left_held: false,
                right_held: false,
                flap_just_pressed: false,
                flap_held: false,
                descend_held: false,
                reset_just_pressed: false,
            }),
    {
        InputState {
            left_held: false,
            right_held: false,
            flap_just_pressed: false,
            flap_held: false,
            descend_held: false,
            reset_just_pressed: false,
        }
    }
}

} // verus!
