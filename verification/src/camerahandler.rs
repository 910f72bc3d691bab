//! The camera handler: a two-state machine that turns input into camera motion.
//!
//! The handler does not touch a camera itself. Each operation returns the
//! motion that the current state asks for, and the caller applies it to its
//! camera.

use vstd::prelude::*;

verus! {

/// The way a handler drives its camera.
#[derive(Clone, Copy, Debug, PartialEq, Eq, Structural)]
pub enum CameraState {
    /// First person: the camera sits at a position and looks along a direction.
    FIRST,
    /// Orbital: the camera moves on a sphere around its target.
    SPHERICAL,
}

impl CameraState {
    /// The other state.
    pub open spec fn toggled(self) -> CameraState {
        match self {
            CameraState::FIRST => CameraState::SPHERICAL,
            CameraState::SPHERICAL => CameraState::FIRST,
        }
    }
}

/// What a camera is asked to do in answer to one input.
#[derive(Clone, Copy, Debug, PartialEq, Eq, Structural)]
pub enum CameraMotion {
    /// Nothing: the input means nothing in the current state.
    Inert,
    /// Place the eye at the given position and look along the given front
    /// direction, that is at the position plus the direction.
    LookFrom,
    /// Move the target onto the given position and move the eye by the same
    /// offset, so that the vector from eye to target stays as it was.
    Pan,
    /// Displace the eye along the camera's right and corrected up directions
    /// by the given numbers of tenths of a unit, then bring it back onto the
    /// sphere around the target on which it lay before.
    Orbit { right_tenths: i64, up_tenths: i64 },
    /// Add `delta` to the distance between eye and target, keep the distance
    /// at `min_distance` or more, and place the eye at that distance from the
    /// target, against the current view direction.
    Zoom { delta: i32, min_distance: u32 },
}

/// The least distance, in units, that zooming leaves between eye and target.
pub const MIN_ZOOM_DISTANCE: u32 = 1;

/// A camera handler. It starts in first person.
pub struct CameraHandler {
    pub state: CameraState,
}

impl CameraHandler {
    /// The motion that a translation asks for in the given state.
    pub open spec fn translation(state: CameraState) -> CameraMotion {
        match state {
            CameraState::FIRST => CameraMotion::LookFrom,
            CameraState::SPHERICAL => CameraMotion::Pan,
        }
    }

    /// The motion that a pointer movement of `(xrel, yrel)` asks for in the
    /// given state: the eye goes against the pointer horizontally and with it
    /// vertically.
    pub open spec fn rotation(state: CameraState, xrel: i32, yrel: i32) -> CameraMotion {
        match state {
            CameraState::FIRST => CameraMotion::Inert,
            CameraState::SPHERICAL => CameraMotion::Orbit {
                right_tenths: (-(xrel as int)) as i64,
                up_tenths: yrel as i64,
            },
        }
    }

    /// The motion that a wheel movement asks for in the given state.
    pub open spec fn zooming(state: CameraState, wheel: i32) -> CameraMotion {
        match state {
            CameraState::FIRST => CameraMotion::Inert,
            CameraState::SPHERICAL => CameraMotion::Zoom {
                delta: wheel,
                min_distance: MIN_ZOOM_DISTANCE,
            },
        }
    }

    /// A handler in first person.
    pub fn create() -> (handler: CameraHandler)
        ensures
            handler.state == CameraState::FIRST,
    {
        CameraHandler { state: CameraState::FIRST }
    }

    /// Puts the handler into the given state.
    pub fn set_state(&mut self, state: CameraState)
        ensures
            final(self).state == state,
    {
        self.state = state;
    }

    /// Switches to the other state.
    pub fn next_state(&mut self)
        ensures
            final(self).state == old(self).state.toggled(),
    {
        match self.state {
            CameraState::FIRST => {
                self.set_state(CameraState::SPHERICAL);
            },
            CameraState::SPHERICAL => {
                self.set_state(CameraState::FIRST);
            },
        }
    }

    /// Answers a request to move the camera to a position with a front
    /// direction. In first person the camera looks from the position along the
    /// direction; in orbit the position becomes the new centre of the orbit.
    pub fn translate(&self) -> (motion: CameraMotion)
        ensures
            motion == Self::translation(self.state),
    {
        match self.state {
            CameraState::FIRST => CameraMotion::LookFrom,
            CameraState::SPHERICAL => CameraMotion::Pan,
        }
    }

    /// Answers a pointer movement. Only an orbiting camera rotates.
    pub fn rotate(&self, xrel: i32, yrel: i32) -> (motion: CameraMotion)
        ensures
            motion == Self::rotation(self.state, xrel, yrel),
    {
        match self.state {
            CameraState::SPHERICAL => {
                let x: i64 = -(xrel as i64);
                let y: i64 = yrel as i64;
                CameraMotion::Orbit { right_tenths: x, up_tenths: y }
            },
            CameraState::FIRST => CameraMotion::Inert,
        }
    }

    /// Answers a wheel movement. Only an orbiting camera zooms.
    pub fn zoom(&self, wheel: i32) -> (motion: CameraMotion)
        ensures
            motion == Self::zooming(self.state, wheel),
    {
        match self.state {
            CameraState::SPHERICAL => CameraMotion::Zoom {
                delta: wheel,
                min_distance: MIN_ZOOM_DISTANCE,
            },
            CameraState::FIRST => CameraMotion::Inert,
        }
    }
}

/// Switching state twice brings a handler back to the state it was in.
pub proof fn lemma_toggle_twice(state: CameraState)
    ensures
        state.toggled().toggled() == state,
{
}

} // verus!
