//! The player controller and the player's rigid-body state.
//!
//! Each tick the controller maps the key snapshot to one impulse:
//! held direction keys contribute opposing horizontal units, the flap
//! key contributes a large impulse on its rising edge followed by a
//! geometrically decaying charge while held, and the descend key a
//! small constant downward impulse. The physics step then folds the
//! accumulated impulse and gravity into the velocity, advances the
//! position, and clears the accumulator.

use vstd::prelude::*;
use crate::input::InputState;
use crate::units::fx_mul;
use crate::units::fmul;
use crate::units::CHARGE_INIT;
use crate::units::COORD_LIMIT;
use crate::units::DESCEND_IMPULSE;
use crate::units::FLAP_IMPULSE;
use crate::units::GRAVITY_Y;
use crate::units::MOVE_IMPULSE;
use crate::units::PERIOD;

verus! {

/// A fixed-point 3-vector. The simulation is confined to the X/Y
/// plane; the Z component exists because the body is represented in
/// three dimensions, and stays zero.
#[derive(Clone, Copy, PartialEq, Eq, Structural)]
pub struct Vec3Fx {
    pub x: i64,
    pub y: i64,
    pub z: i64,
}

impl Vec3Fx {
    /// The zero vector.
    pub open spec fn spec_zero() -> Vec3Fx {
        Vec3Fx { x: 0, y: 0, z: 0 }
    }

    /// The zero vector.
    pub fn zero() -> (r: Vec3Fx)
        ensures
            r == Vec3Fx::spec_zero(),
    {
        Vec3Fx { x: 0, y: 0, z: 0 }
    }
}

/// Net horizontal impulse of one tick: each held direction key
/// contributes one unit, independently, so holding both nets zero.
pub open spec fn horizontal_impulse(inp: InputState) -> int {
    (if inp.left_held {
        -MOVE_IMPULSE as int
    } else {
        0
    }) + (if inp.right_held {
        MOVE_IMPULSE as int
    } else {
        0
    })
}

/// Lift contributed by the flap key this tick: the full flap impulse
/// on a rising edge, the current charge while merely held, nothing
/// otherwise.
pub open spec fn flap_lift(inp: InputState, charge: int) -> int {
    if inp.flap_just_pressed {
        FLAP_IMPULSE as int
    } else if inp.flap_held {
        charge
    } else {
        0
    }
}

/// The charge left after one tick: reset on a rising edge, halved
/// while held, untouched otherwise.
pub open spec fn charge_after(inp: InputState, charge: int) -> int {
    if inp.flap_just_pressed {
        CHARGE_INIT as int
    } else if inp.flap_held {
        charge / 2
    } else {
        charge
    }
}

/// Net vertical impulse of one tick: flap lift plus the constant
/// downward contribution of a held descend key.
pub open spec fn vertical_impulse(inp: InputState, charge: int) -> int {
    flap_lift(inp, charge) + (if inp.descend_held {
        -DESCEND_IMPULSE as int
    } else {
        0
    })
}

/// Both direction keys held at once cancel exactly to a zero
/// horizontal impulse; this is intended behavior, not a bug.
pub proof fn lemma_horizontal_cancel(inp: InputState)
    requires
        inp.left_held,
        inp.right_held,
    ensures
        horizontal_impulse(inp) == 0,
{
}

/// Per-controller flap state: the decaying charge. It persists
/// across ticks and is reset only by a new rising edge of the flap
/// key.
pub struct FlapController {
    pub charge: u64,
}

impl FlapController {
    /// The charge never exceeds its reset value.
    pub open spec fn wf(self) -> bool {
        self.charge <= CHARGE_INIT
    }

    /// A fresh controller carries no charge.
    pub fn new() -> (r: FlapController)
        ensures
            r.wf(),
            r.charge == 0,
    {
        FlapController { charge: 0 }
    }

    /// Map one tick's key snapshot to the impulse to accumulate,
    /// decaying or resetting the charge as a side effect. Returns
    /// the (horizontal, vertical) impulse components.
    pub fn flap(&mut self, inp: &InputState) -> (r: (i64, i64))
        requires
            old(self).wf(),
        ensures
            final(self).wf(),
            r.0 as int == horizontal_impulse(*inp),
            r.1 as int == vertical_impulse(*inp, old(self).charge as int),
            final(self).charge as int == charge_after(*inp, old(self).charge as int),
    {
        let mut dx: i64 = 0;
        let mut dy: i64 = 0;
        if inp.left_held {
            dx = dx - MOVE_IMPULSE;
        }
        if inp.right_held {
            dx = dx + MOVE_IMPULSE;
        }
        if inp.flap_just_pressed {
            dy = dy + FLAP_IMPULSE;
            self.charge = CHARGE_INIT;
        } else if inp.flap_held {
            dy = dy + (self.charge as i64);
            self.charge = self.charge / 2;
        }
        if inp.descend_held {
            dy = dy - DESCEND_IMPULSE;
        }
        (dx, dy)
    }
}

/// Magnitude bound on the impulse one tick can accumulate.
pub const IMPULSE_LIMIT: i64 = 17408;

/// The player's rigid-body state: position, velocity, and the
/// pending-impulse accumulator the physics step folds into the
/// velocity and then clears.
#[derive(Clone, Copy, PartialEq, Eq, Structural)]
pub struct PlayerBody {
    pub pos: Vec3Fx,
    pub vel: Vec3Fx,
    pub impulse: Vec3Fx,
}

/// The canonical spawn state: at rest at the origin with an empty
/// impulse accumulator.
pub open spec fn spawn_player() -> PlayerBody {
    PlayerBody { pos: Vec3Fx::spec_zero(), vel: Vec3Fx::spec_zero(), impulse: Vec3Fx::spec_zero() }
}

impl PlayerBody {
    /// Motion is confined to the X/Y plane and the accumulator holds
    /// at most one tick's impulse.
    pub open spec fn wf(self) -> bool {
        &&& self.pos.z == 0
        &&& self.vel.z == 0
        &&& self.impulse.z == 0
        &&& -IMPULSE_LIMIT <= self.impulse.x <= IMPULSE_LIMIT
        &&& -IMPULSE_LIMIT <= self.impulse.y <= IMPULSE_LIMIT
    }

    /// A player in the canonical spawn state.
    pub fn spawn() -> (r: PlayerBody)
        ensures
            r == spawn_player(),
            r.wf(),
    {
        PlayerBody { pos: Vec3Fx::zero(), vel: Vec3Fx::zero(), impulse: Vec3Fx::zero() }
    }

    /// Restore the spawn state: position and velocity reset,
    /// accumulator cleared. Idempotent by construction.
    pub fn reset(&mut self)
        ensures
            *final(self) == spawn_player(),
            final(self).wf(),
    {
        self.pos = Vec3Fx::zero();
        self.vel = Vec3Fx::zero();
        self.impulse = Vec3Fx::zero();
    }

    /// Add one tick's controller impulse to the accumulator.
    pub fn apply_impulse(&mut self, dx: i64, dy: i64)
        requires
            old(self).wf(),
            old(self).impulse.x == 0,
            old(self).impulse.y == 0,
            -IMPULSE_LIMIT <= dx <= IMPULSE_LIMIT,
            -IMPULSE_LIMIT <= dy <= IMPULSE_LIMIT,
        ensures
            final(self).wf(),
            final(self).impulse.x == dx,
            final(self).impulse.y == dy,
            final(self).impulse.z == 0,
            final(self).pos == old(self).pos,
            final(self).vel == old(self).vel,
    {
        self.impulse = Vec3Fx { x: self.impulse.x + dx, y: self.impulse.y + dy, z: self.impulse.z };
    }

    /// One physics integration step: fold the accumulated impulse and
    /// one tick of gravity into the velocity, advance the position by
    /// the new velocity, clear the accumulator. The Z axis stays
    /// locked.
    pub fn integrate(&mut self, dt: u64)
        requires
            old(self).wf(),
            dt <= PERIOD,
            -COORD_LIMIT <= old(self).pos.x <= COORD_LIMIT,
            -COORD_LIMIT <= old(self).pos.y <= COORD_LIMIT,
            -COORD_LIMIT <= old(self).vel.x <= COORD_LIMIT,
            -COORD_LIMIT <= old(self).vel.y <= COORD_LIMIT,
        ensures
            final(self).wf(),
            final(self).vel.x as int == old(self).vel.x + old(self).impulse.x,
            final(self).vel.y as int == old(self).vel.y + old(self).impulse.y + fx_mul(
                GRAVITY_Y as int,
                dt as int,
            ),
            final(self).vel.z == 0,
            final(self).pos.x as int == old(self).pos.x + fx_mul(
                final(self).vel.x as int,
                dt as int,
            ),
            final(self).pos.y as int == old(self).pos.y + fx_mul(
                final(self).vel.y as int,
                dt as int,
            ),
            final(self).pos.z == 0,
            final(self).impulse == Vec3Fx::spec_zero(),
    {
        let g: i64 = fmul(GRAVITY_Y, dt);
        let vx: i64 = self.vel.x + self.impulse.x;
        let vy: i64 = self.vel.y + self.impulse.y + g;
        let sx: i64 = fmul(vx, dt);
        let sy: i64 = fmul(vy, dt);
        self.vel = Vec3Fx { x: vx, y: vy, z: 0 };
        self.pos = Vec3Fx { x: self.pos.x + sx, y: self.pos.y + sy, z: 0 };
        self.impulse = Vec3Fx::zero();
    }
}

} // verus!
