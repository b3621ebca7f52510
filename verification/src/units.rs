//! Fixed-point arithmetic and the tunable constants of the
//! simulation. A coordinate, velocity or impulse is an `i64` and a
//! duration a `u64`, both counting 1/`SCALE`-ths of a world unit or
//! of a time unit.

use vstd::prelude::*;
use vstd::arithmetic::div_mod::lemma_div_is_ordered;
use vstd::arithmetic::div_mod::lemma_div_by_multiple;

verus! {

/// Sub-units per world unit (and per time unit).
pub const SCALE: i64 = 1024;

/// `SCALE` as a duration.
pub const SCALE_U: u64 = 1024;

/// Spawn period of the obstacle spawner: 2 time units.
pub const PERIOD: u64 = 2 * SCALE_U;

/// Horizontal obstacle speed in world units per time unit.
pub const SPEED: i64 = 10;

/// Horizontal coordinate at which an obstacle pair is spawned.
pub const SPAWN_X: i64 = 35 * SCALE;

/// Obstacles whose horizontal coordinate falls below this cutoff are
/// despawned.
pub const CUTOFF_X: i64 = -35 * SCALE;

/// Half of the vertical gap between the two segments of a pair: 1.5
/// world units.
pub const HALF_GAP: i64 = 1536;

/// Lowest gap-center offset an obstacle pair may be spawned with.
pub const GAP_MIN: i64 = -10 * SCALE;

/// One past the highest gap-center offset an obstacle pair may be
/// spawned with.
pub const GAP_MAX: i64 = 18 * SCALE;

/// Vertical impulse granted on the rising edge of the flap key: 16
/// units.
pub const FLAP_IMPULSE: i64 = 16 * SCALE;

/// Value the flap charge is reset to on a rising edge: 8 units.
pub const CHARGE_INIT: u64 = 8 * SCALE_U;

/// Magnitude of the downward impulse while the descend key is held:
/// 0.5 units.
pub const DESCEND_IMPULSE: i64 = 512;

/// Magnitude of the horizontal impulse per held direction key: 1
/// unit.
pub const MOVE_IMPULSE: i64 = SCALE;

/// Vertical acceleration of the player body, in velocity sub-units
/// per time unit. The exact magnitude is a tunable of the physics
/// collaborator; only its sign is load-bearing.
pub const GRAVITY_Y: i64 = -49 * SCALE;

/// Entity id of the ground body.
pub const GROUND_ID: u64 = 0;

/// Vertical position of the ground body: 12 units below the spawn
/// point.
pub const GROUND_Y: i64 = -12 * SCALE;

/// Half extents of the ground's axis-aligned box collider, sized to
/// the rendered ground footprint.
pub const GROUND_HALF_X: i64 = 50 * SCALE;

/// Vertical half extent of the ground collider.
pub const GROUND_HALF_Y: i64 = 1 * SCALE;

/// Depth half extent of the ground collider.
pub const GROUND_HALF_Z: i64 = 50 * SCALE;

/// Magnitude bound on a coordinate or velocity accepted by one
/// simulation tick; keeps every intermediate sum inside `i64`.
pub const COORD_LIMIT: i64 = 1099511627776;

/// Magnitude bound on the first factor of `fmul`.
pub const FMUL_A_LIMIT: i64 = 17592186044416;

/// Product of a fixed-point value and a fixed-point duration,
/// rescaled back by `SCALE` with rounding toward zero.
pub open spec fn fx_mul(a: int, b: int) -> int
    recommends
        b >= 0,
{
    if a >= 0 {
        (a * b) / (SCALE as int)
    } else {
        -(((-a) * b) / (SCALE as int))
    }
}

/// Executable fixed-point product: `a` a coordinate or velocity, `b`
/// a duration no longer than one spawn period.
pub fn fmul(a: i64, b: u64) -> (r: i64)
    requires
        -FMUL_A_LIMIT <= a <= FMUL_A_LIMIT,
        b <= PERIOD,
    ensures
        r as int == fx_mul(a as int, b as int),
        a >= 0 ==> 0 <= r <= 2 * a,
        a < 0 ==> 2 * a <= r <= 0,
{
    if a >= 0 {
        proof {
            assert((a as int) * (b as int) <= FMUL_A_LIMIT as int * PERIOD as int)
                by (nonlinear_arith)
                requires
                    0 <= a as int <= FMUL_A_LIMIT as int,
                    0 <= b as int <= PERIOD as int,
            ;
        }
        let p: u64 = (a as u64) * b;
        let q: u64 = p / SCALE_U;
        proof {
            assert((a as int) * (b as int) <= (a as int) * (2 * SCALE as int))
                by (nonlinear_arith)
                requires
                    0 <= a as int,
                    0 <= b as int <= 2 * SCALE as int,
            ;
            lemma_div_is_ordered(
                (a as int) * (b as int),
                (a as int) * (2 * SCALE as int),
                SCALE as int,
            );
            assert(((2 * a as int) * SCALE as int) / (SCALE as int) == 2 * a as int) by {
                lemma_div_by_multiple(2 * a as int, SCALE as int);
            }
            assert((a as int) * (2 * SCALE as int) == (2 * a as int) * SCALE as int)
                by (nonlinear_arith);
            assert(0 <= (a as int) * (b as int)) by (nonlinear_arith)
                requires
                    0 <= a as int,
                    0 <= b as int,
            ;
        }
        q as i64
    } else {
        proof {
            assert(((-a) as int) * (b as int) <= FMUL_A_LIMIT as int * PERIOD as int)
                by (nonlinear_arith)
                requires
                    0 <= (-a) as int <= FMUL_A_LIMIT as int,
                    0 <= b as int <= PERIOD as int,
            ;
        }
        let m: u64 = ((-a) as u64) * b;
        let q: u64 = m / SCALE_U;
        proof {
            let na = (-a) as int;
            assert(na * (b as int) <= na * (2 * SCALE as int)) by (nonlinear_arith)
                requires
                    0 <= na,
                    0 <= b as int <= 2 * SCALE as int,
            ;
            lemma_div_is_ordered(na * (b as int), na * (2 * SCALE as int), SCALE as int);
            assert(((2 * na) * SCALE as int) / (SCALE as int) == 2 * na) by {
                lemma_div_by_multiple(2 * na, SCALE as int);
            }
            assert(na * (2 * SCALE as int) == (2 * na) * SCALE as int) by (nonlinear_arith);
            assert(0 <= na * (b as int)) by (nonlinear_arith)
                requires
                    0 <= na,
                    0 <= b as int,
            ;
        }
        -(q as i64)
    }
}

} // verus!
