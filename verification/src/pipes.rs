//! Paired pipe obstacles: their geometry, the per-tick leftward
//! translation, and the despawn pass that removes pairs once they
//! fall behind the horizontal cutoff.

use vstd::prelude::*;
use crate::units::CUTOFF_X;
use crate::units::GAP_MAX;
use crate::units::GAP_MIN;
use crate::units::HALF_GAP;
use crate::units::PERIOD;
use crate::units::SCALE;
use crate::units::SPAWN_X;
use crate::units::SPEED;

verus! {

/// Lethal marker: contact with an entity carrying it triggers a
/// reset. It is attached to the ground and to every pipe segment and
/// carries no data.
#[derive(Clone, Copy, PartialEq, Eq, Structural)]
pub struct Kill;

/// One rigid pipe segment: an entity id the physics collaborator
/// reports contacts under, its position, and the lethal marker.
#[derive(Clone, Copy, PartialEq, Eq, Structural)]
pub struct PipeSegment {
    pub id: u64,
    pub x: i64,
    pub y: i64,
    pub kill: Kill,
}

/// An obstacle pair: two named child segments offset vertically
/// around a randomized gap center. The pair moves as one body; only
/// its horizontal coordinate is ever mutated after spawn.
#[derive(Clone, Copy, PartialEq, Eq, Structural)]
pub struct Pipe {
    pub upper: PipeSegment,
    pub lower: PipeSegment,
}

impl Pipe {
    /// Horizontal position of the pair.
    pub open spec fn x(self) -> int {
        self.upper.x as int
    }

    /// Vertical center of the gap between the two segments.
    pub open spec fn gap_center(self) -> int {
        self.lower.y + HALF_GAP as int
    }

    /// Geometry invariant: the children share their horizontal
    /// coordinate, the gap has constant width, and the gap center
    /// lies in the spawn range.
    pub open spec fn wf(self) -> bool {
        &&& self.upper.x == self.lower.x
        &&& self.upper.y as int == self.lower.y + 2 * HALF_GAP as int
        &&& GAP_MIN as int <= self.gap_center() < GAP_MAX as int
    }
}

/// The two children of a well-formed pair share their horizontal
/// position and keep a constant-width gap for their entire lifetime:
/// spawning establishes `wf` and every translation preserves it.
pub proof fn lemma_children_aligned(p: Pipe)
    requires
        p.wf(),
    ensures
        p.upper.x == p.lower.x,
        p.upper.y - p.lower.y == 2 * HALF_GAP as int,
{
}

/// The exact pair that spawning with gap-center `offset` and first
/// child id `first_id` produces.
pub open spec fn spawned_pipe_at(offset: int, first_id: u64) -> Pipe {
    Pipe {
        upper: PipeSegment {
            id: first_id,
            x: SPAWN_X,
            y: (offset + HALF_GAP as int) as i64,
            kill: Kill,
        },
        lower: PipeSegment {
            id: (first_id + 1) as u64,
            x: SPAWN_X,
            y: (offset - HALF_GAP as int) as i64,
            kill: Kill,
        },
    }
}

/// Build one obstacle pair at the spawn coordinate with the given
/// gap-center offset; the children take the ids `first_id` and
/// `first_id + 1` and both carry the lethal marker.
pub fn spawn_pipe(offset: i64, first_id: u64) -> (r: Pipe)
    requires
        GAP_MIN <= offset < GAP_MAX,
        first_id < u64::MAX,
    ensures
        r == spawned_pipe_at(offset as int, first_id),
        r.wf(),
        r.upper.x == SPAWN_X,
        r.lower.x == SPAWN_X,
        r.gap_center() == offset as int,
        r.upper.id == first_id,
        r.lower.id == first_id + 1,
{
    Pipe {
        upper: PipeSegment { id: first_id, x: SPAWN_X, y: offset + HALF_GAP, kill: Kill },
        lower: PipeSegment { id: first_id + 1, x: SPAWN_X, y: offset - HALF_GAP, kill: Kill },
    }
}

/// The pair `p` after one tick of leftward scripted motion.
pub open spec fn moved_pipe(p: Pipe, dt: u64) -> Pipe {
    Pipe {
        upper: PipeSegment {
            id: p.upper.id,
            x: (p.upper.x - SPEED as int * dt as int) as i64,
            y: p.upper.y,
            kill: p.upper.kill,
        },
        lower: PipeSegment {
            id: p.lower.id,
            x: (p.lower.x - SPEED as int * dt as int) as i64,
            y: p.lower.y,
            kill: p.lower.kill,
        },
    }
}

/// Every live pair after one tick of leftward motion.
pub open spec fn moved_seq(s: Seq<Pipe>, dt: u64) -> Seq<Pipe> {
    s.map_values(|p: Pipe| moved_pipe(p, dt))
}

/// Advance every live pair leftward by speed times the tick duration.
/// Purely kinematic: positions are translated directly, nothing else
/// about a pair changes.
pub fn move_pipes(pipes: &Vec<Pipe>, dt: u64) -> (r: Vec<Pipe>)
    requires
        dt <= PERIOD,
        forall|i: int|
            0 <= i < pipes@.len() ==> CUTOFF_X as int <= (#[trigger] pipes@[i]).x(),
        forall|i: int| 0 <= i < pipes@.len() ==> (#[trigger] pipes@[i]).upper.x == pipes@[i].lower.x,
    ensures
        r@ == moved_seq(pipes@, dt),
{
    let step: i64 = SPEED * (dt as i64);
    let mut out: Vec<Pipe> = Vec::new();
    let mut i: usize = 0;
    while i < pipes.len()
        invariant
            0 <= i <= pipes@.len(),
            dt <= PERIOD,
            step == SPEED as int * dt as int,
            forall|j: int|
                0 <= j < pipes@.len() ==> CUTOFF_X as int <= (#[trigger] pipes@[j]).x(),
            forall|j: int|
                0 <= j < pipes@.len() ==> (#[trigger] pipes@[j]).upper.x == pipes@[j].lower.x,
            out@ == moved_seq(pipes@.take(i as int), dt),
        decreases pipes@.len() - i,
    {
        let p = pipes[i];
        let moved = Pipe {
            upper: PipeSegment { id: p.upper.id, x: p.upper.x - step, y: p.upper.y, kill: p.upper.kill },
            lower: PipeSegment { id: p.lower.id, x: p.lower.x - step, y: p.lower.y, kill: p.lower.kill },
        };
        out.push(moved);
        proof {
            assert(moved == moved_pipe(pipes@[i as int], dt));
            assert(pipes@.take(i as int + 1).drop_last() =~= pipes@.take(i as int));
            assert(out@ =~= moved_seq(pipes@.take(i as int + 1), dt));
        }
        i = i + 1;
    }
    proof {
        assert(pipes@.take(pipes@.len() as int) =~= pipes@);
    }
    out
}

/// The subsequence of `s` that survives a reaper pass: the pairs
/// whose horizontal coordinate has not dropped below the cutoff, in
/// their original order.
pub open spec fn reap_seq(s: Seq<Pipe>) -> Seq<Pipe>
    decreases s.len(),
{
    if s.len() == 0 {
        Seq::empty()
    } else if s.last().x() >= CUTOFF_X as int {
        reap_seq(s.drop_last()).push(s.last())
    } else {
        reap_seq(s.drop_last())
    }
}

/// Destroy every pair (parent and both children) whose horizontal
/// coordinate lies behind the cutoff. This is the sole removal path
/// for obstacles.
pub fn despawn_pipes(pipes: &Vec<Pipe>) -> (r: Vec<Pipe>)
    ensures
        r@ == reap_seq(pipes@),
        forall|i: int| 0 <= i < r@.len() ==> CUTOFF_X as int <= (#[trigger] r@[i]).x(),
        forall|i: int| 0 <= i < r@.len() ==> pipes@.contains(#[trigger] r@[i]),
{
    let mut out: Vec<Pipe> = Vec::new();
    let mut i: usize = 0;
    while i < pipes.len()
        invariant
            0 <= i <= pipes@.len(),
            out@ == reap_seq(pipes@.take(i as int)),
            forall|j: int| 0 <= j < out@.len() ==> CUTOFF_X as int <= (#[trigger] out@[j]).x(),
            forall|j: int| 0 <= j < out@.len() ==> pipes@.contains(#[trigger] out@[j]),
        decreases pipes@.len() - i,
    {
        let p = pipes[i];
        proof {
            assert(pipes@.take(i as int + 1).drop_last() =~= pipes@.take(i as int));
            assert(pipes@.take(i as int + 1).last() == pipes@[i as int]);
        }
        if p.upper.x >= CUTOFF_X {
            out.push(p);
        }
        i = i + 1;
    }
    proof {
        assert(pipes@.take(pipes@.len() as int) =~= pipes@);
    }
    out
}

/// One tick of motion translates a pair by exactly speed times the
/// tick duration, strictly leftward whenever any time passed.
pub proof fn lemma_move_strictly_decreases(p: Pipe, dt: u64)
    requires
        CUTOFF_X as int <= p.x() <= SPAWN_X as int,
        0 < dt <= PERIOD,
    ensures
        moved_pipe(p, dt).x() == p.x() - SPEED * dt,
        moved_pipe(p, dt).x() < p.x(),
{
}

/// Scripted motion composes: moving a pair for `a` and then for `b`
/// sub-units of time lands where one move over `a + b` does, so a
/// pair's position depends only on the total time elapsed, not on how
/// it was split into ticks.
pub proof fn lemma_move_compose(p: Pipe, a: u64, b: u64)
    requires
        CUTOFF_X as int <= p.x() <= SPAWN_X as int,
        p.upper.x == p.lower.x,
        a <= PERIOD,
        b <= PERIOD,
    ensures
        moved_pipe(moved_pipe(p, a), b) == moved_pipe(p, (a + b) as u64),
{
}

/// The reaper destroys only pairs behind the cutoff: every pair at or
/// beyond it survives the pass.
pub proof fn lemma_reap_keeps(s: Seq<Pipe>, i: int)
    requires
        0 <= i < s.len(),
        s[i].x() >= CUTOFF_X as int,
    ensures
        reap_seq(s).contains(s[i]),
    decreases s.len(),
{
    let r = reap_seq(s);
    if i == s.len() - 1 {
        assert(r.last() == s[i]);
        assert(r.contains(s[i]));
    } else {
        lemma_reap_keeps(s.drop_last(), i);
        let r0 = reap_seq(s.drop_last());
        let j = choose|j: int| 0 <= j < r0.len() && r0[j] == s[i];
        if s.last().x() >= CUTOFF_X as int {
            assert(r[j] == s[i]);
        } else {
            assert(r == r0);
        }
        assert(r.contains(s[i]));
    }
}

/// A pair spawned at the spawn coordinate crosses the cutoff exactly
/// when more than (spawn minus cutoff) over speed — seven time units
/// — of scripted motion have elapsed.
pub proof fn lemma_cutoff_time(t: int)
    requires
        t >= 0,
    ensures
        (SPAWN_X - SPEED * t < CUTOFF_X) <==> (t > 7 * SCALE),
{
}

} // verus!
