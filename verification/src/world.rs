//! The simulation world and its per-tick orchestration: input to
//! impulse, physics integration, obstacle translation, cadenced
//! spawning, despawning behind the cutoff, and the collision-reset
//! pipeline.
//!
//! The physics collaborator's contact query and the input
//! collaborator's key snapshot enter [`World::tick`] as plain
//! values; the randomized gap offset of a spawn is drawn inside it.

use vstd::prelude::*;
use crate::input::InputState;
use crate::pipes::Kill;
use crate::pipes::Pipe;
use crate::pipes::despawn_pipes;
use crate::pipes::move_pipes;
use crate::pipes::moved_pipe;
use crate::pipes::moved_seq;
use crate::pipes::reap_seq;
use crate::pipes::spawn_pipe;
use crate::pipes::spawned_pipe_at;
use crate::player::FlapController;
use crate::player::PlayerBody;
use crate::player::Vec3Fx;
use crate::player::charge_after;
use crate::player::horizontal_impulse;
use crate::player::spawn_player;
use crate::player::vertical_impulse;
use crate::spawner::Spawner;
use crate::units::fx_mul;
use crate::units::COORD_LIMIT;
use crate::units::CUTOFF_X;
use crate::units::GAP_MAX;
use crate::units::GAP_MIN;
use crate::units::GRAVITY_Y;
use crate::units::GROUND_HALF_X;
use crate::units::GROUND_HALF_Y;
use crate::units::GROUND_HALF_Z;
use crate::units::GROUND_ID;
use crate::units::GROUND_Y;
use crate::units::PERIOD;
use crate::units::SPAWN_X;

verus! {

/// The single static lethal floor body.
#[derive(Clone, Copy, PartialEq, Eq, Structural)]
pub struct Ground {
    pub id: u64,
    pub y: i64,
    pub half_x: i64,
    pub half_y: i64,
    pub half_z: i64,
    pub kill: Kill,
}

/// One-shot ground spawner: a static axis-aligned box sized to the
/// rendered ground footprint, below the player's spawn point, tagged
/// lethal.
pub fn spawn_ground() -> (g: Ground)
    ensures
        g == (Ground {
            id: GROUND_ID,
            y: GROUND_Y,
            half_x: GROUND_HALF_X,
            half_y: GROUND_HALF_Y,
            half_z: GROUND_HALF_Z,
            kill: Kill,
        }),
{
    Ground {
        id: GROUND_ID,
        y: GROUND_Y,
        half_x: GROUND_HALF_X,
        half_y: GROUND_HALF_Y,
        half_z: GROUND_HALF_Z,
        kill: Kill,
    }
}

/// A queued "restore the player to spawn state" signal.
#[derive(Clone, Copy, PartialEq, Eq, Structural)]
pub struct ResetEvent;

/// What the asset and physics collaborators can say about the
/// obstacle collider when a spawn interval completes.
#[derive(Clone, Copy, PartialEq, Eq, Structural, Debug)]
pub enum ColliderStatus {
    /// The obstacle mesh is loaded and a collider was derived.
    Ready,
    /// The obstacle mesh has not finished loading.
    AssetPending,
    /// Triangle-mesh collider construction failed for loaded data.
    BuildFailed,
}

/// Why one spawn attempt was abandoned. Either way the attempt is
/// retried next interval; no error is fatal.
#[derive(Clone, Copy, PartialEq, Eq, Structural, Debug)]
pub enum SpawnError {
    AssetPending,
    ColliderFailed,
}

/// What one tick did: whether a pair was spawned, why a due spawn
/// attempt was abandoned, and whether the reset was applied.
pub struct TickReport {
    pub spawned: bool,
    pub spawn_error: Option<SpawnError>,
    pub reset_applied: bool,
}

/// Relies on rand::rngs::ThreadRng's Rng::gen_range: returns a
/// uniformly distributed value of the given half-open range; panics
/// only when the range is empty.
#[verifier::external_body]
fn draw_in_range(lo: i64, hi: i64) -> (r: i64)
    requires
        lo < hi,
    ensures
        lo <= r < hi,
{
    rand::Rng::gen_range(&mut rand::thread_rng(), lo..hi)
}

/// Whether the entity `id` carries the lethal marker: it is the
/// ground or one of the live pipe segments, all of which are tagged.
pub open spec fn is_lethal_id(pipes: Seq<Pipe>, ground: Ground, id: u64) -> bool {
    ||| id == ground.id
    ||| exists|i: int|
        0 <= i < pipes.len() && ((#[trigger] pipes[i]).upper.id == id || pipes[i].lower.id == id)
}

/// Whether the contact set holds any lethal entity.
pub open spec fn any_lethal(pipes: Seq<Pipe>, ground: Ground, contacts: Seq<u64>) -> bool {
    exists|i: int| 0 <= i < contacts.len() && is_lethal_id(pipes, ground, #[trigger] contacts[i])
}

/// Whether this tick's reset is fired: the manual reset key saw a
/// rising edge, or the player's contact set holds a lethal entity.
pub open spec fn reset_fired(
    pipes: Seq<Pipe>,
    ground: Ground,
    input: InputState,
    contacts: Seq<u64>,
) -> bool {
    input.reset_just_pressed || any_lethal(pipes, ground, contacts)
}

/// Whether a spawn interval completes during a tick of length `dt`.
pub open spec fn spawn_due(w: World, dt: u64) -> bool {
    w.spawner.acc + dt >= PERIOD
}

/// What a tick requires of the world it starts from: the invariant,
/// a tick no longer than one spawn period, and coordinates far
/// enough from the machine limits that one step cannot overflow.
pub open spec fn tick_pre(w: World, dt: u64) -> bool {
    &&& w.wf()
    &&& dt <= PERIOD
    &&& -COORD_LIMIT <= w.player.pos.x <= COORD_LIMIT
    &&& -COORD_LIMIT <= w.player.pos.y <= COORD_LIMIT
    &&& -COORD_LIMIT <= w.player.vel.x <= COORD_LIMIT
    &&& -COORD_LIMIT <= w.player.vel.y <= COORD_LIMIT
    &&& w.next_id < u64::MAX - 1
    &&& w.spawner.count < u64::MAX
}

/// Everything one tick guarantees, except for the exact gap center
/// of a newly spawned pair: how the report reflects the spawn
/// attempt, how obstacles moved and were reaped, how the spawner and
/// the flap charge advanced, and that the player either integrated
/// one step of impulse and gravity or, exactly when a reset fired,
/// sits at the canonical spawn state.
pub open spec fn tick_post(
    w0: World,
    w1: World,
    report: TickReport,
    dt: u64,
    input: InputState,
    contacts: Seq<u64>,
    collider: ColliderStatus,
) -> bool {
    let due = spawn_due(w0, dt);
    let fired = reset_fired(w1.pipes@, w0.ground, input, contacts);
    &&& w1.wf()
    &&& w1.ground == w0.ground
    &&& report.spawned == (due && collider == ColliderStatus::Ready)
    &&& report.spawn_error == (if due && collider == ColliderStatus::AssetPending {
        Some(SpawnError::AssetPending)
    } else if due && collider == ColliderStatus::BuildFailed {
        Some(SpawnError::ColliderFailed)
    } else {
        None::<SpawnError>
    })
    &&& !report.spawned ==> w1.pipes@ == reap_seq(moved_seq(w0.pipes@, dt))
    &&& report.spawned ==> w1.next_id == w0.next_id + 2
    &&& !report.spawned ==> w1.next_id == w0.next_id
    &&& w1.spawner.total@ == w0.spawner.total@ + dt
    &&& w1.spawner.count as int == w0.spawner.count as int + (if due {
        1int
    } else {
        0int
    })
    &&& w1.controller.charge as int == charge_after(input, w0.controller.charge as int)
    &&& report.reset_applied == fired
    &&& fired ==> w1.player == spawn_player()
    &&& !fired ==> {
        &&& w1.player.vel.x as int == w0.player.vel.x + horizontal_impulse(input)
        &&& w1.player.vel.y as int == w0.player.vel.y + vertical_impulse(
            input,
            w0.controller.charge as int,
        ) + fx_mul(GRAVITY_Y as int, dt as int)
        &&& w1.player.pos.x as int == w0.player.pos.x + fx_mul(
            w1.player.vel.x as int,
            dt as int,
        )
        &&& w1.player.pos.y as int == w0.player.pos.y + fx_mul(
            w1.player.vel.y as int,
            dt as int,
        )
        &&& w1.player.pos.z == 0
        &&& w1.player.vel.z == 0
        &&& w1.player.impulse == Vec3Fx::spec_zero()
    }
    &&& w1.events@.len() == 0
}

/// The whole simulation state: the singleton player and ground, the
/// live obstacle pairs, the per-system scalar state, and the reset
/// event queue, drained once per tick.
pub struct World {
    pub player: PlayerBody,
    pub controller: FlapController,
    pub spawner: Spawner,
    pub pipes: Vec<Pipe>,
    pub ground: Ground,
    pub next_id: u64,
    pub events: Vec<ResetEvent>,
}

impl World {
    /// World invariant between ticks: the player is well formed with
    /// an empty impulse accumulator, every live pair is well formed
    /// and between the cutoff and the spawn coordinate, the spawner
    /// and controller invariants hold, fresh ids start after the
    /// ground's, and the event queue is drained.
    pub open spec fn wf(self) -> bool {
        &&& self.player.wf()
        &&& self.player.impulse == Vec3Fx::spec_zero()
        &&& forall|i: int| 0 <= i < self.pipes@.len() ==> (#[trigger] self.pipes@[i]).wf()
        &&& forall|i: int|
            0 <= i < self.pipes@.len() ==> CUTOFF_X as int <= (#[trigger] self.pipes@[i]).x()
                <= SPAWN_X as int
        &&& self.spawner.wf()
        &&& self.controller.wf()
        &&& self.next_id >= 1
        &&& self.events@.len() == 0
    }

    /// Start of the simulation: the player at rest at the spawn
    /// state, the ground spawned, no obstacles, nothing elapsed.
    pub fn new() -> (w: World)
        ensures
            w.wf(),
            w.player == spawn_player(),
            w.pipes@.len() == 0,
            w.spawner.acc == 0,
            w.spawner.count == 0,
            w.spawner.total@ == 0,
            w.controller.charge == 0,
            w.ground == spawn_ground_state(),
            w.next_id == 1,
    {
        World {
            player: PlayerBody::spawn(),
            controller: FlapController::new(),
            spawner: Spawner::new(),
            pipes: Vec::new(),
            ground: spawn_ground(),
            next_id: 1,
            events: Vec::new(),
        }
    }

    /// One simulation tick, deterministic: the gap-center offset a
    /// spawn would use is supplied by the caller instead of drawn.
    /// Runs the controller, the physics integration, the obstacle
    /// mover, reaper and spawner, and the collision-reset pipeline,
    /// in that order.
    pub fn tick_with_offset(
        &mut self,
        dt: u64,
        input: &InputState,
        contacts: &Vec<u64>,
        collider: ColliderStatus,
        offset: i64,
    ) -> (report: TickReport)
        requires
            tick_pre(*old(self), dt),
            GAP_MIN <= offset < GAP_MAX,
        ensures
            tick_post(*old(self), *final(self), report, dt, *input, contacts@, collider),
            report.spawned ==> final(self).pipes@ == reap_seq(
                moved_seq(old(self).pipes@, dt),
            ).push(spawned_pipe_at(offset as int, old(self).next_id)),
    {
        let ghost w0 = *old(self);
        let ghost movedv = moved_seq(w0.pipes@, dt);
        // player controller: map the key snapshot to one impulse
        let imp = self.controller.flap(input);
        self.player.apply_impulse(imp.0, imp.1);
        // physics collaborator: fold impulse and gravity into the body
        self.player.integrate(dt);
        // obstacle mover: constant leftward speed, scripted
        let moved = move_pipes(&self.pipes, dt);
        self.pipes = moved;
        proof {
            assert forall|j: int|
                0 <= j < movedv.len() implies ((#[trigger] movedv[j]).wf() && movedv[j].x()
                <= SPAWN_X as int) by {
                let p0 = w0.pipes@[j];
                assert(p0.wf());
                assert(CUTOFF_X as int <= p0.x() <= SPAWN_X as int);
                assert(movedv[j] == moved_pipe(p0, dt));
            }
        }
        // obstacle reaper: destroy pairs behind the cutoff
        let kept = despawn_pipes(&self.pipes);
        self.pipes = kept;
        proof {
            assert forall|i: int|
                0 <= i < self.pipes@.len() implies ((#[trigger] self.pipes@[i]).wf()
                && CUTOFF_X as int <= self.pipes@[i].x() <= SPAWN_X as int) by {
                let pv = self.pipes@[i];
                assert(movedv.contains(pv));
                let j = choose|j: int| 0 <= j < movedv.len() && movedv[j] == pv;
                assert(movedv[j].wf() && movedv[j].x() <= SPAWN_X as int);
            }
        }
        // obstacle spawner: accumulate elapsed time, spawn when due
        let due = self.spawner.advance(dt);
        let mut spawned = false;
        let mut spawn_error: Option<SpawnError> = None;
        if due {
            match collider {
                ColliderStatus::Ready => {
                    let p = spawn_pipe(offset, self.next_id);
                    self.pipes.push(p);
                    self.next_id = self.next_id + 2;
                    spawned = true;
                },
                ColliderStatus::AssetPending => {
                    spawn_error = Some(SpawnError::AssetPending);
                },
                ColliderStatus::BuildFailed => {
                    spawn_error = Some(SpawnError::ColliderFailed);
                },
            }
        }
        // reset producers: manual key edge and death detection
        if input.reset_just_pressed {
            self.enqueue_reset();
        }
        let hit = self.any_lethal_contact(contacts);
        if hit {
            self.enqueue_reset();
        }
        let fired = input.reset_just_pressed || hit;
        // reset consumer: drain the queue, restoring the spawn state
        // at most once
        self.apply_resets();
        TickReport { spawned, spawn_error, reset_applied: fired }
    }

    /// One simulation tick: draws the randomized gap-center offset
    /// for a spawn that comes due, then behaves exactly as
    /// [`World::tick_with_offset`]; the offset of a spawned pair is
    /// uniformly distributed over the spawn range.
    pub fn tick(
        &mut self,
        dt: u64,
        input: &InputState,
        contacts: &Vec<u64>,
        collider: ColliderStatus,
    ) -> (report: TickReport)
        requires
            tick_pre(*old(self), dt),
        ensures
            tick_post(*old(self), *final(self), report, dt, *input, contacts@, collider),
            report.spawned ==> exists|off: int|
                GAP_MIN as int <= off < GAP_MAX as int && final(self).pipes@ == reap_seq(
                    moved_seq(old(self).pipes@, dt),
                ).push(#[trigger] spawned_pipe_at(off, old(self).next_id)),
    {
        let offset = draw_in_range(GAP_MIN, GAP_MAX);
        let report = self.tick_with_offset(dt, input, contacts, collider, offset);
        proof {
            if report.spawned {
                assert(GAP_MIN as int <= offset as int);
                assert((offset as int) < (GAP_MAX as int));
                assert(self.pipes@ == reap_seq(moved_seq(old(self).pipes@, dt)).push(
                    spawned_pipe_at(offset as int, old(self).next_id),
                ));
            }
        }
        report
    }

    /// Whether `id` is lethal in the current world.
    pub fn lethal(&self, id: u64) -> (r: bool)
        ensures
            r == is_lethal_id(self.pipes@, self.ground, id),
    {
        if id == self.ground.id {
            return true;
        }
        let mut i: usize = 0;
        while i < self.pipes.len()
            invariant
                0 <= i <= self.pipes@.len(),
                forall|j: int|
                    0 <= j < i ==> (#[trigger] self.pipes@[j]).upper.id != id
                        && self.pipes@[j].lower.id != id,
            decreases self.pipes@.len() - i,
        {
            let p = &self.pipes[i];
            if p.upper.id == id || p.lower.id == id {
                return true;
            }
            i = i + 1;
        }
        false
    }

    /// Death detection: whether the player's current contact set
    /// holds any lethal entity. Scanning stops at the first hit; one
    /// reset per tick is enough.
    pub fn any_lethal_contact(&self, contacts: &Vec<u64>) -> (r: bool)
        ensures
            r == any_lethal(self.pipes@, self.ground, contacts@),
    {
        let mut i: usize = 0;
        while i < contacts.len()
            invariant
                0 <= i <= contacts@.len(),
                forall|j: int|
                    0 <= j < i ==> !is_lethal_id(self.pipes@, self.ground, #[trigger] contacts@[j]),
            decreases contacts@.len() - i,
        {
            if self.lethal(contacts[i]) {
                return true;
            }
            i = i + 1;
        }
        false
    }

    /// Enqueue one reset event.
    pub fn enqueue_reset(&mut self)
        ensures
            final(self).events@.len() == old(self).events@.len() + 1,
            same_but_events(*old(self), *final(self)),
    {
        self.events.push(ResetEvent);
    }

    /// The consumer of the reset queue: if any reset event is
    /// queued, restore the player to the spawn state — position to
    /// the canonical spawn transform, velocity to zero — exactly
    /// once, however many events were queued; then drain the queue.
    pub fn apply_resets(&mut self)
        ensures
            final(self).events@.len() == 0,
            old(self).events@.len() >= 1 ==> final(self).player == spawn_player(),
            old(self).events@.len() == 0 ==> final(self).player == old(self).player,
            final(self).pipes@ == old(self).pipes@,
            final(self).ground == old(self).ground,
            final(self).next_id == old(self).next_id,
            final(self).controller.charge == old(self).controller.charge,
            spawner_eq(final(self).spawner, old(self).spawner),
    {
        if self.events.len() > 0 {
            self.player.reset();
        }
        self.events = Vec::new();
    }
}

/// The ground body the one-shot spawner creates.
pub open spec fn spawn_ground_state() -> Ground {
    Ground {
        id: GROUND_ID,
        y: GROUND_Y,
        half_x: GROUND_HALF_X,
        half_y: GROUND_HALF_Y,
        half_z: GROUND_HALF_Z,
        kill: Kill,
    }
}

/// In any well-formed world, the two children of every live obstacle
/// pair share their horizontal position; spawning establishes this
/// and every tick preserves it.
pub proof fn lemma_world_children_aligned(w: World)
    requires
        w.wf(),
    ensures
        forall|i: int|
            0 <= i < w.pipes@.len() ==> (#[trigger] w.pipes@[i]).upper.x == w.pipes@[i].lower.x,
{
}

/// In any well-formed world the spawn cadence has not drifted: the
/// completed spawn intervals are exactly the total elapsed time
/// divided by the period, rounded down, whatever the tick sizes were.
pub proof fn lemma_world_cadence(w: World)
    requires
        w.wf(),
    ensures
        w.spawner.count as int == w.spawner.total@ as int / PERIOD as int,
{
    crate::spawner::lemma_spawn_cadence(w.spawner);
}

/// Equality of spawner states, ghost elapsed time included.
pub open spec fn spawner_eq(a: Spawner, b: Spawner) -> bool {
    a.acc == b.acc && a.count == b.count && a.total@ == b.total@
}

/// Equality of everything but the event queue.
pub open spec fn same_but_events(a: World, b: World) -> bool {
    &&& a.player == b.player
    &&& a.pipes@ == b.pipes@
    &&& a.ground == b.ground
    &&& a.next_id == b.next_id
    &&& a.controller.charge == b.controller.charge
    &&& spawner_eq(a.spawner, b.spawner)
}

} // verus!
