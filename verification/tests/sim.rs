use flappy_core::input::InputState;
use flappy_core::pipes::despawn_pipes;
use flappy_core::pipes::move_pipes;
use flappy_core::pipes::spawn_pipe;
use flappy_core::player::FlapController;
use flappy_core::spawner::Spawner;
use flappy_core::units::CUTOFF_X;
use flappy_core::units::GAP_MAX;
use flappy_core::units::GAP_MIN;
use flappy_core::units::GROUND_ID;
use flappy_core::units::SPAWN_X;
use flappy_core::world::ColliderStatus;
use flappy_core::world::SpawnError;
use flappy_core::world::World;

fn no_keys() -> InputState {
    InputState::none()
}

fn flap_pressed() -> InputState {
    InputState { flap_just_pressed: true, flap_held: true, ..InputState::none() }
}

fn flap_held() -> InputState {
    InputState { flap_held: true, ..InputState::none() }
}

#[test]
fn flap_charge_sequence() {
    // One rising edge followed by holding: 16, 8, 4, 2, 1, 0.5 units.
    let mut c = FlapController::new();
    let expected = [16384i64, 8192, 4096, 2048, 1024, 512];
    let (_, dy0) = c.flap(&flap_pressed());
    assert_eq!(dy0, expected[0]);
    for e in &expected[1..] {
        let (_, dy) = c.flap(&flap_held());
        assert_eq!(dy, *e);
    }
}

#[test]
fn flap_repress_resets_sequence() {
    let mut c = FlapController::new();
    c.flap(&flap_pressed());
    c.flap(&flap_held());
    c.flap(&flap_held());
    // Mid-decay rising edge: the sequence restarts at 16, 8, ...
    let (_, dy) = c.flap(&flap_pressed());
    assert_eq!(dy, 16384);
    let (_, dy) = c.flap(&flap_held());
    assert_eq!(dy, 8192);
}

#[test]
fn flap_released_gives_nothing() {
    let mut c = FlapController::new();
    c.flap(&flap_pressed());
    let (_, dy) = c.flap(&no_keys());
    assert_eq!(dy, 0);
}

#[test]
fn horizontal_cancels_to_zero() {
    // Both direction keys held at once net exactly zero.
    let mut c = FlapController::new();
    let inp = InputState { left_held: true, right_held: true, ..InputState::none() };
    let (dx, _) = c.flap(&inp);
    assert_eq!(dx, 0);
}

#[test]
fn horizontal_single_keys() {
    let mut c = FlapController::new();
    let (dx, _) = c.flap(&InputState { left_held: true, ..InputState::none() });
    assert_eq!(dx, -1024);
    let (dx, _) = c.flap(&InputState { right_held: true, ..InputState::none() });
    assert_eq!(dx, 1024);
}

#[test]
fn descend_adds_small_downward_impulse() {
    let mut c = FlapController::new();
    let (_, dy) = c.flap(&InputState { descend_held: true, ..InputState::none() });
    assert_eq!(dy, -512);
}

#[test]
fn spawned_pipe_geometry() {
    let p = spawn_pipe(5000, 7);
    assert_eq!(p.upper.x, SPAWN_X);
    assert_eq!(p.lower.x, SPAWN_X);
    assert_eq!(p.upper.y, 5000 + 1536);
    assert_eq!(p.lower.y, 5000 - 1536);
    assert_eq!(p.upper.id, 7);
    assert_eq!(p.lower.id, 8);
}

#[test]
fn children_share_x_for_whole_lifetime() {
    let mut pipes = vec![spawn_pipe(0, 1)];
    for _ in 0..20 {
        pipes = move_pipes(&pipes, 512);
        assert_eq!(pipes[0].upper.x, pipes[0].lower.x);
        assert_eq!(pipes[0].upper.y - pipes[0].lower.y, 3072);
    }
}

#[test]
fn pipe_moves_at_speed_times_dt() {
    // Speed 10 over one time unit: 10 units leftward.
    let pipes = vec![spawn_pipe(0, 1)];
    let moved = move_pipes(&pipes, 1024);
    assert_eq!(moved[0].upper.x, SPAWN_X - 10240);
}

#[test]
fn pipe_destroyed_just_past_cutoff() {
    // From the spawn coordinate the cutoff is reached after exactly
    // seven time units; the pair is destroyed by the next pass after.
    let mut pipes = vec![spawn_pipe(0, 1)];
    for _ in 0..7 {
        pipes = move_pipes(&pipes, 1024);
    }
    assert_eq!(pipes[0].upper.x, CUTOFF_X);
    pipes = despawn_pipes(&pipes);
    assert_eq!(pipes.len(), 1);
    pipes = move_pipes(&pipes, 1);
    pipes = despawn_pipes(&pipes);
    assert_eq!(pipes.len(), 0);
}

#[test]
fn spawn_cadence_counts_whole_periods() {
    let mut s = Spawner::new();
    let mut spawned = 0u64;
    for _ in 0..12 {
        if s.advance(683) {
            spawned += 1;
        }
    }
    // 12 * 683 = 8196 elapsed; floor(8196 / 2048) = 4.
    assert_eq!(spawned, 4);
    assert_eq!(s.count, 4);
}

#[test]
fn spawn_cadence_ignores_tick_granularity() {
    let mut a = Spawner::new();
    let mut b = Spawner::new();
    let mut ca = 0u64;
    let mut cb = 0u64;
    // The same total elapsed time under two different partitions.
    for dt in [100u64, 1948, 2000, 48, 1024, 1024] {
        if a.advance(dt) {
            ca += 1;
        }
    }
    for _ in 0..3 {
        if b.advance(2048) {
            cb += 1;
        }
    }
    assert_eq!(ca, cb);
    assert_eq!(ca, 3);
    assert_eq!(a.acc, b.acc);
}

#[test]
fn world_spawns_on_period_and_offset_in_range() {
    let mut w = World::new();
    let contacts: Vec<u64> = Vec::new();
    let r1 = w.tick(1024, &no_keys(), &contacts, ColliderStatus::Ready);
    assert!(!r1.spawned);
    assert_eq!(w.pipes.len(), 0);
    let r2 = w.tick(1024, &no_keys(), &contacts, ColliderStatus::Ready);
    assert!(r2.spawned);
    assert_eq!(w.pipes.len(), 1);
    let p = &w.pipes[0];
    assert_eq!(p.upper.x, SPAWN_X);
    assert_eq!(p.upper.x, p.lower.x);
    // The randomized gap center lies in the configured range.
    let center = p.lower.y + 1536;
    assert!(GAP_MIN <= center && center < GAP_MAX);
}

#[test]
fn world_cadence_no_drift() {
    let mut w = World::new();
    let contacts: Vec<u64> = Vec::new();
    for _ in 0..8 {
        w.tick(1024, &no_keys(), &contacts, ColliderStatus::Ready);
    }
    // 8 time units at one spawn per 2: four pairs, none reaped yet.
    assert_eq!(w.spawner.count, 4);
    assert_eq!(w.pipes.len(), 4);
}

#[test]
fn spawn_skipped_while_asset_pending() {
    let mut w = World::new();
    let contacts: Vec<u64> = Vec::new();
    let r = w.tick(2048, &no_keys(), &contacts, ColliderStatus::AssetPending);
    assert!(!r.spawned);
    assert_eq!(r.spawn_error, Some(SpawnError::AssetPending));
    assert_eq!(w.pipes.len(), 0);
    // The attempt is retried next interval and then succeeds.
    let r = w.tick(2048, &no_keys(), &contacts, ColliderStatus::Ready);
    assert!(r.spawned);
    assert_eq!(w.pipes.len(), 1);
}

#[test]
fn spawn_skipped_on_collider_failure() {
    let mut w = World::new();
    let contacts: Vec<u64> = Vec::new();
    let r = w.tick(2048, &no_keys(), &contacts, ColliderStatus::BuildFailed);
    assert!(!r.spawned);
    assert_eq!(r.spawn_error, Some(SpawnError::ColliderFailed));
    // The simulation carries on.
    let r = w.tick(1024, &no_keys(), &contacts, ColliderStatus::Ready);
    assert_eq!(r.spawn_error, None);
}

#[test]
fn ground_contact_resets_same_tick() {
    let mut w = World::new();
    let contacts = vec![GROUND_ID];
    let r = w.tick(1024, &no_keys(), &contacts, ColliderStatus::Ready);
    assert!(r.reset_applied);
    assert_eq!(w.player.pos.y, 0);
    assert_eq!(w.player.vel.y, 0);
}

#[test]
fn pipe_contact_resets_same_tick() {
    let mut w = World::new();
    let contacts: Vec<u64> = Vec::new();
    w.tick(2048, &no_keys(), &contacts, ColliderStatus::Ready);
    assert_eq!(w.pipes.len(), 1);
    let lower_id = w.pipes[0].lower.id;
    let touching = vec![lower_id];
    let r = w.tick(512, &no_keys(), &touching, ColliderStatus::Ready);
    assert!(r.reset_applied);
    assert_eq!(w.player.pos.y, 0);
    assert_eq!(w.player.vel.y, 0);
}

#[test]
fn unknown_contact_does_not_reset() {
    let mut w = World::new();
    let contacts = vec![999u64];
    let r = w.tick(1024, &no_keys(), &contacts, ColliderStatus::Ready);
    assert!(!r.reset_applied);
    assert!(w.player.vel.y < 0);
}

#[test]
fn manual_reset_key_resets() {
    let mut w = World::new();
    let contacts: Vec<u64> = Vec::new();
    w.tick(1024, &no_keys(), &contacts, ColliderStatus::Ready);
    let reset = InputState { reset_just_pressed: true, ..InputState::none() };
    let r = w.tick(1024, &reset, &contacts, ColliderStatus::Ready);
    assert!(r.reset_applied);
    assert_eq!(w.player.pos.x, 0);
    assert_eq!(w.player.pos.y, 0);
    assert_eq!(w.player.pos.z, 0);
    assert_eq!(w.player.vel.x, 0);
    assert_eq!(w.player.vel.y, 0);
}

#[test]
fn many_reset_events_apply_once() {
    let mut w = World::new();
    let contacts: Vec<u64> = Vec::new();
    // Disturb the player first so the reset is observable.
    w.tick(1024, &flap_pressed(), &contacts, ColliderStatus::Ready);
    assert!(w.player.vel.y != 0);
    w.enqueue_reset();
    w.enqueue_reset();
    w.enqueue_reset();
    w.apply_resets();
    assert_eq!(w.player.pos.y, 0);
    assert_eq!(w.player.vel.y, 0);
    assert_eq!(w.events.len(), 0);
    // Applying with an empty queue changes nothing further.
    w.apply_resets();
    assert_eq!(w.player.vel.y, 0);
}

#[test]
fn gravity_tick_exact_values() {
    let mut w = World::new();
    let contacts: Vec<u64> = Vec::new();
    w.tick(1024, &no_keys(), &contacts, ColliderStatus::Ready);
    // One time unit of gravity: velocity -49 units, position follows.
    assert_eq!(w.player.vel.y, -50176);
    assert_eq!(w.player.pos.y, -50176);
    assert_eq!(w.player.vel.x, 0);
}

#[test]
fn flap_tick_exact_velocity() {
    let mut w = World::new();
    let contacts: Vec<u64> = Vec::new();
    let r = w.tick(1024, &flap_pressed(), &contacts, ColliderStatus::Ready);
    assert!(!r.reset_applied);
    // 16 units of flap minus 49 of gravity over one time unit.
    assert_eq!(w.player.vel.y, 16384 - 50176);
}

#[test]
fn end_to_end_spawn_fall_reset() {
    let mut w = World::new();
    // The player spawns at rest at the canonical spawn transform.
    assert_eq!(w.player.pos.x, 0);
    assert_eq!(w.player.pos.y, 0);
    assert_eq!(w.player.pos.z, 0);
    assert_eq!(w.player.vel.y, 0);
    let contacts: Vec<u64> = Vec::new();
    // One tick with no input: vertical velocity decreases under
    // gravity, horizontal velocity is untouched.
    w.tick(512, &no_keys(), &contacts, ColliderStatus::Ready);
    assert!(w.player.vel.y < 0);
    assert_eq!(w.player.vel.x, 0);
    // After a reset both return exactly to the spawn state.
    let reset = InputState { reset_just_pressed: true, ..InputState::none() };
    w.tick(512, &reset, &contacts, ColliderStatus::Ready);
    assert_eq!(w.player.pos.x, 0);
    assert_eq!(w.player.pos.y, 0);
    assert_eq!(w.player.pos.z, 0);
    assert_eq!(w.player.vel.x, 0);
    assert_eq!(w.player.vel.y, 0);
    assert_eq!(w.player.vel.z, 0);
}

#[test]
fn deterministic_tick_places_pipe_at_offset() {
    let mut w = World::new();
    let contacts: Vec<u64> = Vec::new();
    let r = w.tick_with_offset(2048, &no_keys(), &contacts, ColliderStatus::Ready, -7000);
    assert!(r.spawned);
    assert_eq!(w.pipes[0].upper.y, -7000 + 1536);
    assert_eq!(w.pipes[0].lower.y, -7000 - 1536);
    assert_eq!(w.pipes[0].upper.id, 1);
    assert_eq!(w.pipes[0].lower.id, 2);
    assert_eq!(w.next_id, 3);
}
