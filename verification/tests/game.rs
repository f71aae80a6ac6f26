use space_fighters::explosion::{EXPLOSION_FRAMES, Explosion, ExplosionRequest, FrameTimer};
use space_fighters::geom::{Aabb, Vec2i};
use space_fighters::mover::{move_enemies, move_enemy, move_laser, move_lasers};
use space_fighters::resolver::{enemy_laser_hit_player, laser_hit_enemy, resolve_hits};
use space_fighters::spawner::{Speed, enemy_fire, enemy_spawn};
use space_fighters::state::{AppState, GameState, MAX_ENEMIES, PlayerState};

fn aabb(x: i32, y: i32, w: i32, h: i32) -> Aabb {
    Aabb { center: Vec2i { x, y }, width: w, height: h }
}

#[test]
fn spawner_admits_one_enemy_below_the_cap() {
    let mut s = GameState::new(3, 50);
    let r = enemy_spawn(&mut s, 1200, 800);
    // Just inside the top-left corner of a 1200x800 window.
    assert_eq!(r, Some(Vec2i { x: -550, y: 350 }));
    assert_eq!(s.active_enemies, 1);
    assert_eq!(s.enemies_left, 50);
    assert_eq!(s.app, AppState::InGame);
}

#[test]
fn spawner_never_exceeds_the_cap() {
    let mut s = GameState::new(3, 50);
    for _ in 0..(MAX_ENEMIES + 5) {
        let before = s.active_enemies;
        let r = enemy_spawn(&mut s, 1200, 800);
        // After every run the count is min(previous + admitted, cap).
        assert_eq!(s.active_enemies, (before + r.map_or(0, |_| 1)).min(MAX_ENEMIES));
        assert!(s.active_enemies <= MAX_ENEMIES);
    }
    assert_eq!(s.active_enemies, MAX_ENEMIES);
    assert_eq!(enemy_spawn(&mut s, 1200, 800), None);
    assert_eq!(s.active_enemies, MAX_ENEMIES);
}

#[test]
fn gameover_transition_is_idempotent() {
    let mut s = GameState { app: AppState::InGame, lives_left: 0, enemies_left: 7, active_enemies: 2 };
    s.to_gameover();
    let once = s;
    s.to_gameover();
    assert_eq!(s, once);
    assert_eq!(s.app, AppState::Gameover);
    assert_eq!(s.lives_left, 0);
    assert_eq!(s.enemies_left, 7);
    assert_eq!(s.active_enemies, 2);
}

#[test]
fn many_lasers_destroy_one_enemy_exactly_once() {
    // Three lasers overlap the same enemy in the same tick.
    let enemy = aabb(0, 0, 20, 20);
    let lasers = vec![aabb(-2, 0, 10, 10), aabb(0, 3, 10, 10), aabb(4, -1, 10, 10)];
    let enemies = vec![enemy];
    let mut s = GameState { app: AppState::InGame, lives_left: 3, enemies_left: 9, active_enemies: 4 };
    let r = laser_hit_enemy(&mut s, &lasers, &enemies);
    // The enemy is destroyed and counted exactly once...
    assert_eq!(r.target_destroyed, vec![true]);
    assert_eq!(r.explosions, vec![Vec2i { x: 0, y: 0 }]);
    assert_eq!(s.enemies_left, 8);
    assert_eq!(s.active_enemies, 3);
    // ...while all three lasers are spent.
    assert_eq!(r.laser_destroyed, vec![true, true, true]);
    assert_eq!(s.app, AppState::InGame);
}

#[test]
fn one_laser_destroys_every_enemy_it_overlaps() {
    let laser = aabb(0, 0, 40, 40);
    let enemies = vec![aabb(-10, 0, 10, 10), aabb(10, 5, 10, 10), aabb(200, 0, 10, 10)];
    let r = resolve_hits(&vec![laser], &enemies);
    assert_eq!(r.target_destroyed, vec![true, true, false]);
    assert_eq!(r.laser_destroyed, vec![true]);
    assert_eq!(
        r.explosions,
        vec![Vec2i { x: -10, y: 0 }, Vec2i { x: 10, y: 5 }]
    );
}

#[test]
fn missing_everything_destroys_nothing() {
    let r = resolve_hits(&vec![aabb(0, 0, 4, 4)], &vec![aabb(100, 100, 4, 4)]);
    assert_eq!(r.target_destroyed, vec![false]);
    assert_eq!(r.laser_destroyed, vec![false]);
    assert!(r.explosions.is_empty());
}

#[test]
fn last_enemy_destroyed_ends_the_game() {
    // One enemy left in the level, one player laser overlapping it.
    let enemy = aabb(30, 40, 20, 20);
    let lasers = vec![aabb(32, 38, 10, 10)];
    let enemies = vec![enemy];
    let mut s = GameState { app: AppState::InGame, lives_left: 3, enemies_left: 1, active_enemies: 1 };
    let r = laser_hit_enemy(&mut s, &lasers, &enemies);
    assert_eq!(r.target_destroyed, vec![true]);
    assert_eq!(s.enemies_left, 0);
    assert_eq!(s.app, AppState::Gameover);
    // Exactly one explosion request, at the enemy's prior position.
    assert_eq!(r.explosions, vec![Vec2i { x: 30, y: 40 }]);
}

#[test]
fn last_life_lost_ends_the_game() {
    // One life left, player present, one enemy laser overlapping it.
    let player = aabb(0, -300, 40, 40);
    let lasers = vec![aabb(2, -295, 10, 20)];
    let mut s = GameState { app: AppState::InGame, lives_left: 1, enemies_left: 9, active_enemies: 4 };
    let mut p = PlayerState { on: true, last_shot: None };
    let r = enemy_laser_hit_player(&mut s, &mut p, &lasers, &Some(player), 12_345);
    assert!(r.player_destroyed);
    assert_eq!(r.laser_destroyed, vec![true]);
    assert!(!p.on);
    assert_eq!(p.last_shot, Some(12_345));
    assert_eq!(s.lives_left, 0);
    assert_eq!(s.app, AppState::Gameover);
    assert_eq!(r.explosion, Some(Vec2i { x: 0, y: -300 }));
}

#[test]
fn surviving_player_keeps_lives_and_state() {
    let player = aabb(0, -300, 40, 40);
    let lasers = vec![aabb(500, 300, 10, 20)];
    let mut s = GameState { app: AppState::InGame, lives_left: 2, enemies_left: 9, active_enemies: 4 };
    let mut p = PlayerState { on: true, last_shot: None };
    let r = enemy_laser_hit_player(&mut s, &mut p, &lasers, &Some(player), 99);
    assert!(!r.player_destroyed);
    assert_eq!(r.laser_destroyed, vec![false]);
    assert_eq!(r.explosion, None);
    assert!(p.on);
    assert_eq!(s.lives_left, 2);
    assert_eq!(s.app, AppState::InGame);
}

#[test]
fn absent_player_skips_the_check() {
    // A pending respawn is a normal case, not a crash: nothing changes.
    let lasers = vec![aabb(0, 0, 10, 10)];
    let mut s = GameState { app: AppState::InGame, lives_left: 1, enemies_left: 9, active_enemies: 4 };
    let mut p = PlayerState { on: false, last_shot: Some(7) };
    let r = enemy_laser_hit_player(&mut s, &mut p, &lasers, &None, 50);
    assert!(!r.player_destroyed);
    assert_eq!(r.laser_destroyed, vec![false]);
    assert_eq!(r.explosion, None);
    assert_eq!(s.lives_left, 1);
    assert_eq!(s.app, AppState::InGame);
    assert_eq!(p.last_shot, Some(7));
}

#[test]
fn enemy_advances_inside_the_screen() {
    // 0.3 * 500 px/s at 1/60 s is 2.5 px; the driver hands whole pixels.
    let r = move_enemy(&Vec2i { x: 100, y: 350 }, 2, 1200);
    assert_eq!(r, Vec2i { x: 102, y: 350 });
}

#[test]
fn enemy_wraps_at_the_right_boundary_in_one_tick() {
    // One pixel short of the boundary, advancing by more than one pixel:
    // in the same tick x resets to 0 and y drops one row.
    let r = move_enemy(&Vec2i { x: 1199, y: 350 }, 2, 1200);
    assert_eq!(r, Vec2i { x: 0, y: 350 - 64 });
}

#[test]
fn enemy_is_never_wrapped_leftward() {
    // Far past the left edge the enemy just keeps advancing.
    let r = move_enemy(&Vec2i { x: -3000, y: 100 }, 2, 1200);
    assert_eq!(r, Vec2i { x: -2998, y: 100 });
}

#[test]
fn every_enemy_moves_each_tick() {
    let enemies = vec![Vec2i { x: 0, y: 350 }, Vec2i { x: 1199, y: 286 }];
    let moved = move_enemies(&enemies, 3, 1200);
    assert_eq!(moved, vec![Vec2i { x: 3, y: 350 }, Vec2i { x: 0, y: 222 }]);
}

#[test]
fn laser_drifts_and_falls() {
    // An enemy laser falls at speed * dt (500/60 is 8 whole pixels) and
    // drifts one pixel right.
    let r = move_laser(&Vec2i { x: 10, y: 0 }, -8, 800);
    assert_eq!(r, Some(Vec2i { x: 11, y: -8 }));
}

#[test]
fn laser_below_the_margin_despawns() {
    // The bottom bound of an 800-high window is -400; the margin is 50.
    let r = move_laser(&Vec2i { x: 0, y: -444 }, -8, 800);
    assert_eq!(r, None);
    let kept = move_laser(&Vec2i { x: 0, y: -442 }, -8, 800);
    assert_eq!(kept, Some(Vec2i { x: 1, y: -450 }));
}

#[test]
fn laser_above_the_margin_despawns() {
    let r = move_laser(&Vec2i { x: 0, y: 445 }, 8, 800);
    assert_eq!(r, None);
}

#[test]
fn lasers_move_and_despawn_independently() {
    let lasers = vec![Vec2i { x: 0, y: 0 }, Vec2i { x: 5, y: -444 }];
    let moved = move_lasers(&lasers, -8, 800);
    assert_eq!(moved, vec![Some(Vec2i { x: 1, y: -8 }), None]);
}

#[test]
fn no_fire_while_respawn_is_pending() {
    let p = PlayerState { on: false, last_shot: Some(1_000) };
    let enemies = vec![Vec2i { x: 10, y: 20 }, Vec2i { x: -50, y: 350 }];
    let lasers = enemy_fire(&p, &enemies);
    assert!(lasers.is_empty());
}

#[test]
fn every_enemy_fires_one_laser() {
    let p = PlayerState { on: true, last_shot: None };
    let enemies = vec![Vec2i { x: 10, y: 20 }, Vec2i { x: -50, y: 350 }];
    let lasers = enemy_fire(&p, &enemies);
    // One laser per enemy, fifteen pixels below the enemy's centre.
    assert_eq!(lasers, vec![Vec2i { x: 10, y: 5 }, Vec2i { x: -50, y: 335 }]);
}

#[test]
fn default_speed_is_five_hundred() {
    assert_eq!(Speed::default(), Speed(500));
}

#[test]
fn player_shot_and_respawn_round_trip() {
    let mut p = PlayerState::new();
    assert!(!p.on);
    p.spawned();
    assert!(p.on);
    assert_eq!(p.last_shot, None);
    p.shot(2_000);
    assert!(!p.on);
    assert_eq!(p.last_shot, Some(2_000));
    p.spawned();
    assert!(p.on);
    assert_eq!(p.last_shot, None);
}

#[test]
fn explosion_spawns_from_a_request_at_its_position() {
    let e = Explosion::new(ExplosionRequest { pos: Vec2i { x: 30, y: 40 } });
    assert_eq!(e.pos, Vec2i { x: 30, y: 40 });
    assert_eq!(e.frame, 0);
    assert_eq!(e.timer, FrameTimer { elapsed_ms: 0, period_ms: 50 });
}

#[test]
fn explosion_terminates_after_exactly_sixteen_elapses() {
    let mut e = Explosion::new(ExplosionRequest { pos: Vec2i { x: 0, y: 0 } });
    // Each 50 ms tick elapses the timer once. The sixteenth elapse, and
    // no earlier one, despawns the entity; a seventeenth frame is never
    // reached.
    for k in 1..=EXPLOSION_FRAMES {
        assert!(e.frame < EXPLOSION_FRAMES);
        let despawn = e.animate(50);
        assert_eq!(e.frame, k);
        assert_eq!(despawn, k == EXPLOSION_FRAMES);
    }
    assert_eq!(e.frame, EXPLOSION_FRAMES);
}

#[test]
fn explosion_holds_its_frame_until_the_timer_elapses() {
    let mut e = Explosion::new(ExplosionRequest { pos: Vec2i { x: 0, y: 0 } });
    // 16 ms ticks, as at sixty frames per second: the timer elapses on
    // every fourth tick (64 ms accumulated, remainder 14).
    assert!(!e.animate(16));
    assert!(!e.animate(16));
    assert!(!e.animate(16));
    assert_eq!(e.frame, 0);
    assert!(!e.animate(16));
    assert_eq!(e.frame, 1);
    assert_eq!(e.timer.elapsed_ms, 14);
}

#[test]
fn repeating_timer_keeps_the_remainder() {
    let mut t = FrameTimer::new(50);
    assert!(!t.tick(30));
    assert_eq!(t.elapsed_ms, 30);
    assert!(t.tick(30));
    assert_eq!(t.elapsed_ms, 10);
    assert!(t.tick(40));
    assert_eq!(t.elapsed_ms, 0);
}
