//! Spawning decisions: when a new enemy may enter the field, and where
//! enemies and their lasers appear.
//!
//! The enemy spawner runs on its own fixed interval and admits one enemy
//! per run while fewer than `MAX_ENEMIES` are on screen. Enemy fire runs
//! on another fixed interval and, while the player is on the field, lets
//! every living enemy fire one laser just below its own position. The
//! engine performs the actual entity creation; this module only decides
//! and hands back the positions.

use vstd::prelude::*;

use crate::geom::Vec2i;
use crate::state::{GameState, MAX_ENEMIES, PlayerState};

verus! {

/// How far inside the window edges a fresh enemy appears.
pub const SPAWN_MARGIN: i32 = 50;

/// A fresh enemy's laser leaves this far below the enemy's centre.
pub const FIRE_OFFSET: i32 = 15;

/// Default scalar speed attached to every spawned entity, in pixels per
/// second.
#[derive(Clone, Copy, PartialEq, Eq, Structural, Debug)]
pub struct Speed(pub u32);

impl Default for Speed {
    /// Entities move at 500 pixels per second unless overridden.
    fn default() -> (s: Speed)
        ensures
            s == Speed(500u32),
    {
        Speed(500)
    }
}

/// Where a fresh enemy appears: just inside the top-left corner of a
/// window of the given size.
pub open spec fn spawn_pos(win_width: i32, win_height: i32) -> Vec2i {
    Vec2i {
        x: (SPAWN_MARGIN - win_width / 2) as i32,
        y: (win_height / 2 - SPAWN_MARGIN) as i32,
    }
}

/// How many enemies one spawner run admits: one below the cap, none at
/// it.
pub open spec fn spawn_count(s: GameState) -> nat {
    if s.active_enemies < MAX_ENEMIES {
        1nat
    } else {
        0nat
    }
}

/// One run of the enemy spawner. Below the cap it admits one enemy at
/// the fixed off-corner position and counts it; at the cap it does
/// nothing. The returned position, if any, is where the engine is to
/// place the new enemy.
pub fn enemy_spawn(state: &mut GameState, win_width: i32, win_height: i32) -> (r: Option<Vec2i>)
    requires
        win_width >= 0,
        win_height >= 0,
    ensures
        old(state).active_enemies < MAX_ENEMIES ==> {
            &&& r == Some(spawn_pos(win_width, win_height))
            &&& final(state).active_enemies == old(state).active_enemies + 1
        },
        old(state).active_enemies >= MAX_ENEMIES ==> r is None && *final(state) == *old(state),
        final(state).active_enemies == old(state).active_enemies + spawn_count(*old(state)),
        final(state).app == old(state).app,
        final(state).lives_left == old(state).lives_left,
        final(state).enemies_left == old(state).enemies_left,
        old(state).wf() ==> final(state).wf(),
{
    if state.active_enemies >= MAX_ENEMIES {
        return None;
    }
    let x: i32 = SPAWN_MARGIN - win_width / 2;
    let y: i32 = win_height / 2 - SPAWN_MARGIN;
    state.active_enemies = state.active_enemies + 1;
    Some(Vec2i { x, y })
}

/// The spawner never pushes the count of enemies on screen past the cap:
/// after one run it is the smaller of `previous + admitted` and
/// `MAX_ENEMIES`.
pub proof fn lemma_spawner_respects_cap(s: GameState)
    requires
        s.wf(),
    ensures
        s.active_enemies + spawn_count(s) == if s.active_enemies + spawn_count(s)
            <= MAX_ENEMIES {
            s.active_enemies + spawn_count(s)
        } else {
            MAX_ENEMIES as int
        },
        s.active_enemies + spawn_count(s) <= MAX_ENEMIES,
{
}

/// One run of enemy fire. While the player is off the field (a respawn
/// is pending) no enemy fires; otherwise every enemy fires one laser
/// `FIRE_OFFSET` below its own centre.
pub fn enemy_fire(player_state: &PlayerState, enemies: &Vec<Vec2i>) -> (r: Vec<Vec2i>)
    requires
        forall|k: int|
            0 <= k < enemies@.len() ==> enemies@[k].y - FIRE_OFFSET >= i32::MIN,
    ensures
        !player_state.on ==> r@.len() == 0,
        player_state.on ==> {
            &&& r@.len() == enemies@.len()
            &&& forall|k: int|
                0 <= k < enemies@.len() ==> r@[k] == (Vec2i {
                    x: enemies@[k].x,
                    y: (enemies@[k].y - FIRE_OFFSET) as i32,
                })
        },
{
    let mut lasers: Vec<Vec2i> = Vec::new();
    if !player_state.on {
        return lasers;
    }
    let mut k: usize = 0;
    while k < enemies.len()
        invariant
            0 <= k <= enemies@.len(),
            lasers@.len() == k,
            forall|j: int|
                0 <= j < enemies@.len() ==> enemies@[j].y - FIRE_OFFSET >= i32::MIN,
            forall|j: int|
                0 <= j < k ==> lasers@[j] == (Vec2i {
                    x: enemies@[j].x,
                    y: (enemies@[j].y - FIRE_OFFSET) as i32,
                }),
        decreases enemies@.len() - k,
    {
        let e = enemies[k];
        lasers.push(Vec2i { x: e.x, y: e.y - FIRE_OFFSET });
        k = k + 1;
    }
    lasers
}

} // verus!
