//! Per-tick collision resolution.
//!
//! Every tick the game tests the player's lasers against the enemies and
//! the enemies' lasers against the player. A laser that overlaps a target
//! is destroyed; a target is destroyed and counted at most once per tick
//! even when several lasers overlap it at the same time; each destroyed
//! target leaves exactly one explosion request at its last position and
//! the matching counter is decremented. A counter reaching zero ends the
//! game.

use vstd::prelude::*;

use crate::geom::{Aabb, Vec2i, collide, collides};
use crate::state::{GameState, PlayerState, shot_at, with_gameover};

verus! {

/// Some laser of `lasers` overlaps `target`.
pub open spec fn hit_by_any(lasers: Seq<Aabb>, target: Aabb) -> bool {
    exists|i: int| 0 <= i < lasers.len() && collides(lasers[i], target)
}

/// The laser `laser` overlaps some target of `targets`.
pub open spec fn hits_any(laser: Aabb, targets: Seq<Aabb>) -> bool {
    exists|j: int| 0 <= j < targets.len() && collides(laser, targets[j])
}

/// The positions of the targets destroyed this tick, one entry per
/// destroyed target in target order: a target hit by several lasers at
/// once appears once.
pub open spec fn explosion_positions(lasers: Seq<Aabb>, targets: Seq<Aabb>) -> Seq<Vec2i>
    decreases targets.len(),
{
    if targets.len() == 0 {
        Seq::empty()
    } else {
        let rest = explosion_positions(lasers, targets.drop_last());
        if hit_by_any(lasers, targets.last()) {
            rest.push(targets.last().center)
        } else {
            rest
        }
    }
}

/// How many targets this tick's lasers destroy.
pub open spec fn destroyed_count(lasers: Seq<Aabb>, targets: Seq<Aabb>) -> nat {
    explosion_positions(lasers, targets).len()
}

/// No more targets are destroyed than exist.
pub proof fn lemma_destroyed_count_le(lasers: Seq<Aabb>, targets: Seq<Aabb>)
    ensures
        destroyed_count(lasers, targets) <= targets.len(),
    decreases targets.len(),
{
    if targets.len() > 0 {
        lemma_destroyed_count_le(lasers, targets.drop_last());
    }
}

proof fn lemma_hit_take_step(lasers: Seq<Aabb>, target: Aabb, i: int)
    requires
        0 <= i < lasers.len(),
    ensures
        hit_by_any(lasers.take(i + 1), target) == (hit_by_any(lasers.take(i), target) || collides(
            lasers[i],
            target,
        )),
{
    let a = lasers.take(i);
    let b = lasers.take(i + 1);
    assert(b =~= a.push(lasers[i]));
    if collides(lasers[i], target) {
        assert(collides(b[i], target));
    }
    if hit_by_any(a, target) {
        let k = choose|k: int| 0 <= k < a.len() && #[trigger] collides(a[k], target);
        assert(collides(b[k], target));
    }
    if hit_by_any(b, target) && !collides(lasers[i], target) {
        let k = choose|k: int| 0 <= k < b.len() && #[trigger] collides(b[k], target);
        assert(collides(a[k], target));
    }
}

proof fn lemma_explosions_take_step(lasers: Seq<Aabb>, targets: Seq<Aabb>, j: int)
    requires
        0 <= j < targets.len(),
    ensures
        explosion_positions(lasers, targets.take(j + 1)) == if hit_by_any(lasers, targets[j]) {
            explosion_positions(lasers, targets.take(j)).push(targets[j].center)
        } else {
            explosion_positions(lasers, targets.take(j))
        },
{
    assert(targets.take(j + 1).drop_last() =~= targets.take(j));
    assert(targets.take(j + 1).last() == targets[j]);
}

/// What one tick of laser-versus-target resolution decided: which targets
/// and lasers are to be despawned, and where explosions are to be
/// spawned.
#[derive(Clone, Debug, PartialEq, Eq)]
pub struct Resolution {
    /// For each target, whether some laser destroyed it this tick.
    pub target_destroyed: Vec<bool>,
    /// For each laser, whether it overlapped some target and is spent.
    pub laser_destroyed: Vec<bool>,
    /// One explosion request per destroyed target, at its last position,
    /// in target order.
    pub explosions: Vec<Vec2i>,
}

/// Whether some laser of `lasers` overlaps `target`.
pub fn hits_target(lasers: &Vec<Aabb>, target: &Aabb) -> (r: bool)
    ensures
        r == hit_by_any(lasers@, *target),
{
    let mut i: usize = 0;
    while i < lasers.len()
        invariant
            0 <= i <= lasers@.len(),
            forall|k: int| 0 <= k < i ==> !collides(lasers@[k], *target),
        decreases lasers@.len() - i,
    {
        if collide(&lasers[i], target) {
            assert(collides(lasers@[i as int], *target));
            return true;
        }
        i = i + 1;
    }
    false
}

/// Whether `laser` overlaps some target of `targets`.
pub fn hits_some(laser: &Aabb, targets: &Vec<Aabb>) -> (r: bool)
    ensures
        r == hits_any(*laser, targets@),
{
    let mut j: usize = 0;
    while j < targets.len()
        invariant
            0 <= j <= targets@.len(),
            forall|k: int| 0 <= k < j ==> !collides(*laser, targets@[k]),
        decreases targets@.len() - j,
    {
        if collide(laser, &targets[j]) {
            assert(collides(*laser, targets@[j as int]));
            return true;
        }
        j = j + 1;
    }
    false
}

/// Resolve one tick of lasers against targets: report each target hit by
/// at least one laser (destroyed exactly once, however many lasers
/// overlap it), each laser that overlapped at least one target (spent),
/// and one explosion position per destroyed target.
pub fn resolve_hits(lasers: &Vec<Aabb>, targets: &Vec<Aabb>) -> (r: Resolution)
    ensures
        r.target_destroyed@.len() == targets@.len(),
        r.laser_destroyed@.len() == lasers@.len(),
        forall|j: int|
            0 <= j < targets@.len() ==> r.target_destroyed@[j] == hit_by_any(
                lasers@,
                targets@[j],
            ),
        forall|i: int|
            0 <= i < lasers@.len() ==> r.laser_destroyed@[i] == hits_any(lasers@[i], targets@),
        r.explosions@ == explosion_positions(lasers@, targets@),
{
    let mut target_destroyed: Vec<bool> = Vec::new();
    let mut explosions: Vec<Vec2i> = Vec::new();
    let mut j: usize = 0;
    while j < targets.len()
        invariant
            0 <= j <= targets@.len(),
            target_destroyed@.len() == j,
            forall|k: int|
                0 <= k < j ==> target_destroyed@[k] == hit_by_any(lasers@, targets@[k]),
            explosions@ == explosion_positions(lasers@, targets@.take(j as int)),
        decreases targets@.len() - j,
    {
        let hit = hits_target(lasers, &targets[j]);
        proof {
            lemma_explosions_take_step(lasers@, targets@, j as int);
        }
        target_destroyed.push(hit);
        if hit {
            explosions.push(targets[j].center);
        }
        j = j + 1;
    }
    let mut laser_destroyed: Vec<bool> = Vec::new();
    let mut i: usize = 0;
    while i < lasers.len()
        invariant
            0 <= i <= lasers@.len(),
            laser_destroyed@.len() == i,
            forall|k: int| 0 <= k < i ==> laser_destroyed@[k] == hits_any(lasers@[k], targets@),
        decreases lasers@.len() - i,
    {
        let spent = hits_some(&lasers[i], targets);
        laser_destroyed.push(spent);
        i = i + 1;
    }
    proof {
        assert(targets@.take(targets@.len() as int) =~= targets@);
    }
    Resolution { target_destroyed, laser_destroyed, explosions }
}

/// `s` after `d` enemies were destroyed this tick: both enemy counters
/// drop by `d`, and emptying the level ends the game.
pub open spec fn after_enemy_hits(s: GameState, d: nat) -> GameState
    recommends
        d <= s.enemies_left,
        d <= s.active_enemies,
{
    let s2 = GameState {
        enemies_left: (s.enemies_left - d) as u32,
        active_enemies: (s.active_enemies - d) as u32,
        ..s
    };
    if s.enemies_left - d == 0 {
        with_gameover(s2)
    } else {
        s2
    }
}

/// Resolve the player's lasers against the enemies and book the result:
/// every destroyed enemy decrements `enemies_left` and `active_enemies`
/// exactly once, and a level left without enemies ends the game.
pub fn laser_hit_enemy(state: &mut GameState, lasers: &Vec<Aabb>, enemies: &Vec<Aabb>) -> (r:
    Resolution)
    requires
        enemies@.len() <= old(state).enemies_left,
        enemies@.len() <= old(state).active_enemies,
    ensures
        r.target_destroyed@.len() == enemies@.len(),
        r.laser_destroyed@.len() == lasers@.len(),
        forall|j: int|
            0 <= j < enemies@.len() ==> r.target_destroyed@[j] == hit_by_any(
                lasers@,
                enemies@[j],
            ),
        forall|i: int|
            0 <= i < lasers@.len() ==> r.laser_destroyed@[i] == hits_any(lasers@[i], enemies@),
        r.explosions@ == explosion_positions(lasers@, enemies@),
        *final(state) == after_enemy_hits(*old(state), destroyed_count(lasers@, enemies@)),
{
    let r = resolve_hits(lasers, enemies);
    proof {
        lemma_destroyed_count_le(lasers@, enemies@);
    }
    let d: u32 = r.explosions.len() as u32;
    state.enemies_left = state.enemies_left - d;
    state.active_enemies = state.active_enemies - d;
    if state.enemies_left == 0 {
        state.to_gameover();
    }
    r
}

/// What resolving the enemies' lasers against the player decided.
#[derive(Clone, Debug, PartialEq, Eq)]
pub struct PlayerHit {
    /// The player was overlapped by at least one enemy laser and is to be
    /// despawned.
    pub player_destroyed: bool,
    /// For each enemy laser, whether it overlapped the player and is
    /// spent.
    pub laser_destroyed: Vec<bool>,
    /// The explosion request left at the player's position, if it was
    /// destroyed.
    pub explosion: Option<Vec2i>,
}

/// `s` after the player was destroyed this tick: one life is spent, and
/// spending the last one ends the game.
pub open spec fn after_player_hit(s: GameState) -> GameState
    recommends
        s.lives_left >= 1,
{
    let s2 = GameState { lives_left: (s.lives_left - 1) as u32, ..s };
    if s.lives_left - 1 == 0 {
        with_gameover(s2)
    } else {
        s2
    }
}

/// Resolve the enemies' lasers against the player. An absent player (a
/// respawn is pending) is a normal case: the tick's check is skipped and
/// nothing changes. A present player hit by any laser is destroyed and
/// counted exactly once: one life is spent, the player is marked shot at
/// `now`, one explosion request is left at its position, and spending the
/// last life ends the game.
pub fn enemy_laser_hit_player(
    state: &mut GameState,
    player_state: &mut PlayerState,
    lasers: &Vec<Aabb>,
    player: &Option<Aabb>,
    now: u64,
) -> (r: PlayerHit)
    requires
        (*player) is Some ==> old(state).lives_left >= 1,
    ensures
        r.laser_destroyed@.len() == lasers@.len(),
        (*player) is None ==> {
            &&& *final(state) == *old(state)
            &&& *final(player_state) == *old(player_state)
            &&& !r.player_destroyed
            &&& r.explosion is None
            &&& forall|i: int| 0 <= i < lasers@.len() ==> !r.laser_destroyed@[i]
        },
        (*player) matches Some(p) ==> {
            &&& r.player_destroyed == hit_by_any(lasers@, p)
            &&& forall|i: int|
                0 <= i < lasers@.len() ==> r.laser_destroyed@[i] == collides(lasers@[i], p)
            &&& (hit_by_any(lasers@, p) ==> {
                &&& *final(state) == after_player_hit(*old(state))
                &&& *final(player_state) == shot_at(*old(player_state), now)
                &&& r.explosion == Some(p.center)
            })
            &&& (!hit_by_any(lasers@, p) ==> {
                &&& *final(state) == *old(state)
                &&& *final(player_state) == *old(player_state)
                &&& r.explosion is None
            })
        },
{
    match player {
        None => {
            let mut laser_destroyed: Vec<bool> = Vec::new();
            let mut i: usize = 0;
            while i < lasers.len()
                invariant
                    0 <= i <= lasers@.len(),
                    laser_destroyed@.len() == i,
                    forall|k: int| 0 <= k < i ==> !laser_destroyed@[k],
                decreases lasers@.len() - i,
            {
                laser_destroyed.push(false);
                i = i + 1;
            }
            PlayerHit { player_destroyed: false, laser_destroyed, explosion: None }
        },
        Some(p) => {
            let mut laser_destroyed: Vec<bool> = Vec::new();
            let mut any: bool = false;
            let mut i: usize = 0;
            while i < lasers.len()
                invariant
                    0 <= i <= lasers@.len(),
                    laser_destroyed@.len() == i,
                    forall|k: int| 0 <= k < i ==> laser_destroyed@[k] == collides(lasers@[k], *p),
                    any == hit_by_any(lasers@.take(i as int), *p),
                decreases lasers@.len() - i,
            {
                let c = collide(&lasers[i], p);
                laser_destroyed.push(c);
                proof {
                    lemma_hit_take_step(lasers@, *p, i as int);
                }
                any = any || c;
                i = i + 1;
            }
            proof {
                assert(lasers@.take(lasers@.len() as int) =~= lasers@);
            }
            if any {
                state.lives_left = state.lives_left - 1;
                if state.lives_left == 0 {
                    state.to_gameover();
                }
                player_state.shot(now);
                PlayerHit { player_destroyed: true, laser_destroyed, explosion: Some(p.center) }
            } else {
                PlayerHit { player_destroyed: false, laser_destroyed, explosion: None }
            }
        },
    }
}

/// However many lasers overlap one enemy at the same time, the enemy is
/// destroyed and counted exactly once, one explosion is requested at its
/// position, every one of the lasers is spent, and the count of enemies
/// left drops by exactly one.
pub proof fn lemma_simultaneous_hits_deduplicated(lasers: Seq<Aabb>, enemy: Aabb, s: GameState)
    requires
        lasers.len() > 0,
        forall|i: int| 0 <= i < lasers.len() ==> collides(lasers[i], enemy),
        s.enemies_left >= 1,
        s.active_enemies >= 1,
    ensures
        destroyed_count(lasers, seq![enemy]) == 1,
        explosion_positions(lasers, seq![enemy]) =~= seq![enemy.center],
        forall|i: int| 0 <= i < lasers.len() ==> hits_any(lasers[i], seq![enemy]),
        after_enemy_hits(s, destroyed_count(lasers, seq![enemy])).enemies_left == s.enemies_left
            - 1,
{
    let targets: Seq<Aabb> = seq![enemy];
    assert(hit_by_any(lasers, enemy)) by {
        assert(collides(lasers[0], enemy));
    }
    assert(targets.drop_last() =~= Seq::<Aabb>::empty());
    assert(explosion_positions(lasers, Seq::<Aabb>::empty()) == Seq::<Vec2i>::empty());
    assert(targets.last() == enemy);
    assert(explosion_positions(lasers, targets) == Seq::<Vec2i>::empty().push(enemy.center));
    assert(explosion_positions(lasers, targets) =~= seq![enemy.center]);
    assert forall|i: int| 0 <= i < lasers.len() implies hits_any(lasers[i], targets) by {
        assert(collides(lasers[i], targets[0]));
    }
}

} // verus!
