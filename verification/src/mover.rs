//! Per-tick movement of enemies and lasers.
//!
//! Enemies sweep the screen in a serpentine: each tick one advances
//! rightward by the tick's displacement, and on reaching the right
//! boundary it wraps to `x = 0` and drops one row. The wrap only happens
//! rightward; nothing clamps an enemy at the left edge. Lasers travel
//! vertically with a small fixed horizontal drift, and one that leaves
//! the vertical bounds by a margin is despawned.
//!
//! The caller turns the entity's speed and the tick's duration into a
//! whole-pixel displacement; this module applies it.

use vstd::prelude::*;

use crate::geom::Vec2i;

verus! {

/// How far an enemy drops when it wraps at the right boundary.
pub const ROW_DROP: i32 = 64;

/// Fixed horizontal drift of a laser, per tick.
pub const LASER_DRIFT: i32 = 1;

/// How far beyond the vertical bounds a laser may fly before it is
/// despawned.
pub const LASER_DESPAWN_MARGIN: i32 = 50;

/// One movement tick of an enemy at `p`, advancing by `dx`: past the
/// right boundary it wraps to the left edge and drops one row, otherwise
/// it keeps the advanced position.
pub open spec fn enemy_step(p: Vec2i, dx: i32, win_width: i32) -> Vec2i {
    if p.x + dx >= win_width {
        Vec2i { x: 0, y: (p.y - ROW_DROP) as i32 }
    } else {
        Vec2i { x: (p.x + dx) as i32, y: p.y }
    }
}

/// One movement tick of a laser at `p`: `dy` up (negative for a laser
/// travelling down) and the fixed drift right.
pub open spec fn laser_step(p: Vec2i, dy: i32) -> Vec2i {
    Vec2i { x: (p.x + LASER_DRIFT) as i32, y: (p.y + dy) as i32 }
}

/// A laser this far outside the window's vertical bounds is gone.
pub open spec fn laser_offscreen(y: int, win_height: int) -> bool {
    y < -(win_height / 2) - LASER_DESPAWN_MARGIN || y > win_height / 2 + LASER_DESPAWN_MARGIN
}

/// Advance one enemy by this tick's displacement, wrapping and dropping a
/// row at the right boundary.
pub fn move_enemy(p: &Vec2i, dx: i32, win_width: i32) -> (r: Vec2i)
    requires
        i32::MIN <= p.x + dx <= i32::MAX,
        p.y - ROW_DROP >= i32::MIN,
    ensures
        r == enemy_step(*p, dx, win_width),
{
    let nx: i32 = p.x + dx;
    if nx >= win_width {
        Vec2i { x: 0, y: p.y - ROW_DROP }
    } else {
        Vec2i { x: nx, y: p.y }
    }
}

/// Advance every enemy by this tick's displacement.
pub fn move_enemies(enemies: &Vec<Vec2i>, dx: i32, win_width: i32) -> (r: Vec<Vec2i>)
    requires
        forall|k: int|
            0 <= k < enemies@.len() ==> i32::MIN <= (#[trigger] enemies@[k]).x + dx <= i32::MAX,
        forall|k: int| 0 <= k < enemies@.len() ==> enemies@[k].y - ROW_DROP >= i32::MIN,
    ensures
        r@.len() == enemies@.len(),
        forall|k: int| 0 <= k < enemies@.len() ==> r@[k] == enemy_step(enemies@[k], dx, win_width),
{
    let mut moved: Vec<Vec2i> = Vec::new();
    let mut k: usize = 0;
    while k < enemies.len()
        invariant
            0 <= k <= enemies@.len(),
            moved@.len() == k,
            forall|j: int|
                0 <= j < enemies@.len() ==> i32::MIN <= (#[trigger] enemies@[j]).x + dx
                    <= i32::MAX,
            forall|j: int| 0 <= j < enemies@.len() ==> enemies@[j].y - ROW_DROP >= i32::MIN,
            forall|j: int| 0 <= j < k ==> moved@[j] == enemy_step(enemies@[j], dx, win_width),
        decreases enemies@.len() - k,
    {
        let m = move_enemy(&enemies[k], dx, win_width);
        moved.push(m);
        k = k + 1;
    }
    moved
}

/// Advance one laser and decide whether it survives: the moved position,
/// or nothing when it has left the vertical bounds by the margin.
pub fn move_laser(p: &Vec2i, dy: i32, win_height: i32) -> (r: Option<Vec2i>)
    requires
        win_height >= 0,
        p.x + LASER_DRIFT <= i32::MAX,
        i32::MIN <= p.y + dy <= i32::MAX,
    ensures
        laser_offscreen(laser_step(*p, dy).y as int, win_height as int) ==> r is None,
        !laser_offscreen(laser_step(*p, dy).y as int, win_height as int) ==> r == Some(
            laser_step(*p, dy),
        ),
{
    let moved = Vec2i { x: p.x + LASER_DRIFT, y: p.y + dy };
    let half: i32 = win_height / 2;
    if moved.y < -half - LASER_DESPAWN_MARGIN || moved.y > half + LASER_DESPAWN_MARGIN {
        None
    } else {
        Some(moved)
    }
}

/// Advance every laser, despawning those that leave the vertical bounds:
/// entry `k` of the result is the moved laser `k`, or nothing where it
/// was despawned.
pub fn move_lasers(lasers: &Vec<Vec2i>, dy: i32, win_height: i32) -> (r: Vec<Option<Vec2i>>)
    requires
        win_height >= 0,
        forall|k: int| 0 <= k < lasers@.len() ==> (#[trigger] lasers@[k]).x + LASER_DRIFT <= i32::MAX,
        forall|k: int| 0 <= k < lasers@.len() ==> i32::MIN <= (#[trigger] lasers@[k]).y + dy <= i32::MAX,
    ensures
        r@.len() == lasers@.len(),
        forall|k: int|
            0 <= k < lasers@.len() ==> r@[k] == if laser_offscreen(
                laser_step(lasers@[k], dy).y as int,
                win_height as int,
            ) {
                None::<Vec2i>
            } else {
                Some(laser_step(lasers@[k], dy))
            },
{
    let mut moved: Vec<Option<Vec2i>> = Vec::new();
    let mut k: usize = 0;
    while k < lasers.len()
        invariant
            0 <= k <= lasers@.len(),
            win_height >= 0,
            moved@.len() == k,
            forall|j: int| 0 <= j < lasers@.len() ==> (#[trigger] lasers@[j]).x + LASER_DRIFT <= i32::MAX,
            forall|j: int| 0 <= j < lasers@.len() ==> i32::MIN <= (#[trigger] lasers@[j]).y + dy <= i32::MAX,
            forall|j: int|
                0 <= j < k ==> moved@[j] == if laser_offscreen(
                    laser_step(lasers@[j], dy).y as int,
                    win_height as int,
                ) {
                    None::<Vec2i>
                } else {
                    Some(laser_step(lasers@[j], dy))
                },
        decreases lasers@.len() - k,
    {
        let m = move_laser(&lasers[k], dy, win_height);
        moved.push(m);
        k = k + 1;
    }
    moved
}

} // verus!
