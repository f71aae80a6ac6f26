//! Counters, the overall game state, and the player's alive/respawning
//! flag.
//!
//! The three counters and the state enum are process-wide shared state in
//! the running game; here they live in one struct handed by mutable
//! reference to the systems that are allowed to write them: the collision
//! resolver (all three counters and the state) and the spawner (the count
//! of enemies on screen).

use vstd::prelude::*;

verus! {

/// The hard cap on enemies alive at once.
pub const MAX_ENEMIES: u32 = 20;

/// The overall state of the application. The only transition this core
/// performs is into `Gameover`, when a counter reaches zero; no
/// transition out of `Gameover` exists.
#[derive(Clone, Copy, PartialEq, Eq, Structural, Debug)]
pub enum AppState {
    MainMenu,
    InGame,
    Paused,
    Gameover,
}

/// The shared counters and the state enum.
#[derive(Clone, Copy, PartialEq, Eq, Structural, Debug)]
pub struct GameState {
    pub app: AppState,
    /// Lives the player still has; zero ends the game.
    pub lives_left: u32,
    /// Enemies still to destroy in the level; zero ends the game.
    pub enemies_left: u32,
    /// Enemies alive on screen right now; never exceeds `MAX_ENEMIES`.
    pub active_enemies: u32,
}

/// `s` with the application state set to `Gameover` and nothing else
/// touched.
pub open spec fn with_gameover(s: GameState) -> GameState {
    GameState { app: AppState::Gameover, ..s }
}

impl GameState {
    /// Counters start consistent: no more enemies on screen than the cap
    /// allows.
    pub open spec fn wf(self) -> bool {
        self.active_enemies <= MAX_ENEMIES
    }

    /// A fresh in-game state with the given stocks and no enemy on screen
    /// yet.
    pub fn new(lives_left: u32, enemies_left: u32) -> (s: GameState)
        ensures
            s == (GameState {
                app: AppState::InGame,
                lives_left,
                enemies_left,
                active_enemies: 0,
            }),
            s.wf(),
    {
        GameState { app: AppState::InGame, lives_left, enemies_left, active_enemies: 0 }
    }

    /// End the game. Setting the state when it is already `Gameover` is
    /// harmless: the counters are untouched either way.
    pub fn to_gameover(&mut self)
        ensures
            *final(self) == with_gameover(*old(self)),
    {
        self.app = AppState::Gameover;
    }
}

/// Ending the game twice in one tick is the same as ending it once: the
/// transition into `Gameover` is idempotent and has no side effect beyond
/// the state field itself.
pub proof fn lemma_gameover_idempotent(s: GameState)
    ensures
        with_gameover(with_gameover(s)) == with_gameover(s),
        with_gameover(s).lives_left == s.lives_left,
        with_gameover(s).enemies_left == s.enemies_left,
        with_gameover(s).active_enemies == s.active_enemies,
{
}

/// Whether the player entity is alive, and when it was last shot down.
/// While `on` is false a respawn is pending and enemy fire is suppressed.
#[derive(Clone, Copy, PartialEq, Eq, Structural, Debug)]
pub struct PlayerState {
    pub on: bool,
    /// Tick time, in milliseconds, at which the player was last shot;
    /// cleared on respawn.
    pub last_shot: Option<u64>,
}

/// `p` after being shot at time `time`.
pub open spec fn shot_at(p: PlayerState, time: u64) -> PlayerState {
    PlayerState { on: false, last_shot: Some(time) }
}

impl PlayerState {
    /// An alive player carries no pending shot time.
    pub open spec fn wf(self) -> bool {
        self.on ==> self.last_shot is None
    }

    /// Before the respawn controller first places the player entity, the
    /// player is not on the field.
    pub fn new() -> (p: PlayerState)
        ensures
            p == (PlayerState { on: false, last_shot: None::<u64> }),
            p.wf(),
    {
        PlayerState { on: false, last_shot: None }
    }

    /// The player was hit: mark it gone and record the time, which gates
    /// the respawn delay.
    pub fn shot(&mut self, time: u64)
        ensures
            *final(self) == shot_at(*old(self), time),
            final(self).wf(),
    {
        self.on = false;
        self.last_shot = Some(time);
    }

    /// The respawn controller has placed the player entity again.
    pub fn spawned(&mut self)
        ensures
            *final(self) == (PlayerState { on: true, last_shot: None::<u64> }),
            final(self).wf(),
    {
        self.on = true;
        self.last_shot = None;
    }
}

} // verus!
