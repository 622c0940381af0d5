//! The outer game flow: starting a game, clearing a level, running out of lives.
use crate::level::{Level, Score};
use crate::ship::MAX_FRAME;
use vstd::prelude::*;

verus! {

/// Milliseconds between the last life lost and the end of the game.
pub const GAME_OVER_DELAY: i64 = 3000;

/// Milliseconds a new level waits before play starts.
pub const LEVEL_START_DELAY: i64 = 3000;

/// The states of the game, in the order a game passes through them.
#[derive(Clone, Copy, Debug, PartialEq, Eq, Structural)]
pub enum AppState {
    Loading,
    Title,
    NewGame,
    LoadLevel,
    InGame,
    HighScore,
    HighScoreEntry,
}

/// A one-shot countdown in milliseconds.
#[derive(Clone, Copy, Debug, PartialEq, Eq, Structural)]
pub struct Countdown {
    pub remaining: i64,
    pub finished: bool,
}

impl Countdown {
    pub open spec fn wf(self) -> bool {
        -MAX_FRAME <= self.remaining
    }

    pub open spec fn new_spec(duration: i64) -> Countdown {
        Countdown { remaining: duration, finished: false }
    }

    /// A countdown of `duration` milliseconds, not yet finished.
    pub fn new(duration: i64) -> (r: Countdown)
        requires
            0 <= duration,
        ensures
            r == Countdown::new_spec(duration),
            r.wf(),
    {
        Countdown { remaining: duration, finished: false }
    }

    /// Counts down `dt` milliseconds; returns true on the one frame in which
    /// the countdown runs out, and false before and after.
    pub fn tick(&mut self, dt: i64) -> (just_finished: bool)
        requires
            old(self).wf(),
            0 <= dt <= MAX_FRAME,
        ensures
            final(self).wf(),
            old(self).finished ==> !just_finished && *final(self) == *old(self),
            !old(self).finished ==> {
                let left = if old(self).remaining - dt < 0 {
                    0
                } else {
                    old(self).remaining - dt
                };
                &&& final(self).remaining == left
                &&& just_finished == (left == 0)
                &&& final(self).finished == just_finished
            },
    {
        if self.finished {
            return false;
        }
        self.remaining = if self.remaining - dt < 0 {
            0
        } else {
            self.remaining - dt
        };
        self.finished = self.remaining == 0;
        self.finished
    }
}

/// Starts a new game: back to the first level, with no score.
pub fn new_game(level: &mut Level, score: &mut Score)
    ensures
        final(level).0 == 0,
        final(score).0 == 0,
{
    *level = Level(0);
    *score = Score(0);
}

/// Checks for a cleared level once the frame's destruction and spawning are
/// done: with no asteroid left the level moves on and the next level loads.
/// Returns whether it did.
pub fn level_finished(asteroids_left: usize, level: &mut Level) -> (cleared: bool)
    requires
        old(level).0 < u32::MAX,
    ensures
        cleared == (asteroids_left == 0),
        cleared ==> final(level).0 == old(level).0 + 1,
        !cleared ==> *final(level) == *old(level),
{
    if asteroids_left == 0 {
        level.increment();
        true
    } else {
        false
    }
}

/// Waits out the game-over delay once the ship has no lives left: the
/// countdown starts on the first such frame and the game ends when it runs out.
/// Returns whether the game is over now.
pub fn gameover_tick(lives: u8, timer: &mut Option<Countdown>, dt: i64) -> (over: bool)
    requires
        *old(timer) matches Some(c) ==> c.wf(),
        0 <= dt <= MAX_FRAME,
    ensures
        *final(timer) matches Some(c) ==> c.wf(),
        lives > 0 ==> !over && *final(timer) == *old(timer),
        lives == 0 && *old(timer) is None ==> !over && *final(timer) == Some(
            Countdown::new_spec(GAME_OVER_DELAY),
        ),
        lives == 0 && *old(timer) is Some ==> (over <==> *final(timer) is None),
        *old(timer) matches Some(c) ==> lives == 0 ==> over == (!c.finished && c.remaining - dt
            <= 0),
{
    if lives > 0 {
        return false;
    }
    match timer {
        Some(c) => {
            if c.tick(dt) {
                *timer = None;
                true
            } else {
                false
            }
        },
        None => {
            *timer = Some(Countdown::new(GAME_OVER_DELAY));
            false
        },
    }
}

/// The systems of one frame.
#[derive(Clone, Copy, Debug, PartialEq, Eq, Structural)]
pub enum Stage {
    /// Input intents become ship state; timers and weapons run.
    Control,
    /// Velocities and positions advance; positions wrap.
    Integrate,
    /// Collision shapes take their entities' new poses.
    RefreshShapes,
    /// Projectiles, ship and asteroids are tested against each other.
    ResolveCollisions,
    /// Destroyed bodies are removed and what they leave is spawned.
    Lifecycle,
    /// Timed entities that ran out are removed.
    Expiry,
    /// Cleared levels and lost games are detected.
    Progression,
}

impl Stage {
    /// Position of the stage within a frame.
    pub open spec fn rank(self) -> nat {
        match self {
            Stage::Control => 0,
            Stage::Integrate => 1,
            Stage::RefreshShapes => 2,
            Stage::ResolveCollisions => 3,
            Stage::Lifecycle => 4,
            Stage::Expiry => 5,
            Stage::Progression => 6,
        }
    }

    /// The stage that follows, none after the last.
    pub fn next(&self) -> (r: Option<Stage>)
        ensures
            r is None <==> *self == Stage::Progression,
            r matches Some(n) ==> n.rank() == self.rank() + 1,
    {
        match self {
            Stage::Control => Some(Stage::Integrate),
            Stage::Integrate => Some(Stage::RefreshShapes),
            Stage::RefreshShapes => Some(Stage::ResolveCollisions),
            Stage::ResolveCollisions => Some(Stage::Lifecycle),
            Stage::Lifecycle => Some(Stage::Expiry),
            Stage::Expiry => Some(Stage::Progression),
            Stage::Progression => None,
        }
    }
}

/// The stages of a frame, in the order they must run: each stage once, from
/// `Control` to `Progression`.
pub fn frame_stages() -> (r: Vec<Stage>)
    ensures
        r@.len() == 7,
        forall|i: int| 0 <= i < r@.len() ==> #[trigger] r@[i].rank() == i,
{
    let mut out: Vec<Stage> = Vec::new();
    let mut stage = Stage::Control;
    loop
        invariant_except_break
            out@.len() == stage.rank(),
        invariant
            forall|i: int| 0 <= i < out@.len() ==> #[trigger] out@[i].rank() == i,
        ensures
            out@.len() == 7,
            forall|i: int| 0 <= i < out@.len() ==> #[trigger] out@[i].rank() == i,
        decreases 7 - stage.rank(),
    {
        out.push(stage);
        match stage.next() {
            Some(n) => stage = n,
            None => break,
        }
    }
    out
}

/// The frame order keeps each frame's work consistent: bodies move before their
/// shapes are refreshed, shapes are refreshed before they are tested, damage is
/// done before destruction is detected, and fragments are spawned before a
/// level is declared clear.
pub proof fn lemma_frame_order()
    ensures
        Stage::Integrate.rank() < Stage::RefreshShapes.rank(),
        Stage::RefreshShapes.rank() < Stage::ResolveCollisions.rank(),
        Stage::ResolveCollisions.rank() < Stage::Lifecycle.rank(),
        Stage::Lifecycle.rank() < Stage::Expiry.rank(),
        Stage::Lifecycle.rank() < Stage::Progression.rank(),
{
}

} // verus!
