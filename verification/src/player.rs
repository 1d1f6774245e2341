//! The player character's lifecycle: idle, a short action pose after a
//! correct press, or dead.
//!
//! The per-tick update returns an action pose to idle after it has been
//! held for a few ticks, and toggles the two-frame idle animation; a dead
//! player no longer changes.

use vstd::prelude::*;

verus! {

use crate::binding::ActionType;

/// The pose the player character is in.
#[derive(Clone, Copy, PartialEq, Eq, Structural, Debug)]
pub enum PlayerState {
    Idle,
    Attack,
    Shield,
    Jump,
    Dead,
}

/// The pose struck when performing an action.
pub open spec fn pose_of(action: ActionType) -> PlayerState {
    match action {
        ActionType::Attack => PlayerState::Attack,
        ActionType::Shield => PlayerState::Shield,
        ActionType::Jump => PlayerState::Jump,
    }
}

/// How many ticks an action pose is held before the player returns to idle.
pub const POSE_TICKS: usize = 6;

/// Mathematical model of the player.
#[verifier::ext_equal]
pub ghost struct PlayerView {
    pub state: PlayerState,
    pub accumulator: int,
    pub anim_frame: int,
}

impl PlayerView {
    /// The accumulator never runs ahead of the pose deadline and the idle
    /// animation has two frames.
    pub open spec fn wf(self) -> bool {
        0 <= self.accumulator <= POSE_TICKS + 1 && 0 <= self.anim_frame <= 1
    }

    /// The player after being killed: only the pose changes.
    pub open spec fn killed(self) -> PlayerView {
        PlayerView { state: PlayerState::Dead, ..self }
    }

    /// The player after striking the pose of a performed action.
    pub open spec fn acting(self, action: ActionType) -> PlayerView {
        PlayerView { state: pose_of(action), accumulator: 0, ..self }
    }

    /// The player after one tick: a dead player is frozen; a pose held past
    /// its deadline returns to idle and flips the animation frame; in
    /// either case the accumulator counts the tick.
    pub open spec fn updated(self) -> PlayerView {
        if self.state == PlayerState::Dead {
            self
        } else if self.accumulator > POSE_TICKS {
            PlayerView {
                state: PlayerState::Idle,
                accumulator: 1,
                anim_frame: (self.anim_frame + 1) % 2,
            }
        } else {
            PlayerView { accumulator: self.accumulator + 1, ..self }
        }
    }
}

/// The player character.
pub struct Player {
    state: PlayerState,
    accumulator: usize,
    anim_frame: usize,
}

impl View for Player {
    type V = PlayerView;

    closed spec fn view(&self) -> PlayerView {
        PlayerView {
            state: self.state,
            accumulator: self.accumulator as int,
            anim_frame: self.anim_frame as int,
        }
    }
}

impl Player {
    /// A fresh, idle player.
    pub fn new() -> (player: Player)
        ensures
            player@ == (PlayerView { state: PlayerState::Idle, accumulator: 0, anim_frame: 0 }),
            player@.wf(),
    {
        Player { state: PlayerState::Idle, accumulator: 0, anim_frame: 0 }
    }

    /// Returns the player to idle for a round restart; the animation state
    /// carries over.
    pub fn reset(&mut self)
        ensures
            final(self)@ == (PlayerView { state: PlayerState::Idle, ..old(self)@ }),
    {
        self.state = PlayerState::Idle;
    }

    /// Strikes the pose of the performed action and restarts the pose
    /// timer.
    pub fn perform_action(&mut self, action: ActionType)
        ensures
            final(self)@ == old(self)@.acting(action),
    {
        self.accumulator = 0;
        self.state = match action {
            ActionType::Attack => PlayerState::Attack,
            ActionType::Shield => PlayerState::Shield,
            ActionType::Jump => PlayerState::Jump,
        };
    }

    /// Marks the player dead.
    pub fn kill(&mut self)
        ensures
            final(self)@ == old(self)@.killed(),
    {
        self.state = PlayerState::Dead;
    }

    /// The pose the player is in, for the presentation layer to draw.
    pub fn state(&self) -> (state: PlayerState)
        ensures
            state == self@.state,
    {
        self.state
    }

    /// Whether the player has been killed.
    pub fn is_dead(&self) -> (dead: bool)
        ensures
            dead == (self@.state == PlayerState::Dead),
    {
        self.state == PlayerState::Dead
    }

    /// One tick of the player's own animation clock.
    pub fn update(&mut self)
        requires
            old(self)@.wf(),
        ensures
            final(self)@ == old(self)@.updated(),
            final(self)@.wf(),
    {
        if self.state == PlayerState::Dead {
            return ;
        }
        if self.accumulator > POSE_TICKS {
            self.anim_frame = (self.anim_frame + 1) % 2;
            self.state = PlayerState::Idle;
            self.accumulator = 0;
        }
        self.accumulator = self.accumulator + 1;
    }
}

} // verus!
