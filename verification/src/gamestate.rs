//! The round state machine: player liveness, score, countdown expiry and
//! the per-tick orchestration that ties the resolver's verdicts into the
//! pass/fail/game-over transitions.
//!
//! Each display tick the driver hands in the raw hardware tick counter,
//! the buttons newly pressed, and one fresh random draw; `tick` performs
//! exactly one step of the machine.  A wrong press or a countdown that
//! reaches zero kills the player; the round then lingers for a fixed
//! number of ticks — input ignored, countdown frozen — before the state
//! becomes game over, from which `restart` begins a fresh round.

use vstd::prelude::*;

verus! {

use crate::binding::{ActionType, ButtonEdges, Verdict};
use crate::binding::resolve;
use crate::binding::resolve_spec;
use crate::countdown::{Countdown, CountdownView};
use crate::player::{Player, PlayerView, PlayerState};
use crate::scenario::{Scenario, ScenarioType, ScenarioView};

/// How many ticks a dead round lingers before it formally ends.
pub const LINGER_TICKS: usize = 50;

/// The round length in seconds.
pub const ROUND_SECONDS: usize = 10;

/// Whether a round is being played or has formally ended.
#[derive(Clone, Copy, PartialEq, Eq, Structural, Debug)]
pub enum GameState {
    Game,
    GameOver,
}

/// Mathematical model of one round.
#[verifier::ext_equal]
pub ghost struct GameView {
    pub state: GameState,
    pub scenario: ScenarioView,
    pub player: PlayerView,
    pub countdown: CountdownView,
    pub score: int,
    pub death_counter: int,
}

impl GameView {
    /// The round's invariant: the parts are well formed, the linger
    /// counter never runs past its threshold plus one, a living player
    /// means no lingering has begun, and a formally ended round has a dead
    /// player.
    pub open spec fn wf(self) -> bool {
        &&& self.scenario.wf()
        &&& self.player.wf()
        &&& self.countdown.wf()
        &&& self.score >= 0
        &&& 0 <= self.death_counter <= LINGER_TICKS + 1
        &&& (self.death_counter > LINGER_TICKS ==> self.state == GameState::GameOver)
        &&& (self.player.state != PlayerState::Dead ==> self.death_counter == 0)
        &&& (self.state == GameState::GameOver ==> self.player.state == PlayerState::Dead)
    }

    /// The round after one tick with counter reading `ticks`, press edges
    /// `edges` and fresh random draw `draw`.
    ///
    /// A formally ended round no longer changes.  A dead round only counts
    /// its linger ticks until the threshold is passed.  Otherwise the
    /// countdown takes the reading first: a countdown at zero kills the
    /// player and freezes the countdown.  Failing that, the player's own
    /// clock advances and the resolver judges the press edges: no verdict
    /// changes nothing more, a wrong press kills the player and freezes
    /// the countdown, and a correct press scores one point, strikes the
    /// action's pose and advances the scenario queue with the fresh draw.
    pub open spec fn stepped(self, ticks: u32, edges: ButtonEdges, draw: u32) -> GameView {
        if self.state == GameState::GameOver {
            self
        } else if self.player.state == PlayerState::Dead {
            let lingered = self.death_counter + 1;
            GameView {
                state: if lingered > LINGER_TICKS {
                    GameState::GameOver
                } else {
                    GameState::Game
                },
                death_counter: lingered,
                ..self
            }
        } else {
            let counted = self.countdown.ticked(ticks);
            if counted.seconds_left == 0 {
                GameView {
                    countdown: CountdownView { enabled: false, ..counted },
                    player: self.player.killed(),
                    ..self
                }
            } else {
                let posed = self.player.updated();
                match resolve_spec(edges, self.scenario.current()) {
                    Option::None => GameView { countdown: counted, player: posed, ..self },
                    Option::Some(Verdict::Incorrect) => GameView {
                        countdown: CountdownView { enabled: false, ..counted },
                        player: posed.killed(),
                        ..self
                    },
                    Option::Some(Verdict::Correct(action)) => GameView {
                        countdown: counted,
                        player: posed.acting(action),
                        scenario: self.scenario.advanced(draw),
                        score: self.score + 1,
                        ..self
                    },
                }
            }
        }
    }

    /// The model of a freshly started round over the given four draws.
    pub open spec fn started(draws: Seq<u32>) -> GameView {
        GameView {
            state: GameState::Game,
            scenario: ScenarioView::randomized(draws),
            player: PlayerView { state: PlayerState::Idle, accumulator: 0, anim_frame: 0 },
            countdown: CountdownView {
                seconds: ROUND_SECONDS as int,
                seconds_left: ROUND_SECONDS as int,
                last_ticks: 0,
                acc: 0,
                enabled: true,
            },
            score: 0,
            death_counter: 0,
        }
    }
}

/// One round of the game.
pub struct Game {
    /// Whether the round is still being played.
    pub state: GameState,
    /// The four-slot queue of upcoming scenarios.
    pub scenario: Scenario,
    player: Player,
    countdown: Countdown,
    score: usize,
    death_counter: usize,
}

impl View for Game {
    type V = GameView;

    closed spec fn view(&self) -> GameView {
        GameView {
            state: self.state,
            scenario: self.scenario@,
            player: self.player@,
            countdown: self.countdown@,
            score: self.score as int,
            death_counter: self.death_counter as int,
        }
    }
}

impl Game {
    /// A fresh round: the queue randomized from the four draws, the player
    /// idle, the countdown armed at the full round length, the score
    /// cleared.
    pub fn new(draws: &[u32; 4]) -> (game: Game)
        ensures
            game@ == GameView::started(draws@),
            game@.wf(),
    {
        let mut scenario = Scenario::new();
        scenario.randomize(draws);
        let mut countdown = Countdown::new(ROUND_SECONDS);
        countdown.reset();
        Game {
            state: GameState::Game,
            scenario,
            player: Player::new(),
            countdown,
            score: 0,
            death_counter: 0,
        }
    }

    /// Begins a fresh round after a game over: the queue is randomized
    /// anew and score, countdown, player and linger counter are reset.
    /// The countdown keeps its configured round length and carries its
    /// sub-second remainder over, exactly as rearming it does.
    pub fn restart(&mut self, draws: &[u32; 4])
        ensures
            final(self)@ == (GameView {
                state: GameState::Game,
                scenario: ScenarioView::randomized(draws@),
                player: PlayerView { state: PlayerState::Idle, accumulator: 0, anim_frame: 0 },
                countdown: CountdownView {
                    seconds_left: old(self)@.countdown.seconds,
                    last_ticks: 0,
                    enabled: true,
                    ..old(self)@.countdown
                },
                score: 0,
                death_counter: 0,
            }),
            final(self)@.wf(),
    {
        self.scenario.randomize(draws);
        self.countdown.set_enabled(true);
        self.countdown.reset();
        self.player = Player::new();
        self.state = GameState::Game;
        self.score = 0;
        self.death_counter = 0;
    }

    /// Applies a successfully resolved action: the player strikes its pose
    /// and the queue advances with the fresh draw.
    pub fn do_action(&mut self, action: ActionType, draw: u32)
        ensures
            final(self)@ == (GameView {
                player: old(self)@.player.acting(action),
                scenario: old(self)@.scenario.advanced(draw),
                ..old(self)@
            }),
    {
        self.player.perform_action(action);
        self.scenario.next(draw);
    }

    /// One step of the round machine; `ticks` is the raw hardware counter
    /// reading, `edges` the buttons newly pressed this tick and `draw` a
    /// fresh random draw, consumed only when a correct press advances the
    /// queue.
    pub fn tick(&mut self, ticks: u32, edges: ButtonEdges, draw: u32)
        requires
            old(self)@.wf(),
            old(self)@.score < usize::MAX as int,
        ensures
            final(self)@ == old(self)@.stepped(ticks, edges, draw),
            final(self)@.wf(),
    {
        if matches!(self.state, GameState::GameOver) {
            return ;
        }
        if self.player.is_dead() {
            self.death_counter = self.death_counter + 1;
            if self.death_counter > LINGER_TICKS {
                self.state = GameState::GameOver;
            }
            return ;
        }
        self.countdown.update(ticks);
        if self.countdown.seconds_left() == 0 {
            self.player.kill();
            self.countdown.set_enabled(false);
            return ;
        }
        self.player.update();
        match resolve(&edges, self.scenario.current()) {
            Option::None => {},
            Option::Some(Verdict::Incorrect) => {
                self.player.kill();
                self.countdown.set_enabled(false);
            },
            Option::Some(Verdict::Correct(action)) => {
                self.do_action(action, draw);
                self.score = self.score + 1;
            },
        }
    }

    /// Enemies defeated this round: one per correctly resolved action.
    pub fn score(&self) -> (score: usize)
        ensures
            score as int == self@.score,
    {
        self.score
    }

    /// Seconds remaining before the round times out.
    pub fn seconds_remaining(&self) -> (left: usize)
        ensures
            left as int == self@.countdown.seconds_left,
    {
        self.countdown.seconds_left()
    }

    /// Whether the player is still alive.
    pub fn is_alive(&self) -> (alive: bool)
        ensures
            alive == (self@.player.state != PlayerState::Dead),
    {
        !self.player.is_dead()
    }

    /// The pose the player character is in, for the presentation layer.
    pub fn player_state(&self) -> (state: PlayerState)
        ensures
            state == self@.player.state,
    {
        self.player.state()
    }

    /// Whether the round has formally ended.
    pub fn is_game_over(&self) -> (over: bool)
        ensures
            over == (self@.state == GameState::GameOver),
    {
        matches!(self.state, GameState::GameOver)
    }

    /// The four upcoming scenarios in storage order, for drawing the
    /// pipeline; index 3 is the resolvable one.
    pub fn current_scenarios(&self) -> (scenarios: [ScenarioType; 4])
        ensures
            scenarios@ == self@.scenario.slots,
    {
        self.scenario.state
    }
}

} // verus!
