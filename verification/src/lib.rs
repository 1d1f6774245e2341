//! Core logic of a small reaction minigame.
//!
//! A rolling four-slot queue of hazard scenarios scrolls toward the player,
//! who must press the button bound to the frontmost scenario before a
//! countdown expires.  This crate holds the game's decision logic — the
//! scenario queue, the input resolver, the countdown accumulator and the
//! round state machine — as verified code over plain values.  Randomness,
//! button edges and the raw hardware tick counter enter as arguments; the
//! presentation layer queries the state each tick and draws it.

use vstd::prelude::*;

pub mod binding;
pub mod countdown;
pub mod gamestate;
pub mod laws;
pub mod player;
pub mod scenario;

verus! {

use crate::binding::ActionType;
use crate::player::Player;
use crate::scenario::{Scenario, ScenarioType};

/// Judges one candidate action against the scenario that is currently
/// resolvable: a mismatch kills the player and reports that the round is
/// lost, a match leaves the player untouched.
pub fn check_game_over(
    scenario: &Scenario,
    scenario_type: ScenarioType,
    player: &mut Player,
) -> (wrong: bool)
    ensures
        wrong == (scenario.current_spec() != scenario_type),
        wrong ==> final(player)@ == old(player)@.killed(),
        !wrong ==> final(player)@ == old(player)@,
{
    let wrong_action = scenario.current() != scenario_type;
    if wrong_action {
        player.kill();
    }
    wrong_action
}

/// Applies a successfully resolved action: the player performs it and the
/// scenario queue advances, injecting a slot drawn from `draw`.
pub fn do_action(scenario: &mut Scenario, action: ActionType, player: &mut Player, draw: u32)
    ensures
        final(scenario)@ == old(scenario)@.advanced(draw),
        final(player)@ == old(player)@.acting(action),
{
    player.perform_action(action);
    scenario.next(draw);
}

} // verus!
