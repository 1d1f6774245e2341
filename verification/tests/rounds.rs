use reaction_round::binding::{ActionType, ButtonEdges};
use reaction_round::check_game_over;
use reaction_round::countdown::SECOND_TICKS;
use reaction_round::do_action;
use reaction_round::gamestate::{Game, LINGER_TICKS, ROUND_SECONDS};
use reaction_round::player::{Player, PlayerState};
use reaction_round::scenario::{Scenario, ScenarioType};

fn press_l() -> ButtonEdges {
    ButtonEdges { l: true, r: false, b: false, a: false, start: false }
}

fn press_b() -> ButtonEdges {
    ButtonEdges { l: false, r: false, b: true, a: false, start: false }
}

#[test]
fn fresh_round_exposes_its_state() {
    let g = Game::new(&[0, 2, 1, 0]);
    assert_eq!(g.score(), 0);
    assert_eq!(g.seconds_remaining(), ROUND_SECONDS);
    assert!(g.is_alive());
    assert!(!g.is_game_over());
    assert_eq!(
        g.current_scenarios(),
        [ScenarioType::Water, ScenarioType::Swamp, ScenarioType::Volcano, ScenarioType::Water]
    );
    assert_eq!(g.player_state(), PlayerState::Idle);
}

#[test]
fn end_to_end_correct_then_wrong_then_linger_to_game_over() {
    // Queue in resolution order: Water, Volcano, Swamp, Water.
    let mut g = Game::new(&[0, 2, 1, 0]);
    assert_eq!(g.scenario.current(), ScenarioType::Water);

    // The button bound to (Water, Attack) scores and advances the queue.
    g.tick(0, press_l(), 0);
    assert_eq!(g.score(), 1);
    assert_eq!(g.scenario.current(), ScenarioType::Volcano);
    assert_eq!(g.player_state(), PlayerState::Attack);
    assert!(g.is_alive());

    // The button bound to (Swamp, Shield) against Volcano is fatal.
    g.tick(0, press_b(), 0);
    assert!(!g.is_alive());
    assert!(!g.is_game_over());
    assert_eq!(g.score(), 1);

    // The dead round lingers for exactly LINGER_TICKS further ticks...
    for _ in 0..LINGER_TICKS {
        g.tick(0, ButtonEdges::none(), 0);
        assert!(!g.is_game_over());
    }
    // ...and the tick after ends it.
    g.tick(0, ButtonEdges::none(), 0);
    assert!(g.is_game_over());
    assert_eq!(g.score(), 1);
}

#[test]
fn score_counts_one_per_correct_press_and_never_falls() {
    // An all-Water queue refilled with Water draws: L is always correct.
    let mut g = Game::new(&[0, 0, 0, 0]);
    let mut last_score = 0;
    for expected in 1..=5 {
        g.tick(0, press_l(), 0);
        assert_eq!(g.score(), expected);
        assert!(g.score() >= last_score);
        last_score = g.score();
    }
    // Ticks without input leave the score alone.
    g.tick(0, ButtonEdges::none(), 0);
    assert_eq!(g.score(), 5);
}

#[test]
fn simultaneous_presses_score_at_most_once() {
    let mut g = Game::new(&[0, 0, 0, 0]);
    // L (correct) and B (would be wrong) in one tick: first match wins,
    // exactly one point, still alive.
    let both = ButtonEdges { l: true, r: false, b: true, a: false, start: false };
    g.tick(0, both, 0);
    assert_eq!(g.score(), 1);
    assert!(g.is_alive());
}

#[test]
fn first_match_decides_even_when_a_later_press_would_be_correct() {
    // Current is Swamp: B alone would be correct, but L comes first in
    // the binding table and is wrong.
    let mut g = Game::new(&[0, 0, 0, 2]);
    let both = ButtonEdges { l: true, r: false, b: true, a: false, start: false };
    g.tick(0, both, 0);
    assert!(!g.is_alive());
    assert_eq!(g.score(), 0);
}

#[test]
fn timeout_kills_like_a_wrong_press_with_the_same_linger() {
    let mut g = Game::new(&[0, 0, 0, 0]);
    // One whole second per tick; the countdown reaches zero on the tenth.
    for i in 1..=ROUND_SECONDS as u32 {
        assert!(g.is_alive());
        g.tick(i * SECOND_TICKS, ButtonEdges::none(), 0);
    }
    assert_eq!(g.seconds_remaining(), 0);
    assert!(!g.is_alive());
    assert!(!g.is_game_over());
    for _ in 0..LINGER_TICKS {
        g.tick(0, ButtonEdges::none(), 0);
        assert!(!g.is_game_over());
    }
    g.tick(0, ButtonEdges::none(), 0);
    assert!(g.is_game_over());
}

#[test]
fn press_on_the_expiry_tick_is_ignored() {
    let mut g = Game::new(&[0, 0, 0, 0]);
    for i in 1..ROUND_SECONDS as u32 {
        g.tick(i * SECOND_TICKS, ButtonEdges::none(), 0);
    }
    assert_eq!(g.seconds_remaining(), 1);
    // The countdown expires on this very tick; the (correct) press no
    // longer counts.
    g.tick(ROUND_SECONDS as u32 * SECOND_TICKS, press_l(), 0);
    assert!(!g.is_alive());
    assert_eq!(g.score(), 0);
}

#[test]
fn countdown_is_frozen_while_lingering() {
    let mut g = Game::new(&[0, 0, 0, 0]);
    // Two seconds pass, then a wrong press kills.
    g.tick(SECOND_TICKS, ButtonEdges::none(), 0);
    g.tick(2 * SECOND_TICKS, ButtonEdges::none(), 0);
    assert_eq!(g.seconds_remaining(), ROUND_SECONDS - 2);
    g.tick(2 * SECOND_TICKS, press_b(), 0);
    assert!(!g.is_alive());
    // Readings that would each cost a second are ignored while dead.
    for i in 3..=20u32 {
        g.tick(i * SECOND_TICKS, ButtonEdges::none(), 0);
        assert_eq!(g.seconds_remaining(), ROUND_SECONDS - 2);
    }
}

#[test]
fn input_is_ignored_while_lingering() {
    let mut g = Game::new(&[0, 0, 0, 0]);
    g.tick(0, press_b(), 0);
    assert!(!g.is_alive());
    // Correct presses during the linger neither score nor revive.
    for _ in 0..10 {
        g.tick(0, press_l(), 0);
        assert_eq!(g.score(), 0);
        assert!(!g.is_alive());
    }
}

#[test]
fn restart_begins_a_fresh_round() {
    let mut g = Game::new(&[0, 0, 0, 0]);
    g.tick(0, press_l(), 0);
    g.tick(0, press_b(), 0);
    for _ in 0..=LINGER_TICKS {
        g.tick(0, ButtonEdges::none(), 0);
    }
    assert!(g.is_game_over());
    g.restart(&[1, 1, 1, 1]);
    assert!(g.is_alive());
    assert!(!g.is_game_over());
    assert_eq!(g.score(), 0);
    assert_eq!(g.seconds_remaining(), ROUND_SECONDS);
    assert_eq!(g.current_scenarios(), [ScenarioType::Volcano; 4]);
    assert_eq!(g.player_state(), PlayerState::Idle);
}

#[test]
fn game_over_state_no_longer_changes() {
    let mut g = Game::new(&[0, 0, 0, 0]);
    g.tick(0, press_b(), 0);
    for _ in 0..=LINGER_TICKS {
        g.tick(0, ButtonEdges::none(), 0);
    }
    assert!(g.is_game_over());
    let scenarios = g.current_scenarios();
    g.tick(SECOND_TICKS, press_l(), 1);
    assert!(g.is_game_over());
    assert_eq!(g.score(), 0);
    assert_eq!(g.current_scenarios(), scenarios);
}

#[test]
fn action_pose_returns_to_idle_after_a_few_ticks() {
    let mut g = Game::new(&[0, 0, 0, 0]);
    g.tick(0, press_l(), 0);
    assert_eq!(g.player_state(), PlayerState::Attack);
    for _ in 0..7 {
        g.tick(0, ButtonEdges::none(), 0);
        assert_eq!(g.player_state(), PlayerState::Attack);
    }
    g.tick(0, ButtonEdges::none(), 0);
    assert_eq!(g.player_state(), PlayerState::Idle);
}

#[test]
fn check_game_over_kills_only_on_a_mismatch() {
    let mut s = Scenario::new();
    s.randomize(&[0, 0, 0, 1]);
    let mut p = Player::new();
    assert!(!check_game_over(&s, ScenarioType::Volcano, &mut p));
    assert!(!p.is_dead());
    assert!(check_game_over(&s, ScenarioType::Water, &mut p));
    assert!(p.is_dead());
}

#[test]
fn do_action_poses_the_player_and_advances_the_queue() {
    let mut s = Scenario::new();
    s.randomize(&[0, 1, 2, 0]);
    let mut p = Player::new();
    do_action(&mut s, ActionType::Jump, &mut p, 2);
    assert_eq!(p.state(), PlayerState::Jump);
    assert_eq!(
        s.state,
        [ScenarioType::Swamp, ScenarioType::Water, ScenarioType::Volcano, ScenarioType::Swamp]
    );
}

#[test]
fn game_do_action_matches_the_free_function() {
    let mut g = Game::new(&[0, 1, 2, 0]);
    g.do_action(ActionType::Shield, 1);
    assert_eq!(g.player_state(), PlayerState::Shield);
    assert_eq!(
        g.current_scenarios(),
        [ScenarioType::Volcano, ScenarioType::Water, ScenarioType::Volcano, ScenarioType::Swamp]
    );
}
