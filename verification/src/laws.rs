//! The laws the round machine obeys, stated over the mathematical models
//! and proved once and for all: conservation of the scenario queue under
//! advancing, score monotonicity, the exact length of the death linger,
//! and the equivalence of a timeout with a wrong press.

use vstd::prelude::*;

verus! {

use vstd::seq_lib::group_to_multiset_ensures;
use vstd::multiset::group_multiset_axioms;

use crate::binding::{ButtonEdges, Verdict};
use crate::binding::resolve_spec;
use crate::gamestate::{GameState, GameView, LINGER_TICKS};
use crate::player::PlayerState;
use crate::scenario::{kind_of, ScenarioType, ScenarioView};

/// What one tick of the round machine consumes: a reading of the raw
/// hardware counter, the press edges observed, and one fresh random draw.
pub ghost struct TickInput {
    pub ticks: u32,
    pub edges: ButtonEdges,
    pub draw: u32,
}

/// The round after a whole sequence of ticks, first input first.
pub open spec fn run(g: GameView, inputs: Seq<TickInput>) -> GameView
    decreases inputs.len(),
{
    if inputs.len() == 0 {
        g
    } else {
        run(g.stepped(inputs[0].ticks, inputs[0].edges, inputs[0].draw), inputs.drop_first())
    }
}

/// One tick keeps the round's invariant.
pub proof fn lemma_step_preserves_wf(g: GameView, ticks: u32, edges: ButtonEdges, draw: u32)
    requires
        g.wf(),
    ensures
        g.stepped(ticks, edges, draw).wf(),
{
}

/// Running any sequence of ticks keeps the round's invariant.
pub proof fn lemma_run_preserves_wf(g: GameView, inputs: Seq<TickInput>)
    requires
        g.wf(),
    ensures
        run(g, inputs).wf(),
    decreases inputs.len(),
{
    if inputs.len() > 0 {
        lemma_run_preserves_wf(
            g.stepped(inputs[0].ticks, inputs[0].edges, inputs[0].draw),
            inputs.drop_first(),
        );
    }
}

/// Running a concatenation of tick sequences is running one after the
/// other.
pub proof fn lemma_run_append(g: GameView, first: Seq<TickInput>, second: Seq<TickInput>)
    ensures
        run(g, first + second) == run(run(g, first), second),
    decreases first.len(),
{
    if first.len() == 0 {
        assert(first + second =~= second);
    } else {
        assert((first + second)[0] == first[0]);
        assert((first + second).drop_first() =~= first.drop_first() + second);
        lemma_run_append(
            g.stepped(first[0].ticks, first[0].edges, first[0].draw),
            first.drop_first(),
            second,
        );
    }
}

/// Conservation of the queue under advancing: one advance is exactly a
/// rotation of the three surviving slots toward resolution plus one fresh
/// injection at the far end — as multisets, precisely the resolvable slot
/// leaves and the freshly drawn one enters; no other value is duplicated
/// or dropped.
pub proof fn lemma_advance_conservation(v: ScenarioView, draw: u32)
    requires
        v.wf(),
    ensures
        v.advanced(draw).slots[0] == kind_of(draw),
        forall|i: int| 0 <= i < 3 ==> v.advanced(draw).slots[i + 1] == v.slots[i],
        v.advanced(draw).slots.to_multiset() == v.slots.to_multiset().remove(v.current()).insert(
            kind_of(draw),
        ),
{
    broadcast use group_to_multiset_ensures;
    broadcast use group_multiset_axioms;

    let s = v.slots;
    let ns = v.advanced(draw).slots;
    let survivors = s.subrange(0, 3);
    assert(s.remove(3) =~= survivors);
    assert(survivors.to_multiset() =~= s.to_multiset().remove(s[3]));
    assert(ns.remove(0) =~= survivors);
    assert(survivors.to_multiset() =~= ns.to_multiset().remove(kind_of(draw)));
    assert(ns.contains(kind_of(draw))) by {
        assert(ns[0] == kind_of(draw));
    }
    assert(ns.to_multiset().count(kind_of(draw)) > 0);
    assert(ns.to_multiset().remove(kind_of(draw)).insert(kind_of(draw)) =~= ns.to_multiset());
    assert(ns.to_multiset() =~= s.to_multiset().remove(v.current()).insert(kind_of(draw)));
}

/// Each slot of a randomized queue is selected by its own draw alone, and
/// every scenario is reachable: draws congruent to 0, 1 and 2 modulo three
/// select Water, Volcano and Swamp respectively.
pub proof fn lemma_randomized_slots(draws: Seq<u32>)
    ensures
        ScenarioView::randomized(draws).wf(),
        forall|i: int|
            0 <= i < 4 ==> ScenarioView::randomized(draws).slots[i] == kind_of(draws[i]),
        kind_of(0) == ScenarioType::Water,
        kind_of(1) == ScenarioType::Volcano,
        kind_of(2) == ScenarioType::Swamp,
        forall|draw: u32| #[trigger] kind_of(draw) == kind_of(draw % 3),
{
}

/// The one condition under which a tick scores: the round is live, the
/// countdown does not expire on this reading, and the resolver judges the
/// press edges correct.
pub open spec fn scoring_tick(g: GameView, ticks: u32, edges: ButtonEdges) -> bool {
    &&& g.state == GameState::Game
    &&& g.player.state != PlayerState::Dead
    &&& g.countdown.ticked(ticks).seconds_left != 0
    &&& resolve_spec(edges, g.scenario.current()) matches Some(Verdict::Correct(_))
}

/// The score moves by exactly one on a scoring tick and not at all on any
/// other.
pub proof fn lemma_score_step(g: GameView, ticks: u32, edges: ButtonEdges, draw: u32)
    ensures
        g.stepped(ticks, edges, draw).score == if scoring_tick(g, ticks, edges) {
            g.score + 1
        } else {
            g.score
        },
{
}

/// The score never decreases over any sequence of ticks.
pub proof fn lemma_score_monotonic(g: GameView, inputs: Seq<TickInput>)
    ensures
        run(g, inputs).score >= g.score,
    decreases inputs.len(),
{
    if inputs.len() > 0 {
        lemma_score_monotonic(
            g.stepped(inputs[0].ticks, inputs[0].edges, inputs[0].draw),
            inputs.drop_first(),
        );
    }
}

/// While the dead round is still within its linger allowance, ticks do
/// nothing but count: the state stays in play and the scenario queue,
/// score, player and countdown — seconds included — are untouched.
pub proof fn lemma_death_linger(g: GameView, inputs: Seq<TickInput>)
    requires
        g.state == GameState::Game,
        g.player.state == PlayerState::Dead,
        g.death_counter + inputs.len() <= LINGER_TICKS,
    ensures
        run(g, inputs) == (GameView {
            death_counter: g.death_counter + inputs.len(),
            ..g
        }),
    decreases inputs.len(),
{
    if inputs.len() == 0 {
        assert(run(g, inputs) =~= (GameView { death_counter: g.death_counter + 0, ..g }));
    } else {
        let g1 = g.stepped(inputs[0].ticks, inputs[0].edges, inputs[0].draw);
        assert(g1 =~= (GameView { death_counter: g.death_counter + 1, ..g }));
        lemma_death_linger(g1, inputs.drop_first());
        assert(run(g, inputs) =~= (GameView {
            death_counter: g.death_counter + inputs.len(),
            ..g
        }));
    }
}

/// A round that has just died stays in play for exactly the linger
/// allowance of further ticks and becomes game over on the tick after,
/// with the countdown, score and queue exactly as they were at death.
pub proof fn lemma_linger_then_game_over(g: GameView, inputs: Seq<TickInput>)
    requires
        g.wf(),
        g.state == GameState::Game,
        g.player.state == PlayerState::Dead,
        g.death_counter == 0,
        inputs.len() == LINGER_TICKS + 1,
    ensures
        run(g, inputs).state == GameState::GameOver,
        run(g, inputs).countdown == g.countdown,
        run(g, inputs).score == g.score,
        run(g, inputs).scenario == g.scenario,
    decreases inputs.len(),
{
    let lingering = inputs.take(LINGER_TICKS as int);
    let last = inputs.skip(LINGER_TICKS as int);
    assert(inputs =~= lingering + last);
    lemma_run_append(g, lingering, last);
    lemma_death_linger(g, lingering);
    let worn = run(g, lingering);
    assert(worn.death_counter == LINGER_TICKS);
    let over = worn.stepped(last[0].ticks, last[0].edges, last[0].draw);
    assert(over.state == GameState::GameOver);
    assert(run(worn, last) == run(over, last.drop_first()));
    assert(last.drop_first() =~= Seq::<TickInput>::empty());
}

/// Two dead rounds with the same linger count reach game over in
/// lockstep, whatever else distinguishes them.
pub proof fn lemma_dead_lockstep(g1: GameView, g2: GameView, inputs: Seq<TickInput>)
    requires
        g1.player.state == PlayerState::Dead,
        g2.player.state == PlayerState::Dead,
        g1.state == g2.state,
        g1.death_counter == g2.death_counter,
    ensures
        run(g1, inputs).state == run(g2, inputs).state,
        run(g1, inputs).death_counter == run(g2, inputs).death_counter,
        run(g1, inputs).player.state == PlayerState::Dead,
        run(g2, inputs).player.state == PlayerState::Dead,
    decreases inputs.len(),
{
    if inputs.len() > 0 {
        lemma_dead_lockstep(
            g1.stepped(inputs[0].ticks, inputs[0].edges, inputs[0].draw),
            g2.stepped(inputs[0].ticks, inputs[0].edges, inputs[0].draw),
            inputs.drop_first(),
        );
    }
}

/// A countdown that reaches zero is fatal in exactly the way a wrong press
/// is: both kill the player with the linger count untouched at zero, the
/// round then stays in play for the same further ticks, and both reach
/// game over in lockstep — after exactly the linger allowance plus one.
pub proof fn lemma_timeout_equivalence(
    g: GameView,
    timeout_in: TickInput,
    wrong_in: TickInput,
    after: Seq<TickInput>,
)
    requires
        g.wf(),
        g.state == GameState::Game,
        g.player.state != PlayerState::Dead,
        g.countdown.ticked(timeout_in.ticks).seconds_left == 0,
        g.countdown.ticked(wrong_in.ticks).seconds_left != 0,
        resolve_spec(wrong_in.edges, g.scenario.current()) == Some(Verdict::Incorrect),
    ensures
        ({
            let by_timeout = g.stepped(timeout_in.ticks, timeout_in.edges, timeout_in.draw);
            let by_wrong = g.stepped(wrong_in.ticks, wrong_in.edges, wrong_in.draw);
            &&& by_timeout.player.state == PlayerState::Dead
            &&& by_wrong.player.state == PlayerState::Dead
            &&& by_timeout.death_counter == 0
            &&& by_wrong.death_counter == 0
            &&& by_timeout.state == GameState::Game
            &&& by_wrong.state == GameState::Game
            &&& run(by_timeout, after).state == run(by_wrong, after).state
            &&& (after.len() <= LINGER_TICKS ==> run(by_timeout, after).state == GameState::Game)
            &&& (after.len() == LINGER_TICKS + 1 ==> run(by_timeout, after).state
                == GameState::GameOver)
        }),
{
    let by_timeout = g.stepped(timeout_in.ticks, timeout_in.edges, timeout_in.draw);
    let by_wrong = g.stepped(wrong_in.ticks, wrong_in.edges, wrong_in.draw);
    lemma_step_preserves_wf(g, timeout_in.ticks, timeout_in.edges, timeout_in.draw);
    lemma_dead_lockstep(by_timeout, by_wrong, after);
    if after.len() <= LINGER_TICKS {
        lemma_death_linger(by_timeout, after);
    }
    if after.len() == LINGER_TICKS + 1 {
        lemma_linger_then_game_over(by_timeout, after);
    }
}

} // verus!
