//! The rolling four-slot queue of upcoming scenarios.
//!
//! Slot 3 is the scenario the player must act against right now; slot 0 is
//! the farthest away.  Advancing the queue discards slot 3, shifts the rest
//! one position toward resolution and injects a freshly drawn scenario at
//! slot 0.  Random draws enter as raw `u32` values and are reduced modulo
//! three onto the scenario alphabet.

use vstd::prelude::*;

verus! {

/// One of the three hazard types the player reacts to.
#[derive(Clone, Copy, PartialEq, Eq, Structural, Debug)]
pub enum ScenarioType {
    Water,
    Volcano,
    Swamp,
}

/// The scenario selected by one raw random draw: the draw is reduced modulo
/// three and indexes the fixed alphabet Water, Volcano, Swamp.
pub open spec fn kind_of(draw: u32) -> ScenarioType {
    if draw % 3 == 0 {
        ScenarioType::Water
    } else if draw % 3 == 1 {
        ScenarioType::Volcano
    } else {
        ScenarioType::Swamp
    }
}

/// Mathematical model of the queue: the four slots in storage order,
/// slot 3 nearest to resolution.
#[verifier::ext_equal]
pub ghost struct ScenarioView {
    pub slots: Seq<ScenarioType>,
}

impl ScenarioView {
    /// The queue always holds exactly four slots.
    pub open spec fn wf(self) -> bool {
        self.slots.len() == 4
    }

    /// The scenario that is currently resolvable.
    pub open spec fn current(self) -> ScenarioType {
        self.slots[3]
    }

    /// The queue after one advance: slot 3 is discarded, the remaining
    /// slots shift toward resolution, and the scenario drawn from `draw`
    /// enters at slot 0.
    pub open spec fn advanced(self, draw: u32) -> ScenarioView {
        ScenarioView { slots: seq![kind_of(draw)] + self.slots.subrange(0, 3) }
    }

    /// The queue produced by four independent draws, one per slot.
    pub open spec fn randomized(draws: Seq<u32>) -> ScenarioView {
        ScenarioView { slots: Seq::new(4, |i: int| kind_of(draws[i])) }
    }
}

/// The four-slot prediction queue.
pub struct Scenario {
    /// The slots in storage order; index 3 is the resolvable one.
    pub state: [ScenarioType; 4],
}

impl View for Scenario {
    type V = ScenarioView;

    open spec fn view(&self) -> ScenarioView {
        ScenarioView { slots: self.state@ }
    }
}

/// Maps one raw random draw onto the scenario alphabet.
pub fn kind_from_draw(draw: u32) -> (kind: ScenarioType)
    ensures
        kind == kind_of(draw),
{
    let r = draw % 3;
    if r == 0 {
        ScenarioType::Water
    } else if r == 1 {
        ScenarioType::Volcano
    } else {
        ScenarioType::Swamp
    }
}

impl Scenario {
    /// A fresh queue, uniformly filled; callers randomize it at round start.
    pub fn new() -> (scenario: Scenario)
        ensures
            scenario@.slots == seq![
                ScenarioType::Water,
                ScenarioType::Water,
                ScenarioType::Water,
                ScenarioType::Water,
            ],
    {
        let scenario = Scenario {
            state: [
                ScenarioType::Water,
                ScenarioType::Water,
                ScenarioType::Water,
                ScenarioType::Water,
            ],
        };
        proof {
            assert(scenario@.slots =~= seq![
                ScenarioType::Water,
                ScenarioType::Water,
                ScenarioType::Water,
                ScenarioType::Water,
            ]);
        }
        scenario
    }

    /// Replaces every slot with an independently drawn scenario; slot `i`
    /// depends on `draws[i]` alone.
    pub fn randomize(&mut self, draws: &[u32; 4])
        ensures
            final(self)@ == ScenarioView::randomized(draws@),
    {
        self.state = [
            kind_from_draw(draws[0]),
            kind_from_draw(draws[1]),
            kind_from_draw(draws[2]),
            kind_from_draw(draws[3]),
        ];
        proof {
            assert(self@.slots =~= ScenarioView::randomized(draws@).slots);
        }
    }

    /// Advances the queue by one position: the resolvable slot is consumed,
    /// the rest shift toward resolution, and a fresh draw enters at the far
    /// end.
    pub fn next(&mut self, draw: u32)
        ensures
            final(self)@ == old(self)@.advanced(draw),
    {
        let s0 = self.state[0];
        let s1 = self.state[1];
        let s2 = self.state[2];
        self.state = [kind_from_draw(draw), s0, s1, s2];
        proof {
            assert(self@.slots =~= old(self)@.advanced(draw).slots);
        }
    }

    /// The scenario the player must act against right now.
    pub fn current(&self) -> (kind: ScenarioType)
        ensures
            kind == self.current_spec(),
    {
        self.state[3]
    }

    /// The resolvable slot, as the contracts speak of it.
    pub open spec fn current_spec(&self) -> ScenarioType {
        self@.current()
    }
}

} // verus!
