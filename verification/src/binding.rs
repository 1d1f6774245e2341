//! The fixed button bindings and the resolver that judges input against the
//! currently resolvable scenario.
//!
//! The binding table is an ordered list; resolution is first-match-wins: of
//! the buttons newly pressed this tick, only the earliest binding in table
//! order is evaluated, and any further pressed buttons are ignored for the
//! tick.

use vstd::prelude::*;

verus! {

use crate::scenario::ScenarioType;

/// The action the player character performs on a correct press.
#[derive(Clone, Copy, PartialEq, Eq, Structural, Debug)]
pub enum ActionType {
    Attack,
    Shield,
    Jump,
}

/// The physical controls the game reads.
#[derive(Clone, Copy, PartialEq, Eq, Structural, Debug)]
pub enum Button {
    L,
    R,
    B,
    A,
    Start,
}

/// The set of buttons whose press edge was observed this tick.
#[derive(Clone, Copy, PartialEq, Eq, Structural, Debug)]
pub struct ButtonEdges {
    pub l: bool,
    pub r: bool,
    pub b: bool,
    pub a: bool,
    pub start: bool,
}

impl ButtonEdges {
    /// Whether `button`'s press edge is in the set.
    pub open spec fn pressed_spec(self, button: Button) -> bool {
        match button {
            Button::L => self.l,
            Button::R => self.r,
            Button::B => self.b,
            Button::A => self.a,
            Button::Start => self.start,
        }
    }

    /// Membership test for one button's press edge.
    pub fn pressed(&self, button: Button) -> (hit: bool)
        ensures
            hit == self.pressed_spec(button),
    {
        match button {
            Button::L => self.l,
            Button::R => self.r,
            Button::B => self.b,
            Button::A => self.a,
            Button::Start => self.start,
        }
    }

    /// The empty edge set: no button was pressed this tick.
    pub fn none() -> (edges: ButtonEdges)
        ensures
            edges == (ButtonEdges { l: false, r: false, b: false, a: false, start: false }),
    {
        ButtonEdges { l: false, r: false, b: false, a: false, start: false }
    }
}

/// One entry of the binding table: pressing `button` claims that the
/// resolvable scenario is `scenario`, and performs `action` if that is so.
#[derive(Clone, Copy, PartialEq, Eq, Structural, Debug)]
pub struct Binding {
    pub button: Button,
    pub scenario: ScenarioType,
    pub action: ActionType,
}

/// The resolver's verdict on one observed press.
#[derive(Clone, Copy, PartialEq, Eq, Structural, Debug)]
pub enum Verdict {
    Correct(ActionType),
    Incorrect,
}

/// The fixed binding table, in resolution order.
pub open spec fn binding_table() -> Seq<Binding> {
    seq![
        Binding { button: Button::L, scenario: ScenarioType::Water, action: ActionType::Attack },
        Binding { button: Button::R, scenario: ScenarioType::Volcano, action: ActionType::Jump },
        Binding { button: Button::B, scenario: ScenarioType::Swamp, action: ActionType::Shield },
        Binding { button: Button::A, scenario: ScenarioType::Swamp, action: ActionType::Shield },
    ]
}

/// The binding table as executable data.
pub fn bindings() -> (table: Vec<Binding>)
    ensures
        table@ == binding_table(),
{
    let table = vec![
        Binding { button: Button::L, scenario: ScenarioType::Water, action: ActionType::Attack },
        Binding { button: Button::R, scenario: ScenarioType::Volcano, action: ActionType::Jump },
        Binding { button: Button::B, scenario: ScenarioType::Swamp, action: ActionType::Shield },
        Binding { button: Button::A, scenario: ScenarioType::Swamp, action: ActionType::Shield },
    ];
    proof {
        assert(table@ =~= binding_table());
    }
    table
}

/// First-match resolution over a suffix of the binding table: the verdict of
/// the earliest entry whose button is pressed, or no verdict if none is.
pub open spec fn resolve_from(
    table: Seq<Binding>,
    edges: ButtonEdges,
    current: ScenarioType,
) -> Option<Verdict>
    decreases table.len(),
{
    if table.len() == 0 {
        None
    } else if edges.pressed_spec(table[0].button) {
        if table[0].scenario == current {
            Some(Verdict::Correct(table[0].action))
        } else {
            Some(Verdict::Incorrect)
        }
    } else {
        resolve_from(table.drop_first(), edges, current)
    }
}

/// The verdict the fixed binding table gives to this tick's press edges
/// against the resolvable scenario.
pub open spec fn resolve_spec(edges: ButtonEdges, current: ScenarioType) -> Option<Verdict> {
    resolve_from(binding_table(), edges, current)
}

/// Skipping entries whose buttons are not pressed leaves the verdict
/// unchanged.
proof fn lemma_resolve_from_skip(
    table: Seq<Binding>,
    edges: ButtonEdges,
    current: ScenarioType,
    i: int,
)
    requires
        0 <= i <= table.len(),
        forall|j: int| 0 <= j < i ==> !edges.pressed_spec(#[trigger] table[j].button),
    ensures
        resolve_from(table, edges, current) == resolve_from(table.skip(i), edges, current),
    decreases i,
{
    if i > 0 {
        assert(table.drop_first().skip(i - 1) =~= table.skip(i));
        lemma_resolve_from_skip(table.drop_first(), edges, current, i - 1);
    } else {
        assert(table.skip(0) =~= table);
    }
}

/// Maps this tick's press edges to a verdict against the resolvable
/// scenario, first match in binding-table order winning.  No bound button
/// pressed means no judgment is made.
pub fn resolve(edges: &ButtonEdges, current: ScenarioType) -> (verdict: Option<Verdict>)
    ensures
        verdict == resolve_spec(*edges, current),
{
    let table = bindings();
    let mut i: usize = 0;
    while i < table.len()
        invariant
            0 <= i <= table@.len(),
            table@ == binding_table(),
            forall|j: int| 0 <= j < i ==> !edges.pressed_spec(#[trigger] table@[j].button),
        decreases table@.len() - i,
    {
        let b = table[i];
        if edges.pressed(b.button) {
            proof {
                lemma_resolve_from_skip(binding_table(), *edges, current, i as int);
                assert(binding_table().skip(i as int)[0] == binding_table()[i as int]);
            }
            if b.scenario == current {
                return Some(Verdict::Correct(b.action));
            } else {
                return Some(Verdict::Incorrect);
            }
        }
        i += 1;
    }
    proof {
        lemma_resolve_from_skip(binding_table(), *edges, current, binding_table().len() as int);
    }
    None
}

/// The resolver's full case analysis: no verdict exactly when no bound
/// button is pressed, and otherwise the earliest pressed binding in table
/// order alone decides, comparing its required scenario with the current
/// one.
pub proof fn lemma_resolver_correctness(edges: ButtonEdges, current: ScenarioType)
    ensures
        (resolve_spec(edges, current) is None) <==> (!edges.l && !edges.r && !edges.b && !edges.a),
        edges.l ==> resolve_spec(edges, current) == Some(
            if current == ScenarioType::Water {
                Verdict::Correct(ActionType::Attack)
            } else {
                Verdict::Incorrect
            },
        ),
        !edges.l && edges.r ==> resolve_spec(edges, current) == Some(
            if current == ScenarioType::Volcano {
                Verdict::Correct(ActionType::Jump)
            } else {
                Verdict::Incorrect
            },
        ),
        !edges.l && !edges.r && edges.b ==> resolve_spec(edges, current) == Some(
            if current == ScenarioType::Swamp {
                Verdict::Correct(ActionType::Shield)
            } else {
                Verdict::Incorrect
            },
        ),
        !edges.l && !edges.r && !edges.b && edges.a ==> resolve_spec(edges, current) == Some(
            if current == ScenarioType::Swamp {
                Verdict::Correct(ActionType::Shield)
            } else {
                Verdict::Incorrect
            },
        ),
{
    reveal_with_fuel(resolve_from, 5);
}

} // verus!
