//! The rule engine: named acceptance predicates over a bounded window of
//! previously accepted vertices, most recent first.

use crate::types::Vertex;
use std::collections::VecDeque;
use vstd::arithmetic::div_mod::{lemma_mod_multiples_vanish, lemma_small_mod};
use vstd::prelude::*;

verus! {

/// The available acceptance rules. Each rule carries the length of the
/// history window its predicate is entitled to see.
#[derive(Clone, Copy, Debug, PartialEq, Eq, Structural)]
pub enum Rule {
    /// Accepts every candidate; sees no history.
    Default,
    /// Rejects a candidate equal to the most recently accepted vertex;
    /// sees one vertex of history.
    NoRepeats,
    /// When the two most recent vertices coincide, rejects their
    /// immediate circular neighbours; sees two vertices of history.
    Star,
}

impl Rule {
    /// The maximum number of prior accepted vertices the rule's
    /// predicate is entitled to see.
    pub open spec fn history_length_spec(self) -> nat {
        match self {
            Rule::Default => 0,
            Rule::NoRepeats => 1,
            Rule::Star => 2,
        }
    }

    /// The capacity of the history window this rule requires.
    pub fn history_length(&self) -> (r: usize)
        ensures
            r == self.history_length_spec(),
    {
        match self {
            Rule::Default => 0,
            Rule::NoRepeats => 1,
            Rule::Star => 2,
        }
    }
}

/// Whether a rule accepts a candidate vertex given the window of
/// previously accepted vertices, most recent first.
pub open spec fn accepts(rule: Rule, history: Seq<Vertex>, candidate: Vertex) -> bool {
    match rule {
        Rule::Default => true,
        Rule::NoRepeats => history.len() == 0 || history[0].index != candidate.index,
        Rule::Star => history.len() < 2 || history[0].index != history[1].index || {
            let sides = candidate.sides as int;
            &&& candidate.index as int != (history[0].index + 1) % sides
            &&& candidate.index as int != (history[0].index + sides - 1) % sides
        },
    }
}

/// Evaluates a rule's predicate on the current history window and a
/// candidate vertex.
pub fn evaluate(rule: Rule, history: &VecDeque<Vertex>, candidate: &Vertex) -> (r: bool)
    requires
        candidate.wf(),
        forall|i: int| 0 <= i < history@.len() ==> #[trigger] history@[i].index < candidate.sides,
    ensures
        r == accepts(rule, history@, *candidate),
{
    match rule {
        Rule::Default => true,
        Rule::NoRepeats => history.len() == 0 || history[0].index != candidate.index,
        Rule::Star => {
            if history.len() < 2 {
                return true;
            }
            let last = history[0].index;
            if last != history[1].index {
                return true;
            }
            let sides = candidate.sides;
            let successor = if last + 1 == sides {
                0
            } else {
                last + 1
            };
            let predecessor = if last == 0 {
                sides - 1
            } else {
                last - 1
            };
            proof {
                if last + 1 == sides {
                    lemma_mod_multiples_vanish(1, 0, sides as int);
                } else {
                    lemma_small_mod((last + 1) as nat, sides as nat);
                }
                if last == 0 {
                    lemma_small_mod((sides - 1) as nat, sides as nat);
                } else {
                    lemma_mod_multiples_vanish(1, last - 1, sides as int);
                    lemma_small_mod((last - 1) as nat, sides as nat);
                }
            }
            if candidate.index == successor {
                return false;
            }
            if candidate.index == predecessor {
                return false;
            }
            true
        },
    }
}

/// Looks up a rule by its registered name: the rules above answer to
/// "default", "no-repeats" and "star".
pub fn get_rule_by_name(name: &str) -> (r: Option<Rule>)
    ensures
        r == if name@ == "default"@ {
            Some(Rule::Default)
        } else if name@ == "no-repeats"@ {
            Some(Rule::NoRepeats)
        } else if name@ == "star"@ {
            Some(Rule::Star)
        } else {
            None::<Rule>
        },
{
    let owned = String::from_str(name);
    if owned == String::from_str("default") {
        Some(Rule::Default)
    } else if owned == String::from_str("no-repeats") {
        Some(Rule::NoRepeats)
    } else if owned == String::from_str("star") {
        Some(Rule::Star)
    } else {
        None
    }
}

/// The window that a rule of the given history capacity sees after the
/// vertices of `s` have been accepted in order: the most recent `cap` of
/// them, most recent first.
pub open spec fn window_after(s: Seq<Vertex>, cap: nat) -> Seq<Vertex> {
    let len = if s.len() < cap {
        s.len()
    } else {
        cap
    };
    Seq::new(len, |i: int| s[s.len() - 1 - i])
}

/// Whether every vertex of `s` is accepted by the rule, given the window
/// of those before it.
pub open spec fn accepted_run(rule: Rule, s: Seq<Vertex>) -> bool {
    forall|i: int|
        0 <= i < s.len() ==> accepts(
            rule,
            window_after(s.take(i), rule.history_length_spec()),
            #[trigger] s[i],
        )
}

/// Pushing a newly accepted vertex onto a run: the window that the next
/// candidate will see starts with the new vertex, followed by the old
/// window with its oldest entry evicted if it was at capacity.
pub proof fn lemma_window_push(s: Seq<Vertex>, v: Vertex, cap: nat)
    requires
        cap >= 1,
    ensures
        window_after(s.push(v), cap) == seq![v] + window_after(s, (cap - 1) as nat),
{
    let lhs = window_after(s.push(v), cap);
    let rhs = seq![v] + window_after(s, (cap - 1) as nat);
    assert forall|i: int| 0 <= i < lhs.len() implies lhs[i] == rhs[i] by {
        if i > 0 {
            assert(s.push(v)[s.len() - i] == s[s.len() - i]);
        }
    }
    assert(lhs =~= rhs);
}

/// Extending a run by a vertex that the rule accepts, given the window
/// the run has built up, yields a run again.
pub proof fn lemma_run_push(rule: Rule, s: Seq<Vertex>, v: Vertex)
    requires
        accepted_run(rule, s),
        accepts(rule, window_after(s, rule.history_length_spec()), v),
    ensures
        accepted_run(rule, s.push(v)),
{
    let t = s.push(v);
    assert forall|i: int|
        0 <= i < t.len() implies accepts(
        rule,
        window_after(t.take(i), rule.history_length_spec()),
        #[trigger] t[i],
    ) by {
        if i < s.len() {
            assert(t.take(i) =~= s.take(i));
            assert(t[i] == s[i]);
        } else {
            assert(t.take(i) =~= s);
            assert(t[i] == v);
        }
    }
}

/// The permissive rule accepts every candidate, whatever the window.
pub proof fn lemma_default_always_accepts(history: Seq<Vertex>, candidate: Vertex)
    ensures
        accepts(Rule::Default, history, candidate),
{
}

/// Under the no-repeats rule, a run of accepted vertices never contains
/// the same vertex twice in a row.
pub proof fn lemma_no_repeats_run(s: Seq<Vertex>)
    requires
        accepted_run(Rule::NoRepeats, s),
    ensures
        forall|i: int| 0 < i < s.len() ==> s[i].index != #[trigger] s[i - 1].index,
{
    assert forall|i: int| 0 < i < s.len() implies s[i].index != #[trigger] s[i - 1].index by {
        let w = window_after(s.take(i), 1);
        assert(accepts(Rule::NoRepeats, w, s[i]));
        assert(w[0] == s[i - 1]);
    }
}

/// Under the star rule, a candidate accepted just after the same vertex
/// was chosen twice in a row is not an immediate circular neighbour of
/// that vertex.
pub proof fn lemma_star_blocks_neighbours(history: Seq<Vertex>, candidate: Vertex)
    requires
        history.len() >= 2,
        history[0].index == history[1].index,
        accepts(Rule::Star, history, candidate),
    ensures
        candidate.index as int != (history[0].index + 1) % (candidate.sides as int),
        candidate.index as int != (history[0].index + candidate.sides - 1) % (
        candidate.sides as int),
{
}

} // verus!
