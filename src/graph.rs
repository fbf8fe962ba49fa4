use vstd::prelude::*;

verus! {

/// The leaf states; exactly one of them is active at any time.
#[derive(Clone, Copy, Debug, PartialEq, Eq, Structural)]
pub enum State {
    Waiting,
    ProcessingNumber,
    StoringNumber,
}

/// States that are never active themselves and only serve as ancestors.
#[derive(Clone, Copy, Debug, PartialEq, Eq, Structural)]
pub enum Superstate {
    Busy,
}

/// A rung of the superstate chain: a leaf state or one of its ancestors.
#[derive(Clone, Copy, Debug, PartialEq, Eq, Structural)]
pub enum StateOrSuperstate {
    State(State),
    Superstate(Superstate),
}

/// The parent relation of the state graph.
pub open spec fn parent(n: StateOrSuperstate) -> Option<Superstate> {
    match n {
        StateOrSuperstate::State(State::Waiting) => None,
        StateOrSuperstate::State(State::ProcessingNumber) => Some(Superstate::Busy),
        StateOrSuperstate::State(State::StoringNumber) => Some(Superstate::Busy),
        StateOrSuperstate::Superstate(Superstate::Busy) => None,
    }
}

/// Distance from a rung to the root of its tree; every superstate here is a root.
pub open spec fn depth(n: StateOrSuperstate) -> nat {
    match parent(n) {
        Some(_) => 1,
        None => 0,
    }
}

/// The parent relation is a forest: every parent lies strictly nearer a root
/// than its child, so no chain of parents can return to where it started.
pub proof fn lemma_parent_is_closer_to_root(n: StateOrSuperstate)
    ensures
        parent(n) matches Some(p) ==> depth(StateOrSuperstate::Superstate(p)) < depth(n),
{
}

/// The rung itself followed by its ancestors, innermost first.
pub open spec fn chain(n: StateOrSuperstate) -> Seq<StateOrSuperstate>
    decreases depth(n),
{
    match parent(n) {
        Some(p) => seq![n] + chain(StateOrSuperstate::Superstate(p)),
        None => seq![n],
    }
}

/// Looks up the declared parent of a state or superstate.
pub fn parent_of(n: StateOrSuperstate) -> (r: Option<Superstate>)
    ensures
        r == parent(n),
{
    match n {
        StateOrSuperstate::State(State::Waiting) => None,
        StateOrSuperstate::State(State::ProcessingNumber) => Some(Superstate::Busy),
        StateOrSuperstate::State(State::StoringNumber) => Some(Superstate::Busy),
        StateOrSuperstate::Superstate(Superstate::Busy) => None,
    }
}

} // verus!
