use vstd::prelude::*;
use crate::event::Event;
use crate::graph::{depth, parent, parent_of, State, StateOrSuperstate};
use crate::laws::lemma_step_preserves_wf;
use crate::program::{handler, handler_ready, MyProgram, Response};

verus! {

/// How the superstate chain answered an event.
#[derive(Clone, Copy, Debug, PartialEq, Eq, Structural)]
pub enum Outcome {
    /// Some rung consumed the event without a change of state.
    Handled,
    /// Some rung asked for a move to the given state.
    Transition(State),
    /// Every rung up to the root deferred: the event is dropped.
    Unhandled,
}

/// A point that an observer of the machine may trace. Recording these never
/// changes which handler answers.
#[derive(Clone, Copy, Debug, PartialEq, Eq, Structural)]
pub enum Observation {
    /// The event is about to be offered to this state or superstate.
    Dispatched(StateOrSuperstate, Event),
    /// A transition from the first state to the second has been committed.
    Transitioned(State, State),
}

/// The result of walking the chain from one rung upwards.
pub ghost struct Resolution {
    /// The queue after the handlers that ran.
    pub queue: Seq<u32>,
    /// The first answer other than a deferral, or `Unhandled`.
    pub outcome: Outcome,
    /// The rungs offered the event, innermost first.
    pub tried: Seq<StateOrSuperstate>,
}

/// Offers the event to `n`, then to its ancestors while each one defers.
pub open spec fn resolve(q: Seq<u32>, n: StateOrSuperstate, e: Event) -> Resolution
    decreases depth(n),
{
    let (q1, r) = handler(q, n, e);
    match r {
        Response::Handled => Resolution { queue: q1, outcome: Outcome::Handled, tried: seq![n] },
        Response::Transition(t) => Resolution {
            queue: q1,
            outcome: Outcome::Transition(t),
            tried: seq![n],
        },
        Response::Super => match parent(n) {
            Some(p) => {
                let rest = resolve(q1, StateOrSuperstate::Superstate(p), e);
                Resolution { queue: rest.queue, outcome: rest.outcome, tried: seq![n] + rest.tried }
            },
            None => Resolution { queue: q1, outcome: Outcome::Unhandled, tried: seq![n] },
        },
    }
}

/// One `Dispatched` observation for each rung offered the event.
pub open spec fn dispatched(tried: Seq<StateOrSuperstate>, e: Event) -> Seq<Observation> {
    tried.map_values(|n: StateOrSuperstate| Observation::Dispatched(n, e))
}

/// The abstract machine: the queue of pending values and the active state.
pub ghost struct MachineView {
    pub queue: Seq<u32>,
    pub state: State,
}

impl MachineView {
    /// The machine is idle exactly when nothing waits in the queue.
    pub open spec fn wf(self) -> bool {
        self.state == State::Waiting <==> self.queue.len() == 0
    }
}

/// The machine after one dispatch cycle.
pub open spec fn step(v: MachineView, e: Event) -> MachineView {
    let res = resolve(v.queue, StateOrSuperstate::State(v.state), e);
    match res.outcome {
        Outcome::Transition(t) => MachineView { queue: res.queue, state: t },
        _ => MachineView { queue: res.queue, state: v.state },
    }
}

/// What one dispatch cycle lets an observer see, in order.
pub open spec fn observations(v: MachineView, e: Event) -> Seq<Observation> {
    let res = resolve(v.queue, StateOrSuperstate::State(v.state), e);
    match res.outcome {
        Outcome::Transition(t) => dispatched(res.tried, e).push(Observation::Transitioned(v.state, t)),
        _ => dispatched(res.tried, e),
    }
}

/// Walks the chain from `n` upwards, running each handler until one answers.
pub fn dispatch(
    model: &mut MyProgram,
    n: StateOrSuperstate,
    event: &Event,
    trace: &mut Vec<Observation>,
) -> (o: Outcome)
    requires
        handler_ready(old(model).numbers@, n, *event),
    ensures
        final(model).numbers@ == resolve(old(model).numbers@, n, *event).queue,
        o == resolve(old(model).numbers@, n, *event).outcome,
        final(trace)@ == old(trace)@ + dispatched(resolve(old(model).numbers@, n, *event).tried, *event),
    decreases depth(n),
{
    let ghost q0 = model.numbers@;
    let ghost t0 = trace@;
    trace.push(Observation::Dispatched(n, *event));
    match model.call_handler(n, event) {
        Response::Handled => {
            assert(dispatched(seq![n], *event) =~= seq![Observation::Dispatched(n, *event)]);
            Outcome::Handled
        },
        Response::Transition(t) => {
            assert(dispatched(seq![n], *event) =~= seq![Observation::Dispatched(n, *event)]);
            Outcome::Transition(t)
        },
        Response::Super => match parent_of(n) {
            Some(p) => {
                let up = StateOrSuperstate::Superstate(p);
                let o = dispatch(model, up, event, trace);
                let ghost rest = resolve(q0, up, *event);
                assert(dispatched(seq![n] + rest.tried, *event) =~= seq![
                    Observation::Dispatched(n, *event),
                ] + dispatched(rest.tried, *event));
                assert(trace@ =~= t0 + dispatched(seq![n] + rest.tried, *event));
                o
            },
            None => {
                assert(dispatched(seq![n], *event) =~= seq![Observation::Dispatched(n, *event)]);
                Outcome::Unhandled
            },
        },
    }
}

/// A running machine: the domain data and the active state, changed only by
/// whole dispatch cycles.
pub struct StateMachine {
    model: MyProgram,
    state: State,
}

impl View for StateMachine {
    type V = MachineView;

    closed spec fn view(&self) -> MachineView {
        MachineView { queue: self.model.numbers@, state: self.state }
    }
}

impl StateMachine {
    /// Delivers one event: offers it to the active state and up its chain of
    /// superstates until a handler answers, then commits a requested
    /// transition. An event that every rung defers is dropped unchanged.
    /// Returns what an observer may trace of the cycle, in order.
    pub fn handle(&mut self, event: &Event) -> (trace: Vec<Observation>)
        requires
            old(self)@.wf(),
        ensures
            final(self)@ == step(old(self)@, *event),
            final(self)@.wf(),
            trace@ == observations(old(self)@, *event),
    {
        proof {
            lemma_step_preserves_wf(self@, *event);
        }
        let mut trace: Vec<Observation> = Vec::new();
        let from = self.state;
        let outcome = dispatch(&mut self.model, StateOrSuperstate::State(from), event, &mut trace);
        match outcome {
            Outcome::Transition(to) => {
                self.state = to;
                trace.push(Observation::Transitioned(from, to));
            },
            _ => {},
        }
        trace
    }

    /// The active state.
    pub fn state(&self) -> (r: State)
        ensures
            r == self@.state,
    {
        self.state
    }

    /// Read access to the domain data.
    pub fn model(&self) -> (r: &MyProgram)
        ensures
            r.numbers@ == self@.queue,
    {
        &self.model
    }

    /// The oldest value still in the queue, if any.
    pub fn head(&self) -> (r: Option<u32>)
        ensures
            self@.queue.len() == 0 ==> r == None::<u32>,
            self@.queue.len() > 0 ==> r == Some(self@.queue[0]),
    {
        if self.model.numbers.len() == 0 {
            None
        } else {
            Some(self.model.numbers[0])
        }
    }
}

impl MyProgram {
    /// Starts a machine on this data in the initial state, `Waiting`. An idle
    /// machine holds no pending values, so the data must hold none either.
    pub fn state_machine(self) -> (r: StateMachine)
        requires
            self.numbers@.len() == 0,
        ensures
            r@ == (MachineView { queue: self.numbers@, state: State::Waiting }),
            r@.wf(),
    {
        StateMachine { model: self, state: State::Waiting }
    }
}

} // verus!
