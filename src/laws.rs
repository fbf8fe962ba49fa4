use vstd::prelude::*;
use crate::event::Event;
use crate::graph::{chain, State, StateOrSuperstate, Superstate};
use crate::machine::{dispatched, observations, resolve, step, MachineView, Observation, Outcome};
use crate::program::{handler, Response};

verus! {

/// Every dispatch cycle keeps the machine's invariant: it is idle exactly when
/// its queue is empty, and busy (processing or storing) exactly when it is not.
pub proof fn lemma_step_preserves_wf(v: MachineView, e: Event)
    requires
        v.wf(),
    ensures
        step(v, e).wf(),
{
    reveal_with_fuel(resolve, 2);
}

/// What one cycle does, state by state: idle, a value is queued and processing
/// starts; busy, a value is queued and the state stays; processing ends in
/// storing; storing drops the head and goes idle when the queue is then empty,
/// else back to processing. Any other event changes nothing.
pub open spec fn next(v: MachineView, e: Event) -> MachineView {
    match (v.state, e) {
        (State::Waiting, Event::NumberReceived(x)) => MachineView {
            queue: v.queue.push(x),
            state: State::ProcessingNumber,
        },
        (_, Event::NumberReceived(x)) => MachineView { queue: v.queue.push(x), state: v.state },
        (State::ProcessingNumber, Event::NumberProcessed) => MachineView {
            queue: v.queue,
            state: State::StoringNumber,
        },
        (State::StoringNumber, Event::NumberStored) => MachineView {
            queue: v.queue.drop_first(),
            state: if v.queue.len() == 1 {
                State::Waiting
            } else {
                State::ProcessingNumber
            },
        },
        _ => v,
    }
}

/// Dispatch through the superstate chain gives exactly the behaviour above.
pub proof fn lemma_step_is_next(v: MachineView, e: Event)
    ensures
        step(v, e) == next(v, e),
{
    reveal_with_fuel(resolve, 2);
}

/// The machine after delivering a sequence of events in order.
pub open spec fn run(v: MachineView, es: Seq<Event>) -> MachineView
    decreases es.len(),
{
    if es.len() == 0 {
        v
    } else {
        step(run(v, es.drop_last()), es.last())
    }
}

/// One `NumberReceived` event for each value, in order.
pub open spec fn received(ns: Seq<u32>) -> Seq<Event> {
    ns.map_values(|x: u32| Event::NumberReceived(x))
}

/// Values received in any state join the queue at its tail, in the order of
/// receipt, each exactly once, and the machine stays well formed.
pub proof fn lemma_received_values_queue_in_order(v: MachineView, ns: Seq<u32>)
    requires
        v.wf(),
    ensures
        run(v, received(ns)).queue == v.queue + ns,
        run(v, received(ns)).wf(),
    decreases ns.len(),
{
    if ns.len() > 0 {
        let es = received(ns);
        assert(es.drop_last() =~= received(ns.drop_last()));
        lemma_received_values_queue_in_order(v, ns.drop_last());
        let w = run(v, es.drop_last());
        lemma_step_is_next(w, es.last());
        lemma_step_preserves_wf(w, es.last());
        assert(v.queue + ns =~= (v.queue + ns.drop_last()).push(ns.last()));
    } else {
        assert(v.queue + ns =~= v.queue);
    }
}

/// An event that every rung of the active chain defers is dropped: the queue
/// and the active state are exactly as before, and no transition is observed.
pub proof fn lemma_deferred_event_is_noop(v: MachineView, e: Event)
    requires
        forall|i: int|
            0 <= i < chain(StateOrSuperstate::State(v.state)).len() ==> #[trigger] handler(
                v.queue,
                chain(StateOrSuperstate::State(v.state))[i],
                e,
            ).1 == Response::Super,
    ensures
        step(v, e) == v,
        resolve(v.queue, StateOrSuperstate::State(v.state), e).outcome == Outcome::Unhandled,
        observations(v, e) == dispatched(chain(StateOrSuperstate::State(v.state)), e),
{
    reveal_with_fuel(resolve, 2);
    reveal_with_fuel(chain, 2);
    let c = chain(StateOrSuperstate::State(v.state));
    assert(handler(v.queue, c[0], e).1 == Response::Super);
    if c.len() > 1 {
        assert(handler(v.queue, c[1], e).1 == Response::Super);
    }
    assert(resolve(v.queue, StateOrSuperstate::State(v.state), e).tried =~= c);
}

/// A value received while idle: the event is offered once, to the idle state,
/// which queues the value, and then the move from idle to processing is
/// observed.
pub proof fn lemma_idle_receive_order(v: MachineView, x: u32)
    requires
        v.state == State::Waiting,
    ensures
        observations(v, Event::NumberReceived(x)) == seq![
            Observation::Dispatched(
                StateOrSuperstate::State(State::Waiting),
                Event::NumberReceived(x),
            ),
            Observation::Transitioned(State::Waiting, State::ProcessingNumber),
        ],
        step(v, Event::NumberReceived(x)) == (MachineView {
            queue: v.queue.push(x),
            state: State::ProcessingNumber,
        }),
{
    let e = Event::NumberReceived(x);
    let res = resolve(v.queue, StateOrSuperstate::State(v.state), e);
    assert(res.tried =~= seq![StateOrSuperstate::State(State::Waiting)]);
    assert(observations(v, e) =~= seq![
        Observation::Dispatched(StateOrSuperstate::State(State::Waiting), e),
        Observation::Transitioned(State::Waiting, State::ProcessingNumber),
    ]);
}

/// A value received while processing or storing is queued by the busy
/// superstate after the leaf defers; the state stays and no transition is
/// observed.
pub proof fn lemma_busy_receive_is_shared(v: MachineView, x: u32)
    requires
        v.state == State::ProcessingNumber || v.state == State::StoringNumber,
    ensures
        handler(v.queue, StateOrSuperstate::State(v.state), Event::NumberReceived(x)).1
            == Response::Super,
        handler(v.queue, StateOrSuperstate::Superstate(Superstate::Busy), Event::NumberReceived(x))
            == (v.queue.push(x), Response::Handled),
        step(v, Event::NumberReceived(x)) == (MachineView { queue: v.queue.push(x), state: v.state }),
        observations(v, Event::NumberReceived(x)) == seq![
            Observation::Dispatched(StateOrSuperstate::State(v.state), Event::NumberReceived(x)),
            Observation::Dispatched(
                StateOrSuperstate::Superstate(Superstate::Busy),
                Event::NumberReceived(x),
            ),
        ],
{
    reveal_with_fuel(resolve, 2);
    let e = Event::NumberReceived(x);
    let res = resolve(v.queue, StateOrSuperstate::State(v.state), e);
    assert(res.tried =~= seq![
        StateOrSuperstate::State(v.state),
        StateOrSuperstate::Superstate(Superstate::Busy),
    ]);
    assert(observations(v, e) =~= seq![
        Observation::Dispatched(StateOrSuperstate::State(v.state), e),
        Observation::Dispatched(StateOrSuperstate::Superstate(Superstate::Busy), e),
    ]);
}

} // verus!
