use hsm_queue::graph::parent_of;
use hsm_queue::{
    square, Event, MyProgram, Observation, State, StateMachine, StateOrSuperstate, Superstate,
};

fn idle() -> StateMachine {
    MyProgram::default().state_machine()
}

fn queue(m: &StateMachine) -> Vec<u32> {
    m.model().numbers.clone()
}

#[test]
fn starts_idle_and_empty() {
    let m = idle();
    assert_eq!(m.state(), State::Waiting);
    assert!(queue(&m).is_empty());
    assert_eq!(m.head(), None);
}

#[test]
fn end_to_end_three_values() {
    let mut m = idle();
    m.handle(&Event::NumberReceived(4));
    m.handle(&Event::NumberReceived(7));
    m.handle(&Event::NumberReceived(9));
    assert_eq!(queue(&m), vec![4, 7, 9]);
    assert_eq!(m.state(), State::ProcessingNumber);

    m.handle(&Event::NumberProcessed);
    assert_eq!(m.state(), State::StoringNumber);
    m.handle(&Event::NumberStored);
    assert_eq!(queue(&m), vec![7, 9]);
    assert_eq!(m.state(), State::ProcessingNumber);

    m.handle(&Event::NumberProcessed);
    m.handle(&Event::NumberStored);
    assert_eq!(queue(&m), vec![9]);
    assert_eq!(m.state(), State::ProcessingNumber);

    m.handle(&Event::NumberProcessed);
    m.handle(&Event::NumberStored);
    assert!(queue(&m).is_empty());
    assert_eq!(m.state(), State::Waiting);
}

#[test]
fn received_values_keep_their_order_in_every_state() {
    let mut m = idle();
    m.handle(&Event::NumberReceived(5));
    m.handle(&Event::NumberReceived(5));
    m.handle(&Event::NumberProcessed);
    m.handle(&Event::NumberReceived(u32::MAX));
    m.handle(&Event::NumberReceived(0));
    assert_eq!(m.state(), State::StoringNumber);
    assert_eq!(queue(&m), vec![5, 5, u32::MAX, 0]);
    assert_eq!(m.head(), Some(5));
}

#[test]
fn deferred_events_change_nothing_when_idle() {
    let mut m = idle();
    let trace = m.handle(&Event::NumberProcessed);
    assert_eq!(
        trace,
        vec![Observation::Dispatched(
            StateOrSuperstate::State(State::Waiting),
            Event::NumberProcessed
        )]
    );
    let trace = m.handle(&Event::NumberStored);
    assert_eq!(trace.len(), 1);
    assert_eq!(m.state(), State::Waiting);
    assert!(queue(&m).is_empty());
}

#[test]
fn deferred_events_change_nothing_when_busy() {
    let mut m = idle();
    m.handle(&Event::NumberReceived(3));
    let trace = m.handle(&Event::NumberStored);
    assert_eq!(
        trace,
        vec![
            Observation::Dispatched(
                StateOrSuperstate::State(State::ProcessingNumber),
                Event::NumberStored
            ),
            Observation::Dispatched(
                StateOrSuperstate::Superstate(Superstate::Busy),
                Event::NumberStored
            ),
        ]
    );
    assert_eq!(m.state(), State::ProcessingNumber);
    assert_eq!(queue(&m), vec![3]);

    m.handle(&Event::NumberProcessed);
    let trace = m.handle(&Event::NumberProcessed);
    assert_eq!(trace.len(), 2);
    assert_eq!(m.state(), State::StoringNumber);
    assert_eq!(queue(&m), vec![3]);
}

#[test]
fn idle_receive_traces_dispatch_then_transition() {
    let mut m = idle();
    let trace = m.handle(&Event::NumberReceived(4));
    assert_eq!(
        trace,
        vec![
            Observation::Dispatched(
                StateOrSuperstate::State(State::Waiting),
                Event::NumberReceived(4)
            ),
            Observation::Transitioned(State::Waiting, State::ProcessingNumber),
        ]
    );
    assert_eq!(queue(&m), vec![4]);
}

#[test]
fn busy_receive_is_handled_by_the_superstate() {
    let mut m = idle();
    m.handle(&Event::NumberReceived(1));
    let trace = m.handle(&Event::NumberReceived(2));
    assert_eq!(
        trace,
        vec![
            Observation::Dispatched(
                StateOrSuperstate::State(State::ProcessingNumber),
                Event::NumberReceived(2)
            ),
            Observation::Dispatched(
                StateOrSuperstate::Superstate(Superstate::Busy),
                Event::NumberReceived(2)
            ),
        ]
    );
    assert_eq!(m.state(), State::ProcessingNumber);

    m.handle(&Event::NumberProcessed);
    let trace = m.handle(&Event::NumberReceived(3));
    assert_eq!(trace.len(), 2);
    assert_eq!(m.state(), State::StoringNumber);
    assert_eq!(queue(&m), vec![1, 2, 3]);
}

#[test]
fn storing_last_value_traces_return_to_idle() {
    let mut m = idle();
    m.handle(&Event::NumberReceived(8));
    m.handle(&Event::NumberProcessed);
    let trace = m.handle(&Event::NumberStored);
    assert_eq!(
        trace,
        vec![
            Observation::Dispatched(
                StateOrSuperstate::State(State::StoringNumber),
                Event::NumberStored
            ),
            Observation::Transitioned(State::StoringNumber, State::Waiting),
        ]
    );
    assert_eq!(m.head(), None);
}

#[test]
fn state_matches_queue_after_every_event() {
    let events = [
        Event::NumberReceived(1),
        Event::NumberStored,
        Event::NumberProcessed,
        Event::NumberReceived(2),
        Event::NumberStored,
        Event::NumberProcessed,
        Event::NumberProcessed,
        Event::NumberStored,
        Event::NumberProcessed,
        Event::NumberStored,
        Event::NumberStored,
    ];
    let mut m = idle();
    for e in events.iter() {
        m.handle(e);
        assert_eq!(m.state() == State::Waiting, queue(&m).is_empty());
    }
    assert_eq!(m.state(), State::Waiting);
}

#[test]
fn graph_parents() {
    assert_eq!(parent_of(StateOrSuperstate::State(State::Waiting)), None);
    assert_eq!(
        parent_of(StateOrSuperstate::State(State::ProcessingNumber)),
        Some(Superstate::Busy)
    );
    assert_eq!(
        parent_of(StateOrSuperstate::State(State::StoringNumber)),
        Some(Superstate::Busy)
    );
    assert_eq!(parent_of(StateOrSuperstate::Superstate(Superstate::Busy)), None);
}

#[test]
fn squares() {
    assert_eq!(square(0), 0);
    assert_eq!(square(9), 81);
    assert_eq!(square(u32::MAX), 18446744065119617025);
}
