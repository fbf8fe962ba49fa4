use vstd::prelude::*;
use crate::event::Event;
use crate::graph::{State, StateOrSuperstate, Superstate};

verus! {

/// The machine's domain data: the queue of values still waiting to be
/// processed and stored, oldest first.
pub struct MyProgram {
    pub numbers: Vec<u32>,
}

impl Default for MyProgram {
    fn default() -> (r: MyProgram)
        ensures
            r.numbers@ == Seq::<u32>::empty(),
    {
        MyProgram { numbers: Vec::new() }
    }
}

/// What a single handler answers.
#[derive(Clone, Copy, Debug, PartialEq, Eq, Structural)]
pub enum Response {
    /// The event is consumed and the active state stays.
    Handled,
    /// The event is consumed and the machine moves to the given state.
    Transition(State),
    /// The handler defers the event to the parent superstate.
    Super,
}

/// The effect of one handler on the queue, and its answer.
pub open spec fn handler(q: Seq<u32>, n: StateOrSuperstate, e: Event) -> (Seq<u32>, Response) {
    match (n, e) {
        (StateOrSuperstate::State(State::Waiting), Event::NumberReceived(x)) => (
            q.push(x),
            Response::Transition(State::ProcessingNumber),
        ),
        (StateOrSuperstate::State(State::ProcessingNumber), Event::NumberProcessed) => (
            q,
            Response::Transition(State::StoringNumber),
        ),
        (StateOrSuperstate::State(State::StoringNumber), Event::NumberStored) => (
            q.drop_first(),
            if q.len() == 1 {
                Response::Transition(State::Waiting)
            } else {
                Response::Transition(State::ProcessingNumber)
            },
        ),
        (StateOrSuperstate::Superstate(Superstate::Busy), Event::NumberReceived(x)) => (
            q.push(x),
            Response::Handled,
        ),
        _ => (q, Response::Super),
    }
}

/// A handler may run on the queue: storing needs a value at the head.
pub open spec fn handler_ready(q: Seq<u32>, n: StateOrSuperstate, e: Event) -> bool {
    n == StateOrSuperstate::State(State::StoringNumber) && e == Event::NumberStored ==> q.len() > 0
}

impl MyProgram {
    /// Idle: a received value is queued and processing starts.
    fn waiting(&mut self, event: &Event) -> (r: Response)
        ensures
            (final(self).numbers@, r) == handler(
                old(self).numbers@,
                StateOrSuperstate::State(State::Waiting),
                *event,
            ),
    {
        match event {
            Event::NumberReceived(n) => {
                self.numbers.push(*n);
                Response::Transition(State::ProcessingNumber)
            },
            _ => Response::Super,
        }
    }

    /// Processing the head value: once it is processed, storing starts.
    fn processing_number(event: &Event) -> (r: Response)
        ensures
            forall|q: Seq<u32>|
                #![auto]
                handler(q, StateOrSuperstate::State(State::ProcessingNumber), *event) == (q, r),
    {
        match event {
            Event::NumberProcessed => Response::Transition(State::StoringNumber),
            _ => Response::Super,
        }
    }

    /// Storing the head value: once it is stored it leaves the queue, and the
    /// machine goes idle or processes the next value.
    fn storing_number(&mut self, event: &Event) -> (r: Response)
        requires
            handler_ready(old(self).numbers@, StateOrSuperstate::State(State::StoringNumber), *event),
        ensures
            (final(self).numbers@, r) == handler(
                old(self).numbers@,
                StateOrSuperstate::State(State::StoringNumber),
                *event,
            ),
    {
        match event {
            Event::NumberStored => {
                self.numbers.remove(0);
                if self.numbers.len() == 0 {
                    Response::Transition(State::Waiting)
                } else {
                    Response::Transition(State::ProcessingNumber)
                }
            },
            _ => Response::Super,
        }
    }

    /// The busy superstate: a value received while processing or storing is
    /// queued without leaving the current state.
    fn busy(&mut self, event: &Event) -> (r: Response)
        ensures
            (final(self).numbers@, r) == handler(
                old(self).numbers@,
                StateOrSuperstate::Superstate(Superstate::Busy),
                *event,
            ),
    {
        match event {
            Event::NumberReceived(n) => {
                self.numbers.push(*n);
                Response::Handled
            },
            _ => Response::Super,
        }
    }

    /// Runs the handler of one rung of the chain.
    pub fn call_handler(&mut self, n: StateOrSuperstate, event: &Event) -> (r: Response)
        requires
            handler_ready(old(self).numbers@, n, *event),
        ensures
            (final(self).numbers@, r) == handler(old(self).numbers@, n, *event),
    {
        match n {
            StateOrSuperstate::State(State::Waiting) => self.waiting(event),
            StateOrSuperstate::State(State::ProcessingNumber) => MyProgram::processing_number(event),
            StateOrSuperstate::State(State::StoringNumber) => self.storing_number(event),
            StateOrSuperstate::Superstate(Superstate::Busy) => self.busy(event),
        }
    }
}

/// The work done on a queued value before it is stored: its square, which
/// always fits in 64 bits.
pub fn square(n: u32) -> (r: u64)
    ensures
        r == n * n,
{
    proof {
        vstd::arithmetic::mul::lemma_mul_upper_bound(n as int, u32::MAX as int, n as int, u32::MAX as int);
    }
    (n as u64) * (n as u64)
}

} // verus!
