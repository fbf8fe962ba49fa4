use vstd::prelude::*;

verus! {

/// A message delivered to the machine. Handlers read it and never change it.
#[derive(Clone, Copy, Debug, PartialEq, Eq, Structural)]
pub enum Event {
    /// A new value arrived and waits in the queue.
    NumberReceived(u32),
    /// The value at the head of the queue has been processed.
    NumberProcessed,
    /// The value at the head of the queue has been stored.
    NumberStored,
}

} // verus!
