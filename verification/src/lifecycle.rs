//! The life cycle of an execution store.
//!
//! `Created -> Linked -> Running -> (Suspended <-> Running)* -> Completed | Failed`.
//! A store that has completed or failed accepts no further event.

use crate::memory::MemoryError;
use vstd::prelude::*;

verus! {

/// A failure that a host function detected and turned into a trap.
#[derive(Clone, Copy, Debug, PartialEq, Eq, Structural)]
pub enum HostFault {
    /// A guest range could not be read.
    Memory(MemoryError),
    /// Any other failure of a host function.
    Failed,
}

/// A fault that ends a call chain.
#[derive(Clone, Copy, Debug, PartialEq, Eq, Structural)]
pub enum Trap {
    /// The guest executed an unreachable instruction.
    Unreachable,
    /// The guest accessed memory outside its bounds.
    MemoryAccess,
    /// The guest divided by zero, or overflowed a division.
    IntegerDivision,
    /// A host function signalled a failure.
    Host(HostFault),
    /// The fuel ran out and no refill was left.
    FuelExhausted,
    /// Any other fault that the engine reports.
    Other,
}

impl Trap {
    /// The trap that a host function raises for a guest range it could not read.
    pub fn from_memory_error(error: MemoryError) -> (trap: Trap)
        ensures
            trap == Trap::Host(HostFault::Memory(error)),
    {
        Trap::Host(HostFault::Memory(error))
    }

    /// Whether the trap reports a spent budget rather than a fault in the logic.
    pub fn is_fuel_exhausted(&self) -> (b: bool)
        ensures
            b == (*self == Trap::FuelExhausted),
    {
        match self {
            Trap::FuelExhausted => true,
            _ => false,
        }
    }
}

/// Where a store stands in its life.
#[derive(Clone, Copy, Debug, PartialEq, Eq, Structural)]
pub enum StoreState {
    /// Nothing has been linked yet.
    Created,
    /// An instance is linked and no call has begun.
    Linked,
    /// A call is running; `depth` counts the calls nested in each other.
    Running { depth: u32 },
    /// The running call has given control back and waits to be resumed.
    Suspended { depth: u32 },
    /// The outermost call has returned.
    Completed,
    /// A trap has ended the call chain.
    Failed(Trap),
}

/// What can happen to a store.
#[derive(Clone, Copy, Debug, PartialEq, Eq, Structural)]
pub enum Event {
    /// A module was linked against the store.
    Link,
    /// An exported function is invoked, from the host or from inside a call.
    Invoke,
    /// The running call gives control back.
    Suspend,
    /// The suspended call goes on.
    Resume,
    /// The innermost call returns.
    Return,
    /// A trap unwinds the whole call chain.
    Fail(Trap),
}

impl StoreState {
    /// Completed and failed stores are at their end.
    pub open spec fn terminal(self) -> bool {
        self is Completed || self is Failed
    }

    /// The state after an event, or `None` where the event is not allowed.
    pub open spec fn next(self, event: Event) -> Option<StoreState> {
        match (self, event) {
            (StoreState::Created, Event::Link) => Some(StoreState::Linked),
            (StoreState::Linked, Event::Invoke) => Some(StoreState::Running { depth: 1 }),
            (StoreState::Running { depth }, Event::Invoke) => if depth < u32::MAX {
                Some(StoreState::Running { depth: (depth + 1) as u32 })
            } else {
                None
            },
            (StoreState::Running { depth }, Event::Suspend) => Some(
                StoreState::Suspended { depth },
            ),
            (StoreState::Suspended { depth }, Event::Resume) => Some(
                StoreState::Running { depth },
            ),
            (StoreState::Running { depth }, Event::Return) => if depth > 1 {
                Some(StoreState::Running { depth: (depth - 1) as u32 })
            } else {
                Some(StoreState::Completed)
            },
            (StoreState::Running { .. }, Event::Fail(trap)) => Some(StoreState::Failed(trap)),
            _ => None,
        }
    }

    /// Whether the store is at its end.
    pub fn is_terminal(&self) -> (b: bool)
        ensures
            b == self.terminal(),
    {
        match self {
            StoreState::Completed => true,
            StoreState::Failed(_) => true,
            _ => false,
        }
    }

    /// How the execution ended, for a store that is at its end: success for
    /// a completed store, the trap for a failed one.
    pub fn outcome(&self) -> (ended: Option<Result<(), Trap>>)
        ensures
            ended == match *self {
                StoreState::Completed => Some(Ok::<(), Trap>(())),
                StoreState::Failed(trap) => Some(Err::<(), Trap>(trap)),
                _ => None,
            },
    {
        match self {
            StoreState::Completed => Some(Ok(())),
            StoreState::Failed(trap) => Some(Err(*trap)),
            _ => None,
        }
    }

    /// Whether a call is in progress, running or suspended.
    pub fn in_call(&self) -> (b: bool)
        ensures
            b == (*self is Running || *self is Suspended),
    {
        match self {
            StoreState::Running { .. } => true,
            StoreState::Suspended { .. } => true,
            _ => false,
        }
    }

    /// The state after an event, or `None` where the event is not allowed.
    pub fn transition(&self, event: Event) -> (next: Option<StoreState>)
        ensures
            next == self.next(event),
    {
        match (*self, event) {
            (StoreState::Created, Event::Link) => Some(StoreState::Linked),
            (StoreState::Linked, Event::Invoke) => Some(StoreState::Running { depth: 1 }),
            (StoreState::Running { depth }, Event::Invoke) => {
                if depth < u32::MAX {
                    Some(StoreState::Running { depth: depth + 1 })
                } else {
                    None
                }
            },
            (StoreState::Running { depth }, Event::Suspend) => Some(
                StoreState::Suspended { depth },
            ),
            (StoreState::Suspended { depth }, Event::Resume) => Some(
                StoreState::Running { depth },
            ),
            (StoreState::Running { depth }, Event::Return) => {
                if depth > 1 {
                    Some(StoreState::Running { depth: depth - 1 })
                } else {
                    Some(StoreState::Completed)
                }
            },
            (StoreState::Running { .. }, Event::Fail(trap)) => Some(StoreState::Failed(trap)),
            _ => None,
        }
    }
}

/// The state after a sequence of events, or `None` as soon as one is not allowed.
pub open spec fn after_events(state: StoreState, events: Seq<Event>) -> Option<StoreState>
    decreases events.len(),
{
    if events.len() == 0 {
        Some(state)
    } else {
        match state.next(events[0]) {
            Some(next) => after_events(next, events.drop_first()),
            None => None,
        }
    }
}

/// A completed or failed store accepts no event: it cannot be invoked again.
pub proof fn law_terminal_is_final(state: StoreState, event: Event)
    requires
        state.terminal(),
    ensures
        state.next(event) is None,
{
}

/// No sequence of events leads out of a terminal state.
pub proof fn law_terminal_stays(state: StoreState, events: Seq<Event>)
    requires
        state.terminal(),
    ensures
        after_events(state, events) == if events.len() == 0 {
            Some(state)
        } else {
            None::<StoreState>
        },
{
}

/// A store is suspended only by a running call that gives control back, and a
/// suspended store does nothing but resume.
pub proof fn law_suspension_brackets_running(state: StoreState, event: Event)
    ensures
        state.next(event) matches Some(StoreState::Suspended { depth }) ==> state
            == (StoreState::Running { depth }) && event == Event::Suspend,
        state is Suspended && state.next(event) is Some ==> event == Event::Resume && state.next(
            event,
        ) == Some(StoreState::Running { depth: state->Suspended_depth }),
{
}

/// No guest code runs before a successful link: from a fresh store, a sequence
/// of events that is allowed and not empty starts with `Link`.
pub proof fn law_link_comes_first(events: Seq<Event>)
    requires
        events.len() > 0,
        after_events(StoreState::Created, events) is Some,
    ensures
        events[0] == Event::Link,
{
}

} // verus!
