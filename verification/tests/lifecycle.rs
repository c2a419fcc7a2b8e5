use wasmhost::lifecycle::{Event, HostFault, StoreState, Trap};
use wasmhost::memory::MemoryError;

const EVENTS: [Event; 7] = [
    Event::Link,
    Event::Invoke,
    Event::Suspend,
    Event::Resume,
    Event::Return,
    Event::Fail(Trap::Unreachable),
    Event::Fail(Trap::FuelExhausted),
];

#[test]
fn a_store_goes_from_created_to_completed() {
    let mut state = StoreState::Created;
    for (event, expected) in [
        (Event::Link, StoreState::Linked),
        (Event::Invoke, StoreState::Running { depth: 1 }),
        (Event::Suspend, StoreState::Suspended { depth: 1 }),
        (Event::Resume, StoreState::Running { depth: 1 }),
        (Event::Suspend, StoreState::Suspended { depth: 1 }),
        (Event::Resume, StoreState::Running { depth: 1 }),
        (Event::Return, StoreState::Completed),
    ] {
        state = state.transition(event).unwrap();
        assert_eq!(state, expected);
    }
    assert!(state.is_terminal());
}

#[test]
fn nested_calls_return_one_by_one() {
    let running = StoreState::Running { depth: 1 };
    let nested = running.transition(Event::Invoke).unwrap();
    assert_eq!(nested, StoreState::Running { depth: 2 });
    assert_eq!(nested.transition(Event::Suspend), Some(StoreState::Suspended { depth: 2 }));
    assert_eq!(nested.transition(Event::Return), Some(StoreState::Running { depth: 1 }));
    assert_eq!(running.transition(Event::Return), Some(StoreState::Completed));
    assert_eq!(StoreState::Running { depth: u32::MAX }.transition(Event::Invoke), None);
    assert_eq!(
        nested.transition(Event::Fail(Trap::IntegerDivision)),
        Some(StoreState::Failed(Trap::IntegerDivision))
    );
}

#[test]
fn terminal_states_accept_nothing() {
    for state in [
        StoreState::Completed,
        StoreState::Failed(Trap::Unreachable),
        StoreState::Failed(Trap::FuelExhausted),
        StoreState::Failed(Trap::Host(HostFault::Memory(MemoryError::OutOfBounds))),
    ] {
        assert!(state.is_terminal());
        assert!(!state.in_call());
        for event in EVENTS {
            assert_eq!(state.transition(event), None);
        }
    }
}

#[test]
fn only_the_listed_transitions_are_allowed() {
    for event in EVENTS {
        let expected = if event == Event::Link { Some(StoreState::Linked) } else { None };
        assert_eq!(StoreState::Created.transition(event), expected);
        let expected =
            if event == Event::Invoke { Some(StoreState::Running { depth: 1 }) } else { None };
        assert_eq!(StoreState::Linked.transition(event), expected);
        let expected =
            if event == Event::Resume { Some(StoreState::Running { depth: 3 }) } else { None };
        assert_eq!(StoreState::Suspended { depth: 3 }.transition(event), expected);
    }
    assert_eq!(StoreState::Running { depth: 1 }.transition(Event::Link), None);
    assert_eq!(StoreState::Running { depth: 1 }.transition(Event::Resume), None);
    assert!(StoreState::Running { depth: 1 }.in_call());
    assert!(StoreState::Suspended { depth: 1 }.in_call());
    assert!(!StoreState::Linked.in_call());
    assert!(!StoreState::Linked.is_terminal());
}

#[test]
fn only_a_store_at_its_end_has_an_outcome() {
    assert_eq!(StoreState::Completed.outcome(), Some(Ok(())));
    assert_eq!(StoreState::Failed(Trap::FuelExhausted).outcome(), Some(Err(Trap::FuelExhausted)));
    assert_eq!(StoreState::Failed(Trap::Other).outcome(), Some(Err(Trap::Other)));
    assert_eq!(StoreState::Created.outcome(), None);
    assert_eq!(StoreState::Linked.outcome(), None);
    assert_eq!(StoreState::Running { depth: 1 }.outcome(), None);
    assert_eq!(StoreState::Suspended { depth: 1 }.outcome(), None);
}

#[test]
fn host_failures_become_traps() {
    assert_eq!(
        Trap::from_memory_error(MemoryError::OutOfBounds),
        Trap::Host(HostFault::Memory(MemoryError::OutOfBounds))
    );
    assert_eq!(
        Trap::from_memory_error(MemoryError::InvalidEncoding),
        Trap::Host(HostFault::Memory(MemoryError::InvalidEncoding))
    );
    assert!(Trap::FuelExhausted.is_fuel_exhausted());
    assert!(!Trap::Unreachable.is_fuel_exhausted());
    assert!(!Trap::Host(HostFault::Failed).is_fuel_exhausted());
}
