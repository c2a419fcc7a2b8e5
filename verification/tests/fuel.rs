use wasmhost::fuel::{run_metered, Checkpoint, FuelConfig, FuelMeter, Outcome, RefillPolicy};

fn config(quantum: u64, threshold: u64, refill: RefillPolicy) -> FuelConfig {
    FuelConfig::cooperative(quantum, threshold, refill).unwrap()
}

#[test]
fn configurations_need_a_threshold_between_one_and_the_quantum() {
    assert!(FuelConfig::cooperative(10, 0, RefillPolicy::Unbounded).is_none());
    assert!(FuelConfig::cooperative(10, 11, RefillPolicy::Unbounded).is_none());
    assert!(FuelConfig::cooperative(0, 0, RefillPolicy::Unbounded).is_none());
    assert!(FuelConfig::blocking(0).is_none());
    let c = FuelConfig::cooperative(10, 4, RefillPolicy::Bounded(2)).unwrap();
    assert_eq!((c.quantum(), c.threshold(), c.refill()), (10, 4, RefillPolicy::Bounded(2)));
    let edge = FuelConfig::cooperative(10, 10, RefillPolicy::Unbounded).unwrap();
    assert_eq!((edge.quantum(), edge.threshold(), edge.refill()), (10, 10, RefillPolicy::Unbounded));
    let b = FuelConfig::blocking(7).unwrap();
    assert_eq!((b.quantum(), b.threshold(), b.refill()), (7, 7, RefillPolicy::Bounded(0)));
    assert_eq!(FuelConfig::blocking(7), FuelConfig::cooperative(7, 7, RefillPolicy::Bounded(0)));
}

#[test]
fn total_fuel_is_one_quantum_per_start_and_refill() {
    assert_eq!(config(10, 4, RefillPolicy::Bounded(0)).total_fuel(), Some(10));
    assert_eq!(config(10, 4, RefillPolicy::Bounded(3)).total_fuel(), Some(40));
    assert_eq!(config(10, 4, RefillPolicy::Unbounded).total_fuel(), None);
    assert_eq!(config(u64::MAX, 1, RefillPolicy::Bounded(0)).total_fuel(), Some(u64::MAX));
    assert_eq!(config(u64::MAX, 1, RefillPolicy::Bounded(1)).total_fuel(), None);
    assert_eq!(config(1, 1, RefillPolicy::Bounded(u64::MAX)).total_fuel(), None);
    assert_eq!(config(1, 1, RefillPolicy::Bounded(u64::MAX - 1)).total_fuel(), Some(u64::MAX));
    assert_eq!(config(3, 1, RefillPolicy::Bounded(u64::MAX)).total_fuel(), None);
}

#[test]
fn work_within_the_threshold_completes_without_suspension() {
    let c = config(10, 4, RefillPolicy::Bounded(0));
    assert_eq!(run_metered(c, 0), Outcome::Completed { suspensions: 0 });
    assert_eq!(run_metered(c, 1), Outcome::Completed { suspensions: 0 });
    assert_eq!(run_metered(c, 4), Outcome::Completed { suspensions: 0 });
}

#[test]
fn work_over_the_threshold_suspends_at_least_once() {
    let c = config(10, 4, RefillPolicy::Bounded(0));
    assert_eq!(run_metered(c, 5), Outcome::Completed { suspensions: 1 });
    assert_eq!(run_metered(c, 8), Outcome::Completed { suspensions: 1 });
    assert_eq!(run_metered(c, 9), Outcome::Completed { suspensions: 2 });
    assert_eq!(run_metered(c, 10), Outcome::Completed { suspensions: 2 });
}

#[test]
fn without_refill_work_over_the_quantum_exhausts_the_fuel() {
    let c = config(10, 4, RefillPolicy::Bounded(0));
    assert_eq!(run_metered(c, 11), Outcome::FuelExhausted { suspensions: 2, consumed: 10 });
    assert_eq!(run_metered(c, u64::MAX), Outcome::FuelExhausted { suspensions: 2, consumed: 10 });
    let equal = config(4, 4, RefillPolicy::Bounded(0));
    assert_eq!(run_metered(equal, 5), Outcome::FuelExhausted { suspensions: 0, consumed: 4 });
}

#[test]
fn bounded_refill_gives_one_quantum_per_refill() {
    let c = config(10, 4, RefillPolicy::Bounded(1));
    assert_eq!(run_metered(c, 15), Outcome::Completed { suspensions: 4 });
    assert_eq!(run_metered(c, 20), Outcome::Completed { suspensions: 5 });
    assert_eq!(run_metered(c, 21), Outcome::FuelExhausted { suspensions: 5, consumed: 20 });
    let three = config(7, 7, RefillPolicy::Bounded(3));
    assert_eq!(run_metered(three, 28), Outcome::Completed { suspensions: 3 });
    assert_eq!(run_metered(three, 29), Outcome::FuelExhausted { suspensions: 3, consumed: 28 });
}

#[test]
fn unbounded_refill_always_completes() {
    assert_eq!(
        run_metered(config(3, 3, RefillPolicy::Unbounded), 10),
        Outcome::Completed { suspensions: 3 }
    );
    assert_eq!(
        run_metered(config(5, 2, RefillPolicy::Unbounded), 10),
        Outcome::Completed { suspensions: 5 }
    );
    assert_eq!(
        run_metered(config(1, 1, RefillPolicy::Unbounded), 10),
        Outcome::Completed { suspensions: 9 }
    );
    assert_eq!(
        run_metered(config(1_000_000, 1_000_000, RefillPolicy::Unbounded), 10),
        Outcome::Completed { suspensions: 0 }
    );
    for quantum in 1..40u64 {
        for threshold in 1..=quantum {
            let outcome = run_metered(config(quantum, threshold, RefillPolicy::Unbounded), 100);
            assert!(matches!(outcome, Outcome::Completed { .. }));
        }
    }
}

#[test]
fn blocking_runs_never_suspend() {
    let c = FuelConfig::blocking(100).unwrap();
    assert_eq!(run_metered(c, 100), Outcome::Completed { suspensions: 0 });
    assert_eq!(run_metered(c, 101), Outcome::FuelExhausted { suspensions: 0, consumed: 100 });
}

#[test]
fn meter_hands_out_budgets_and_refills() {
    let mut meter = FuelMeter::new(config(10, 4, RefillPolicy::Bounded(1)));
    assert_eq!(meter.remaining(), 10);
    assert_eq!(meter.budget(), 4);
    meter.consume(3);
    assert_eq!(meter.budget(), 1);
    meter.consume(1);
    assert_eq!(meter.budget(), 0);
    assert_eq!(meter.remaining(), 6);
    assert_eq!(meter.checkpoint(), Checkpoint::Yield);
    assert_eq!(meter.budget(), 4);
    meter.consume(4);
    assert_eq!(meter.checkpoint(), Checkpoint::Yield);
    assert_eq!(meter.budget(), 2);
    meter.consume(2);
    assert_eq!(meter.remaining(), 0);
    assert_eq!(meter.checkpoint(), Checkpoint::Yield);
    assert_eq!(meter.remaining(), 10);
    meter.consume(4);
    meter.checkpoint();
    meter.consume(4);
    meter.checkpoint();
    meter.consume(2);
    assert_eq!(meter.checkpoint(), Checkpoint::Exhausted);
    assert_eq!(meter.remaining(), 0);
    assert_eq!(meter.budget(), 0);
    assert_eq!(meter.checkpoint(), Checkpoint::Exhausted);
}
