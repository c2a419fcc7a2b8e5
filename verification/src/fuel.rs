//! Fuel metering: how much a guest may run before it must give control back,
//! and what happens when it does.
//!
//! A meter starts with one quantum of fuel. The guest may consume at most
//! `threshold` units between two suspensions and never more than the fuel that
//! is left. When the fuel is gone the meter is refilled with a fresh quantum,
//! as long as the refill policy allows; after that the call fails.

use vstd::prelude::*;

verus! {

/// How often an empty meter is refilled.
#[derive(Clone, Copy, Debug, PartialEq, Eq, Structural)]
pub enum RefillPolicy {
    /// At most this many refills.
    Bounded(u64),
    /// As many refills as it takes.
    Unbounded,
}

impl RefillPolicy {
    /// The number of refills allowed, `None` where there is no limit.
    pub open spec fn limit(self) -> Option<nat> {
        match self {
            RefillPolicy::Bounded(n) => Some(n as nat),
            RefillPolicy::Unbounded => None,
        }
    }
}

/// The fuel parameters of an execution: the quantum is at least the
/// threshold, and the threshold is at least one.
#[derive(Clone, Copy, Debug, PartialEq, Eq, Structural)]
pub struct FuelConfig {
    quantum: u64,
    threshold: u64,
    refill: RefillPolicy,
}

impl FuelConfig {
    #[verifier::type_invariant]
    spec fn valid(self) -> bool {
        1 <= self.threshold <= self.quantum
    }

    /// Fuel at the start and after each refill.
    pub closed spec fn spec_quantum(&self) -> u64 {
        self.quantum
    }

    /// Most fuel consumed between two suspensions.
    pub closed spec fn spec_threshold(&self) -> u64 {
        self.threshold
    }

    /// How often an empty meter is refilled.
    pub closed spec fn spec_refill(&self) -> RefillPolicy {
        self.refill
    }

    /// A usable configuration: the threshold is at least one and at most the
    /// quantum. Every configuration that a program holds is one.
    pub open spec fn wf(self) -> bool {
        1 <= self.threshold() <= self.quantum()
    }

    /// Fuel at the start and after each refill.
    #[verifier::when_used_as_spec(spec_quantum)]
    pub fn quantum(&self) -> (quantum: u64)
        ensures
            quantum == self.quantum(),
            self.wf(),
    {
        proof {
            use_type_invariant(self);
        }
        self.quantum
    }

    /// Most fuel consumed between two suspensions.
    #[verifier::when_used_as_spec(spec_threshold)]
    pub fn threshold(&self) -> (threshold: u64)
        ensures
            threshold == self.threshold(),
            self.wf(),
    {
        proof {
            use_type_invariant(self);
        }
        self.threshold
    }

    /// How often an empty meter is refilled.
    #[verifier::when_used_as_spec(spec_refill)]
    pub fn refill(&self) -> (refill: RefillPolicy)
        ensures
            refill == self.refill(),
    {
        self.refill
    }

    /// A configuration for cooperative execution, if the numbers make one.
    pub fn cooperative(quantum: u64, threshold: u64, refill: RefillPolicy) -> (config: Option<
        FuelConfig,
    >)
        ensures
            config.is_some() == (1 <= threshold <= quantum),
            config matches Some(c) ==> c.wf() && c.quantum() == quantum && c.threshold()
                == threshold && c.refill() == refill,
    {
        if 1 <= threshold && threshold <= quantum {
            Some(FuelConfig { quantum, threshold, refill })
        } else {
            None
        }
    }

    /// A configuration for blocking execution: the call never suspends and
    /// fails once `quantum` units are used up.
    pub fn blocking(quantum: u64) -> (config: Option<FuelConfig>)
        ensures
            config.is_some() == (1 <= quantum),
            config matches Some(c) ==> c.wf() && c.quantum() == quantum && c.threshold()
                == quantum && c.refill() == RefillPolicy::Bounded(0),
    {
        if 1 <= quantum {
            Some(FuelConfig { quantum, threshold: quantum, refill: RefillPolicy::Bounded(0) })
        } else {
            None
        }
    }

    /// All the fuel that one execution can consume: a quantum for the start
    /// and a quantum for each refill. `None` where the refills are unbounded,
    /// or where the sum does not fit in 64 bits.
    pub fn total_fuel(&self) -> (total: Option<u64>)
        ensures
            match self.refill() {
                RefillPolicy::Unbounded => total is None,
                RefillPolicy::Bounded(refills) => match total {
                    Some(fuel) => fuel == self.quantum() * (refills + 1),
                    None => self.quantum() * (refills + 1) > u64::MAX,
                },
            },
    {
        match self.refill {
            RefillPolicy::Unbounded => None,
            RefillPolicy::Bounded(refills) => {
                let quantum = self.quantum as u128;
                let times = refills as u128 + 1;
                assert(quantum * times <= 0xffff_ffff_ffff_ffff * 0x1_0000_0000_0000_0000)
                    by (nonlinear_arith)
                    requires
                        0 <= quantum <= 0xffff_ffff_ffff_ffff,
                        0 <= times <= 0x1_0000_0000_0000_0000,
                ;
                let total: u128 = quantum * times;
                if total <= u64::MAX as u128 {
                    Some(total as u64)
                } else {
                    None
                }
            },
        }
    }
}

/// The state of a meter, in unbounded numbers.
pub struct Meter {
    pub quantum: nat,
    pub threshold: nat,
    pub remaining: nat,
    pub since_yield: nat,
    /// Refills still allowed, `None` where there is no limit.
    pub refills: Option<nat>,
}

/// What a meter decides when the guest has used up its budget and has more to do.
#[derive(Clone, Copy, Debug, PartialEq, Eq, Structural)]
pub enum Checkpoint {
    /// The call suspends and may be resumed.
    Yield,
    /// The fuel is gone for good: the call fails.
    Exhausted,
}

impl Meter {
    /// A meter in order: a usable threshold and quantum, no more fuel than a
    /// quantum, no more consumed since the last suspension than the threshold.
    pub open spec fn wf(self) -> bool {
        &&& 1 <= self.threshold <= self.quantum
        &&& self.remaining <= self.quantum
        &&& self.since_yield <= self.threshold
    }

    /// A full meter.
    pub open spec fn fresh(config: FuelConfig) -> Meter {
        Meter {
            quantum: config.quantum() as nat,
            threshold: config.threshold() as nat,
            remaining: config.quantum() as nat,
            since_yield: 0,
            refills: config.refill().limit(),
        }
    }

    /// Units the guest may consume before it must stop.
    pub open spec fn budget(self) -> nat {
        let to_threshold = (self.threshold - self.since_yield) as nat;
        if self.remaining <= to_threshold {
            self.remaining
        } else {
            to_threshold
        }
    }

    /// The meter after the guest consumed `units`.
    pub open spec fn consume(self, units: nat) -> Meter
        recommends
            units <= self.budget(),
    {
        Meter {
            remaining: (self.remaining - units) as nat,
            since_yield: self.since_yield + units,
            ..self
        }
    }

    /// Whether an empty meter would be refilled.
    pub open spec fn can_refill(self) -> bool {
        self.refills != Some(0nat)
    }

    /// What happens at a stop.
    pub open spec fn decide(self) -> Checkpoint {
        if self.remaining == 0 && !self.can_refill() {
            Checkpoint::Exhausted
        } else {
            Checkpoint::Yield
        }
    }

    /// The meter after a stop: refilled if it was empty and a refill was
    /// allowed, with the threshold count starting over if the call goes on.
    pub open spec fn checkpoint(self) -> Meter {
        if self.remaining == 0 {
            match self.refills {
                Some(n) => if n == 0 {
                    self
                } else {
                    Meter {
                        remaining: self.quantum,
                        since_yield: 0,
                        refills: Some((n - 1) as nat),
                        ..self
                    }
                },
                None => Meter { remaining: self.quantum, since_yield: 0, ..self },
            }
        } else {
            Meter { since_yield: 0, ..self }
        }
    }

    /// All the fuel the meter can still hand out, `None` where there is no limit.
    pub open spec fn capacity(self) -> Option<nat> {
        match self.refills {
            Some(n) => Some(self.remaining + self.quantum * n),
            None => None,
        }
    }
}

/// How a metered computation ended.
#[derive(Clone, Copy, Debug, PartialEq, Eq, Structural)]
pub enum Outcome {
    /// All the work was done, after this many suspensions.
    Completed { suspensions: u64 },
    /// The fuel ran out for good after `consumed` units and this many suspensions.
    FuelExhausted { suspensions: u64, consumed: u64 },
}

/// The outcome in unbounded numbers.
pub enum OutcomeView {
    Completed { suspensions: nat },
    FuelExhausted { suspensions: nat, consumed: nat },
}

impl View for Outcome {
    type V = OutcomeView;

    open spec fn view(&self) -> OutcomeView {
        match *self {
            Outcome::Completed { suspensions } => OutcomeView::Completed {
                suspensions: suspensions as nat,
            },
            Outcome::FuelExhausted { suspensions, consumed } => OutcomeView::FuelExhausted {
                suspensions: suspensions as nat,
                consumed: consumed as nat,
            },
        }
    }
}

/// A computation that needs `work` more units, run on `meter` to its end.
///
/// `suspensions` and `consumed` count what happened before.
pub open spec fn run(meter: Meter, work: nat, suspensions: nat, consumed: nat) -> OutcomeView
    recommends
        meter.wf(),
    decreases work, (if meter.budget() == 0 { 1nat } else { 0nat }),
    when meter.wf()
{
    if work == 0 {
        OutcomeView::Completed { suspensions }
    } else if meter.budget() > 0 {
        let units = if work <= meter.budget() {
            work
        } else {
            meter.budget()
        };
        run(meter.consume(units), (work - units) as nat, suspensions, consumed + units)
    } else {
        match meter.decide() {
            Checkpoint::Exhausted => OutcomeView::FuelExhausted { suspensions, consumed },
            Checkpoint::Yield => run(meter.checkpoint(), work, suspensions + 1, consumed),
        }
    }
}

/// The meter as a computation that needs `work` more units leaves it at its end.
pub open spec fn meter_after(meter: Meter, work: nat) -> Meter
    recommends
        meter.wf(),
    decreases work, (if meter.budget() == 0 { 1nat } else { 0nat }),
    when meter.wf()
{
    if work == 0 {
        meter
    } else if meter.budget() > 0 {
        let units = if work <= meter.budget() {
            work
        } else {
            meter.budget()
        };
        meter_after(meter.consume(units), (work - units) as nat)
    } else {
        match meter.decide() {
            Checkpoint::Exhausted => meter,
            Checkpoint::Yield => meter_after(meter.checkpoint(), work),
        }
    }
}

/// The suspension count never goes down, and the units consumed never do.
pub proof fn lemma_run_counts_grow(meter: Meter, work: nat, suspensions: nat, consumed: nat)
    requires
        meter.wf(),
    ensures
        match run(meter, work, suspensions, consumed) {
            OutcomeView::Completed { suspensions: s } => s >= suspensions,
            OutcomeView::FuelExhausted { suspensions: s, consumed: c } => s >= suspensions && c
                >= consumed,
        },
    decreases work, (if meter.budget() == 0 { 1nat } else { 0nat }),
{
    if work == 0 {
    } else if meter.budget() > 0 {
        let units = if work <= meter.budget() {
            work
        } else {
            meter.budget()
        };
        lemma_run_counts_grow(
            meter.consume(units),
            (work - units) as nat,
            suspensions,
            consumed + units,
        );
    } else if meter.decide() == Checkpoint::Yield {
        lemma_run_counts_grow(meter.checkpoint(), work, suspensions + 1, consumed);
    }
}

/// A computation completes exactly when the meter's capacity covers the work:
/// always under unbounded refill, and otherwise when the work is at most the
/// fuel left plus one quantum per refill. When it fails, it has consumed the
/// whole capacity.
pub proof fn lemma_completes_iff_capacity(
    meter: Meter,
    work: nat,
    suspensions: nat,
    consumed: nat,
)
    requires
        meter.wf(),
    ensures
        match meter.capacity() {
            None => run(meter, work, suspensions, consumed) is Completed,
            Some(c) => match run(meter, work, suspensions, consumed) {
                OutcomeView::Completed { .. } => work <= c,
                OutcomeView::FuelExhausted { consumed: k, .. } => work > c && k == consumed + c,
            },
        },
    decreases work, (if meter.budget() == 0 { 1nat } else { 0nat }),
{
    if work == 0 {
    } else if meter.budget() > 0 {
        let units = if work <= meter.budget() {
            work
        } else {
            meter.budget()
        };
        lemma_completes_iff_capacity(
            meter.consume(units),
            (work - units) as nat,
            suspensions,
            consumed + units,
        );
    } else if meter.decide() == Checkpoint::Yield {
        let next = meter.checkpoint();
        if meter.remaining == 0 {
            if let Some(n) = meter.refills {
                let q = meter.quantum;
                assert(q + q * ((n - 1) as nat) == q * n) by (nonlinear_arith)
                    requires
                        n >= 1,
                ;
            }
        }
        assert(next.capacity() == meter.capacity());
        lemma_run_counts_grow(next, work, suspensions + 1, consumed);
        lemma_completes_iff_capacity(next, work, suspensions + 1, consumed);
    } else {
        let q = meter.quantum;
        assert(q * 0 == 0) by (nonlinear_arith);
    }
}

/// With a threshold of at most one quantum, a computation that needs more
/// than the threshold does not complete without suspending at least once.
pub proof fn law_work_over_threshold_suspends(config: FuelConfig, work: nat)
    requires
        config.wf(),
        work > config.threshold(),
    ensures
        run(Meter::fresh(config), work, 0, 0) matches OutcomeView::Completed { suspensions }
            ==> suspensions >= 1,
{
    let start = Meter::fresh(config);
    let threshold = config.threshold() as nat;
    assert(start.budget() == threshold);
    let stopped = start.consume(threshold);
    assert(stopped.budget() == 0);
    let left = (work - threshold) as nat;
    assert(run(start, work, 0, 0) == run(stopped, left, 0, threshold));
    if stopped.decide() == Checkpoint::Yield {
        assert(run(stopped, left, 0, threshold) == run(stopped.checkpoint(), left, 1, threshold));
        lemma_run_counts_grow(stopped.checkpoint(), left, 1, threshold);
    }
}

/// Without refills, a computation that needs more than one quantum fails with
/// fuel exhaustion, having consumed exactly the quantum.
pub proof fn law_no_refill_exhausts(config: FuelConfig, work: nat)
    requires
        config.wf(),
        config.refill() == RefillPolicy::Bounded(0),
        work > config.quantum(),
    ensures
        run(Meter::fresh(config), work, 0, 0) matches OutcomeView::FuelExhausted { consumed, .. }
            && consumed == config.quantum(),
{
    let q = config.quantum() as nat;
    assert(q * 0 == 0) by (nonlinear_arith);
    lemma_completes_iff_capacity(Meter::fresh(config), work, 0, 0);
}

/// With a bounded number of refills, a computation completes exactly when it
/// needs no more than one quantum for the start and one for each refill.
pub proof fn law_bounded_refill_capacity(config: FuelConfig, refills: u64, work: nat)
    requires
        config.wf(),
        config.refill() == RefillPolicy::Bounded(refills),
    ensures
        run(Meter::fresh(config), work, 0, 0) is Completed <==> work <= config.quantum() * (refills
            + 1),
{
    let q = config.quantum() as nat;
    let n = refills as nat;
    assert(q + q * n == q * (n + 1)) by (nonlinear_arith);
    lemma_completes_iff_capacity(Meter::fresh(config), work, 0, 0);
}

/// Under unbounded refill every computation completes, whatever the quantum
/// and the threshold: two configurations can differ in the number of
/// suspensions only.
pub proof fn law_unbounded_refill_completes(first: FuelConfig, second: FuelConfig, work: nat)
    requires
        first.wf(),
        second.wf(),
        first.refill() == RefillPolicy::Unbounded,
        second.refill() == RefillPolicy::Unbounded,
    ensures
        run(Meter::fresh(first), work, 0, 0) is Completed,
        run(Meter::fresh(second), work, 0, 0) is Completed,
{
    lemma_completes_iff_capacity(Meter::fresh(first), work, 0, 0);
    lemma_completes_iff_capacity(Meter::fresh(second), work, 0, 0);
}

/// A blocking configuration never suspends: the computation completes with no
/// suspension, or fails with none.
pub proof fn law_blocking_never_suspends(config: FuelConfig, work: nat)
    requires
        config.wf(),
        config.threshold() == config.quantum(),
        config.refill() == RefillPolicy::Bounded(0),
    ensures
        match run(Meter::fresh(config), work, 0, 0) {
            OutcomeView::Completed { suspensions } => suspensions == 0 && work <= config.quantum(),
            OutcomeView::FuelExhausted { suspensions, consumed } => suspensions == 0 && work
                > config.quantum() && consumed == config.quantum(),
        },
{
    let start = Meter::fresh(config);
    let q = config.quantum() as nat;
    assert(start.budget() == q);
    if work == 0 {
    } else if work <= q {
        assert(run(start, work, 0, 0) == run(start.consume(work), 0, 0, work));
    } else {
        let stopped = start.consume(q);
        assert(stopped.budget() == 0);
        assert(stopped.decide() == Checkpoint::Exhausted);
        assert(run(start, work, 0, 0) == run(stopped, (work - q) as nat, 0, q));
    }
}

/// A fuel meter.
#[derive(Clone, Copy, Debug)]
pub struct FuelMeter {
    config: FuelConfig,
    remaining: u64,
    since_yield: u64,
    refills_left: RefillPolicy,
}

impl View for FuelMeter {
    type V = Meter;

    closed spec fn view(&self) -> Meter {
        Meter {
            quantum: self.config.quantum() as nat,
            threshold: self.config.threshold() as nat,
            remaining: self.remaining as nat,
            since_yield: self.since_yield as nat,
            refills: self.refills_left.limit(),
        }
    }
}

impl FuelMeter {
    /// A full meter.
    pub fn new(config: FuelConfig) -> (meter: FuelMeter)
        ensures
            config.wf(),
            meter@ == Meter::fresh(config),
            meter@.wf(),
    {
        proof {
            use_type_invariant(&config);
        }
        FuelMeter {
            config,
            remaining: config.quantum(),
            since_yield: 0,
            refills_left: config.refill(),
        }
    }

    /// Fuel left in the meter.
    pub fn remaining(&self) -> (fuel: u64)
        ensures
            fuel == self@.remaining,
    {
        self.remaining
    }

    /// Units the guest may consume before it must stop.
    pub fn budget(&self) -> (units: u64)
        requires
            self@.wf(),
        ensures
            units == self@.budget(),
    {
        let to_threshold = self.config.threshold() - self.since_yield;
        if self.remaining <= to_threshold {
            self.remaining
        } else {
            to_threshold
        }
    }

    /// Records that the guest consumed `units`.
    pub fn consume(&mut self, units: u64)
        requires
            old(self)@.wf(),
            units <= old(self)@.budget(),
        ensures
            final(self)@ == old(self)@.consume(units as nat),
            final(self)@.wf(),
    {
        self.remaining = self.remaining - units;
        self.since_yield = self.since_yield + units;
    }

    /// Decides what happens at a stop, and refills or resets the meter for
    /// the next stretch.
    pub fn checkpoint(&mut self) -> (decision: Checkpoint)
        requires
            old(self)@.wf(),
        ensures
            decision == old(self)@.decide(),
            final(self)@ == old(self)@.checkpoint(),
            final(self)@.wf(),
            decision == Checkpoint::Yield ==> final(self)@.budget() > 0,
    {
        if self.remaining == 0 {
            match self.refills_left {
                RefillPolicy::Bounded(n) => {
                    if n == 0 {
                        return Checkpoint::Exhausted;
                    }
                    self.refills_left = RefillPolicy::Bounded(n - 1);
                },
                RefillPolicy::Unbounded => {},
            }
            self.remaining = self.config.quantum();
        }
        self.since_yield = 0;
        Checkpoint::Yield
    }
}

/// Runs a computation of `work` units under `config`, from a full meter to
/// its end.
pub fn run_metered(config: FuelConfig, work: u64) -> (outcome: Outcome)
    ensures
        config.wf(),
        outcome@ == run(Meter::fresh(config), work as nat, 0, 0),
{
    let mut meter = FuelMeter::new(config);
    let mut left: u64 = work;
    let mut suspensions: u64 = 0;
    let mut consumed: u64 = 0;
    loop
        invariant
            config.wf(),
            meter@.wf(),
            consumed + left == work,
            suspensions <= consumed,
            meter@.budget() == 0 ==> suspensions < consumed,
            run(Meter::fresh(config), work as nat, 0, 0) == run(
                meter@,
                left as nat,
                suspensions as nat,
                consumed as nat,
            ),
        decreases left, (if meter@.budget() == 0 { 1nat } else { 0nat }),
    {
        if left == 0 {
            return Outcome::Completed { suspensions };
        }
        let budget = meter.budget();
        if budget > 0 {
            let units = if left <= budget {
                left
            } else {
                budget
            };
            meter.consume(units);
            left = left - units;
            consumed = consumed + units;
        } else {
            match meter.checkpoint() {
                Checkpoint::Exhausted => {
                    return Outcome::FuelExhausted { suspensions, consumed };
                },
                Checkpoint::Yield => {
                    suspensions = suspensions + 1;
                },
            }
        }
    }
}

} // verus!
