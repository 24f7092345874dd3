use vstd::prelude::*;

use crate::test_config::{Clamped, TestRunnerConfig, MAX_SETUP_TIMEOUT_MS, MAX_TEST_TIMEOUT_MS, clamp_spec};

verus! {

/// The three services of a fleet, in dependency order.
#[derive(Debug, Clone, Copy, PartialEq, Eq, Structural)]
pub enum ServiceKind {
    /// The ledger source (bitcoind); depends on nothing.
    Bitcoin,
    /// The indexer (titan); depends on the ledger source.
    Titan,
    /// The validator; depends on the indexer.
    Validator,
}

/// Position of a service in the dependency order.
pub open spec fn kind_index(k: ServiceKind) -> nat {
    match k {
        ServiceKind::Bitcoin => 0,
        ServiceKind::Titan => 1,
        ServiceKind::Validator => 2,
    }
}

/// The service at a position of the dependency order.
pub open spec fn kind_at(i: nat) -> ServiceKind {
    if i == 0 {
        ServiceKind::Bitcoin
    } else if i == 1 {
        ServiceKind::Titan
    } else {
        ServiceKind::Validator
    }
}

/// Where a run stands. Setting up is split in two steps per service: launching its
/// instance, then waiting until it is ready (probe and fixtures).
#[derive(Debug, Clone, Copy, PartialEq, Eq, Structural)]
pub enum Phase {
    Launching(ServiceKind),
    AwaitingReady(ServiceKind),
    Testing,
    TearingDown,
    Done,
}

/// What the run asks its driver to do next.
#[derive(Debug, Clone, Copy, PartialEq, Eq, Structural)]
pub enum Action {
    /// Launch the instance of this service.
    Launch(ServiceKind),
    /// Wait until the launched service is ready and its fixtures are in place.
    AwaitReady(ServiceKind),
    /// Run the test routine under this budget.
    RunTest { timeout_ms: u64 },
    /// Shut down this service.
    Shutdown(ServiceKind),
    /// The run is over; its outcome can be read.
    Finish,
}

/// What the driver reports back after performing an action.
#[derive(Debug, Clone)]
pub enum Event {
    /// The instance was launched.
    Launched,
    /// The instance could not be launched.
    LaunchFailed(String),
    /// The service answered its probe and its fixtures are in place.
    Ready,
    /// The service never became ready, or its fixtures failed.
    StartFailed(String),
    /// The setup budget ran out.
    SetupTimedOut,
    /// The test routine returned success.
    TestPassed,
    /// The test routine reported a failure.
    TestFailed(String),
    /// The test budget ran out.
    TestTimedOut,
    /// The service was shut down.
    Stopped,
    /// Shutting the service down failed.
    StopFailed(String),
}

/// The failure that ended setup or testing early.
#[derive(Debug, Clone)]
pub enum Failure {
    Launch { kind: ServiceKind, message: String },
    NotReady { kind: ServiceKind, message: String },
    SetupTimeout { kind: ServiceKind },
    Test { message: String },
    TestTimeout,
}

/// A service that failed to shut down.
#[derive(Debug, Clone)]
pub struct TeardownError {
    pub kind: ServiceKind,
    pub message: String,
}

/// The abstract state of a run.
pub struct LifecycleState {
    pub phase: Phase,
    /// Services launched and not yet shut down: always the first `live` ones of the
    /// dependency order.
    pub live: nat,
    /// The test budget that is used, in milliseconds.
    pub test_timeout_ms: u64,
    /// The failure of setup or testing, if any.
    pub failure: Option<Failure>,
    /// The shutdown failures collected during teardown, in order.
    pub teardown_errors: Seq<TeardownError>,
}

impl LifecycleState {
    /// The live services match the phase: during setup exactly those before the one
    /// being started (and it too once launched), all three while testing, at least
    /// one while tearing down, none when done.
    pub open spec fn wf(self) -> bool {
        match self.phase {
            Phase::Launching(k) => self.live == kind_index(k) && self.failure is None,
            Phase::AwaitingReady(k) => self.live == kind_index(k) + 1 && self.failure is None,
            Phase::Testing => self.live == 3 && self.failure is None,
            Phase::TearingDown => 0 < self.live <= 3,
            Phase::Done => self.live == 0,
        }
    }
}

/// The state of a fresh run: setting up the ledger source, nothing live.
pub open spec fn initial_state(test_timeout_ms: u64) -> LifecycleState {
    LifecycleState {
        phase: Phase::Launching(ServiceKind::Bitcoin),
        live: 0,
        test_timeout_ms,
        failure: None,
        teardown_errors: Seq::empty(),
    }
}

/// The action owed in a state.
pub open spec fn pending(s: LifecycleState) -> Action {
    match s.phase {
        Phase::Launching(k) => Action::Launch(k),
        Phase::AwaitingReady(k) => Action::AwaitReady(k),
        Phase::Testing => Action::RunTest { timeout_ms: s.test_timeout_ms },
        Phase::TearingDown => Action::Shutdown(kind_at(if s.live > 0 { (s.live - 1) as nat } else { 0 })),
        Phase::Done => Action::Finish,
    }
}

/// Teardown from a state: shut down the last live service, or finish when none is.
pub open spec fn teardown_from(s: LifecycleState) -> (LifecycleState, Action) {
    if s.live == 0 {
        (LifecycleState { phase: Phase::Done, ..s }, Action::Finish)
    } else {
        (LifecycleState { phase: Phase::TearingDown, ..s }, Action::Shutdown(kind_at((s.live - 1) as nat)))
    }
}

/// Setup or testing ends with a failure: record it and tear down.
pub open spec fn fail_into_teardown(s: LifecycleState, f: Failure) -> (LifecycleState, Action) {
    teardown_from(LifecycleState { failure: Some(f), ..s })
}

/// One transition: the next state and the next action after `e` in state `s`. An
/// event that does not answer the pending action leaves the state as it is and asks
/// for the pending action again.
pub open spec fn step_spec(s: LifecycleState, e: Event) -> (LifecycleState, Action) {
    match s.phase {
        Phase::Launching(k) => match e {
            Event::Launched => (
                LifecycleState { phase: Phase::AwaitingReady(k), live: kind_index(k) + 1, ..s },
                Action::AwaitReady(k),
            ),
            Event::LaunchFailed(m) => fail_into_teardown(s, Failure::Launch { kind: k, message: m }),
            Event::SetupTimedOut => fail_into_teardown(s, Failure::SetupTimeout { kind: k }),
            _ => (s, pending(s)),
        },
        Phase::AwaitingReady(k) => match e {
            Event::Ready => if k == ServiceKind::Validator {
                (
                    LifecycleState { phase: Phase::Testing, ..s },
                    Action::RunTest { timeout_ms: s.test_timeout_ms },
                )
            } else {
                let n = kind_at(kind_index(k) + 1);
                (LifecycleState { phase: Phase::Launching(n), ..s }, Action::Launch(n))
            },
            Event::StartFailed(m) => fail_into_teardown(s, Failure::NotReady { kind: k, message: m }),
            Event::SetupTimedOut => fail_into_teardown(s, Failure::SetupTimeout { kind: k }),
            _ => (s, pending(s)),
        },
        Phase::Testing => match e {
            Event::TestPassed => teardown_from(s),
            Event::TestFailed(m) => fail_into_teardown(s, Failure::Test { message: m }),
            Event::TestTimedOut => fail_into_teardown(s, Failure::TestTimeout),
            _ => (s, pending(s)),
        },
        Phase::TearingDown => if s.live == 0 {
            teardown_from(s)
        } else {
            let k = kind_at((s.live - 1) as nat);
            match e {
                Event::Stopped => teardown_from(LifecycleState { live: (s.live - 1) as nat, ..s }),
                Event::StopFailed(m) => teardown_from(
                    LifecycleState {
                        live: (s.live - 1) as nat,
                        teardown_errors: s.teardown_errors.push(TeardownError { kind: k, message: m }),
                        ..s
                    },
                ),
                _ => (s, pending(s)),
            }
        },
        Phase::Done => (s, Action::Finish),
    }
}

/// Whether a state is a finished run with nothing to report: no failure in setup or
/// testing, and every shutdown succeeded.
pub open spec fn passed_spec(s: LifecycleState) -> bool {
    s.phase == Phase::Done && s.failure is None && s.teardown_errors.len() == 0
}

/// The state after a sequence of events and the actions asked for along the way.
pub open spec fn run_events(s: LifecycleState, events: Seq<Event>) -> (LifecycleState, Seq<Action>)
    decreases events.len(),
{
    if events.len() == 0 {
        (s, Seq::empty())
    } else {
        let (s1, a) = step_spec(s, events[0]);
        let (s2, rest) = run_events(s1, events.subrange(1, events.len() as int));
        (s2, seq![a] + rest)
    }
}

/// The lifecycle manager of one run: sequences the setup of the three services in
/// dependency order under the setup budget, the test routine under the test budget,
/// and an unconditional teardown in reverse order that collects shutdown failures.
pub struct Lifecycle {
    phase: Phase,
    live: u8,
    setup_budget: Clamped,
    test_budget: Clamped,
    failure: Option<Failure>,
    teardown_errors: Vec<TeardownError>,
}

impl View for Lifecycle {
    type V = LifecycleState;

    closed spec fn view(&self) -> LifecycleState {
        LifecycleState {
            phase: self.phase,
            live: self.live as nat,
            test_timeout_ms: self.test_budget.effective_ms,
            failure: self.failure,
            teardown_errors: self.teardown_errors@,
        }
    }
}

fn kind_of_slot(i: u8) -> (r: ServiceKind)
    ensures
        r == kind_at(i as nat),
{
    if i == 0 {
        ServiceKind::Bitcoin
    } else if i == 1 {
        ServiceKind::Titan
    } else {
        ServiceKind::Validator
    }
}

fn slot_of_kind(k: ServiceKind) -> (r: u8)
    ensures
        r as nat == kind_index(k),
        kind_at(r as nat) == k,
{
    match k {
        ServiceKind::Bitcoin => 0,
        ServiceKind::Titan => 1,
        ServiceKind::Validator => 2,
    }
}

impl Lifecycle {
    /// A run about to start: both budgets are held to their ceilings.
    pub fn new(config: &TestRunnerConfig) -> (r: Self)
        ensures
            r@ == initial_state(clamp_spec(config.test_timeout_ms, MAX_TEST_TIMEOUT_MS).effective_ms),
            r.setup_budget_spec() == clamp_spec(config.setup_timeout_ms, MAX_SETUP_TIMEOUT_MS),
            r@.wf(),
    {
        let r = Lifecycle {
            phase: Phase::Launching(ServiceKind::Bitcoin),
            live: 0,
            setup_budget: config.effective_setup_timeout(),
            test_budget: config.effective_test_timeout(),
            failure: None,
            teardown_errors: Vec::new(),
        };
        assert(r@.teardown_errors =~= Seq::<TeardownError>::empty());
        r
    }

    pub closed spec fn setup_budget_spec(&self) -> Clamped {
        self.setup_budget
    }

    /// The setup budget used, and whether the request was held to the ceiling.
    pub fn setup_budget(&self) -> (r: Clamped)
        ensures
            r == self.setup_budget_spec(),
    {
        self.setup_budget
    }

    /// The action owed in the current state.
    pub fn pending_action(&self) -> (r: Action)
        ensures
            r == pending(self@),
    {
        match self.phase {
            Phase::Launching(k) => Action::Launch(k),
            Phase::AwaitingReady(k) => Action::AwaitReady(k),
            Phase::Testing => Action::RunTest { timeout_ms: self.test_budget.effective_ms },
            Phase::TearingDown => Action::Shutdown(kind_of_slot(if self.live > 0 { self.live - 1 } else { 0 })),
            Phase::Done => Action::Finish,
        }
    }

    fn teardown_next(&mut self) -> (r: Action)
        ensures
            (final(self)@, r) == teardown_from(old(self)@),
            final(self).setup_budget_spec() == old(self).setup_budget_spec(),
    {
        if self.live == 0 {
            self.phase = Phase::Done;
            Action::Finish
        } else {
            self.phase = Phase::TearingDown;
            Action::Shutdown(kind_of_slot(self.live - 1))
        }
    }

    fn fail(&mut self, f: Failure) -> (r: Action)
        ensures
            (final(self)@, r) == fail_into_teardown(old(self)@, f),
            final(self).setup_budget_spec() == old(self).setup_budget_spec(),
    {
        self.failure = Some(f);
        self.teardown_next()
    }

    /// Applies the driver's report of the last action and returns the next action.
    pub fn step(&mut self, e: Event) -> (r: Action)
        ensures
            (final(self)@, r) == step_spec(old(self)@, e),
            old(self)@.wf() ==> final(self)@.wf(),
            final(self).setup_budget_spec() == old(self).setup_budget_spec(),
    {
        proof {
            lemma_step_wf(self@, e);
        }
        match self.phase {
            Phase::Launching(k) => match e {
                Event::Launched => {
                    self.live = slot_of_kind(k) + 1;
                    self.phase = Phase::AwaitingReady(k);
                    Action::AwaitReady(k)
                },
                Event::LaunchFailed(m) => self.fail(Failure::Launch { kind: k, message: m }),
                Event::SetupTimedOut => self.fail(Failure::SetupTimeout { kind: k }),
                _ => self.pending_action(),
            },
            Phase::AwaitingReady(k) => match e {
                Event::Ready => if k == ServiceKind::Validator {
                    self.phase = Phase::Testing;
                    Action::RunTest { timeout_ms: self.test_budget.effective_ms }
                } else {
                    let n = kind_of_slot(slot_of_kind(k) + 1);
                    self.phase = Phase::Launching(n);
                    Action::Launch(n)
                },
                Event::StartFailed(m) => self.fail(Failure::NotReady { kind: k, message: m }),
                Event::SetupTimedOut => self.fail(Failure::SetupTimeout { kind: k }),
                _ => self.pending_action(),
            },
            Phase::Testing => match e {
                Event::TestPassed => self.teardown_next(),
                Event::TestFailed(m) => self.fail(Failure::Test { message: m }),
                Event::TestTimedOut => self.fail(Failure::TestTimeout),
                _ => self.pending_action(),
            },
            Phase::TearingDown => if self.live == 0 {
                self.teardown_next()
            } else {
                let k = kind_of_slot(self.live - 1);
                match e {
                    Event::Stopped => {
                        self.live = self.live - 1;
                        self.teardown_next()
                    },
                    Event::StopFailed(m) => {
                        self.live = self.live - 1;
                        self.teardown_errors.push(TeardownError { kind: k, message: m });
                        self.teardown_next()
                    },
                    _ => self.pending_action(),
                }
            },
            Phase::Done => Action::Finish,
        }
    }

    pub fn phase(&self) -> (r: Phase)
        ensures
            r == self@.phase,
    {
        self.phase
    }

    /// Number of services launched and not yet shut down.
    pub fn live(&self) -> (r: u8)
        ensures
            r as nat == self@.live,
    {
        self.live
    }

    /// The failure that ended setup or testing, if any.
    pub fn failure(&self) -> (r: &Option<Failure>)
        ensures
            *r == self@.failure,
    {
        &self.failure
    }

    /// The shutdown failures collected during teardown.
    pub fn teardown_errors(&self) -> (r: &Vec<TeardownError>)
        ensures
            r@ == self@.teardown_errors,
    {
        &self.teardown_errors
    }

    /// Whether the run finished with nothing to report.
    pub fn passed(&self) -> (r: bool)
        ensures
            r == passed_spec(self@),
    {
        matches!(self.phase, Phase::Done) && self.failure.is_none() && self.teardown_errors.len() == 0
    }
}

/// Every transition keeps the live services in line with the phase.
pub proof fn lemma_step_wf(s: LifecycleState, e: Event)
    ensures
        s.wf() ==> step_spec(s, e).0.wf(),
{
}

/// Running two event sequences one after the other is running their concatenation.
pub proof fn lemma_run_append(s: LifecycleState, a: Seq<Event>, b: Seq<Event>)
    ensures
        run_events(s, a + b) == (
            run_events(run_events(s, a).0, b).0,
            run_events(s, a).1 + run_events(run_events(s, a).0, b).1,
        ),
    decreases a.len(),
{
    if a.len() == 0 {
        assert(a + b =~= b);
        assert(run_events(s, a).1 + run_events(s, b).1 =~= run_events(s, b).1);
    } else {
        let ab = a + b;
        let (s1, x) = step_spec(s, a[0]);
        assert(ab[0] == a[0]);
        assert(ab.subrange(1, ab.len() as int) =~= a.subrange(1, a.len() as int) + b);
        lemma_run_append(s1, a.subrange(1, a.len() as int), b);
        let ra = run_events(s1, a.subrange(1, a.len() as int));
        let rb = run_events(ra.0, b);
        assert(seq![x] + (ra.1 + rb.1) =~= (seq![x] + ra.1) + rb.1);
    }
}

/// Running one more event extends the run by one step.
pub proof fn lemma_run_snoc(s: LifecycleState, a: Seq<Event>, e: Event)
    ensures
        run_events(s, a.push(e)) == (
            step_spec(run_events(s, a).0, e).0,
            run_events(s, a).1.push(step_spec(run_events(s, a).0, e).1),
        ),
{
    let single = seq![e];
    assert(a.push(e) =~= a + single);
    lemma_run_append(s, a, single);
    let s1 = run_events(s, a).0;
    assert(single.subrange(1, single.len() as int) =~= Seq::<Event>::empty());
    let (s2, x) = step_spec(s1, e);
    assert(single[0] == e);
    assert(run_events(s2, Seq::<Event>::empty()) == (s2, Seq::<Action>::empty()));
    assert(run_events(s1, single) == (s2, seq![x] + Seq::<Action>::empty()));
    assert(run_events(s, a).1 + (seq![x] + Seq::<Action>::empty()) =~= run_events(s, a).1.push(x));
}

/// Kinds of the shutdown failures reported by `outcomes`, the first answering the
/// shutdown of the service at position `live - 1`, each next one the position below.
pub open spec fn stop_errors(outcomes: Seq<Event>, live: nat) -> Seq<TeardownError>
    decreases outcomes.len(),
{
    if outcomes.len() == 0 {
        Seq::empty()
    } else {
        let rest = stop_errors(outcomes.subrange(1, outcomes.len() as int), (live - 1) as nat);
        match outcomes[0] {
            Event::StopFailed(m) => seq![TeardownError { kind: kind_at((live - 1) as nat), message: m }] + rest,
            _ => rest,
        }
    }
}

/// An event that reports the end of one shutdown, successful or not.
pub open spec fn is_stop_outcome(e: Event) -> bool {
    e is Stopped || e is StopFailed
}

/// Teardown shuts the live services down one at a time in reverse dependency order,
/// goes on past failed shutdowns, collects their errors in order, and finishes once
/// nothing is live; the failure of the earlier phases is kept.
pub proof fn lemma_teardown_order(s: LifecycleState, outcomes: Seq<Event>)
    requires
        s.wf(),
        s.phase == Phase::TearingDown,
        outcomes.len() == s.live,
        forall|i: int| 0 <= i < outcomes.len() ==> is_stop_outcome(#[trigger] outcomes[i]),
    ensures
        run_events(s, outcomes).1.len() == s.live,
        forall|i: int|
            0 <= i < s.live - 1 ==> #[trigger] run_events(s, outcomes).1[i] == Action::Shutdown(
                kind_at((s.live - 2 - i) as nat),
            ),
        run_events(s, outcomes).1[s.live - 1] == Action::Finish,
        run_events(s, outcomes).0.phase == Phase::Done,
        run_events(s, outcomes).0.live == 0,
        run_events(s, outcomes).0.failure == s.failure,
        run_events(s, outcomes).0.teardown_errors == s.teardown_errors + stop_errors(outcomes, s.live),
    decreases outcomes.len(),
{
    let rest = outcomes.subrange(1, outcomes.len() as int);
    let (s1, a) = step_spec(s, outcomes[0]);
    assert(is_stop_outcome(outcomes[0]));
    if s.live == 1 {
        assert(rest.len() == 0);
        assert(s1.phase == Phase::Done);
        assert(run_events(s1, rest).1 =~= Seq::<Action>::empty());
        assert(stop_errors(rest, 0) =~= Seq::<TeardownError>::empty());
        match outcomes[0] {
            Event::StopFailed(m) => {
                assert(s.teardown_errors.push(TeardownError { kind: kind_at(0), message: m })
                    =~= s.teardown_errors + stop_errors(outcomes, s.live));
            },
            _ => {
                assert(s.teardown_errors =~= s.teardown_errors + stop_errors(outcomes, s.live));
            },
        }
    } else {
        assert forall|i: int| 0 <= i < rest.len() implies is_stop_outcome(#[trigger] rest[i]) by {
            assert(rest[i] == outcomes[i + 1]);
        }
        lemma_teardown_order(s1, rest);
        let r1 = run_events(s1, rest);
        assert(run_events(s, outcomes).1 == seq![a] + r1.1);
        assert forall|i: int|
            0 <= i < s.live - 1 implies #[trigger] run_events(s, outcomes).1[i] == Action::Shutdown(
                kind_at((s.live - 2 - i) as nat),
            ) by {
            if i > 0 {
                assert(run_events(s, outcomes).1[i] == r1.1[i - 1]);
            }
        }
        match outcomes[0] {
            Event::StopFailed(m) => {
                let x = TeardownError { kind: kind_at((s.live - 1) as nat), message: m };
                assert(s.teardown_errors.push(x) + stop_errors(rest, s1.live) =~= s.teardown_errors
                    + stop_errors(outcomes, s.live));
            },
            _ => {},
        }
    }
}

/// Once teardown has begun, every later action is a shutdown of a service that is
/// still live, or the finish; the failure of the earlier phases is kept.
pub proof fn lemma_teardown_only_shuts_down(s: LifecycleState, events: Seq<Event>)
    requires
        s.wf(),
        s.phase == Phase::TearingDown || s.phase == Phase::Done,
    ensures
        run_events(s, events).1.len() == events.len(),
        forall|i: int|
            0 <= i < events.len() ==> (#[trigger] run_events(s, events).1[i] == Action::Finish || (
            run_events(s, events).1[i] is Shutdown && kind_index(run_events(s, events).1[i]->Shutdown_0)
                < s.live)),
        run_events(s, events).0.failure == s.failure,
        run_events(s, events).0.wf(),
        run_events(s, events).0.phase == Phase::TearingDown || run_events(s, events).0.phase
            == Phase::Done,
    decreases events.len(),
{
    if events.len() > 0 {
        let rest = events.subrange(1, events.len() as int);
        let (s1, a) = step_spec(s, events[0]);
        lemma_step_wf(s, events[0]);
        lemma_teardown_only_shuts_down(s1, rest);
        let r1 = run_events(s1, rest);
        assert(s1.live <= s.live);
        assert forall|i: int|
            0 <= i < events.len() implies (#[trigger] run_events(s, events).1[i] == Action::Finish || (
            run_events(s, events).1[i] is Shutdown && kind_index(run_events(s, events).1[i]->Shutdown_0)
                < s.live)) by {
            if i > 0 {
                assert(run_events(s, events).1[i] == r1.1[i - 1]);
            }
        }
    }
}

/// The events of a setup in which all three services launch and become ready.
pub open spec fn all_ready_events() -> Seq<Event> {
    seq![Event::Launched, Event::Ready, Event::Launched, Event::Ready, Event::Launched, Event::Ready]
}

/// When all three services launch and become ready, the run launches and awaits them
/// in dependency order and then runs the test under its budget, with all three live.
pub proof fn lemma_setup_in_dependency_order(test_timeout_ms: u64)
    ensures
        run_events(initial_state(test_timeout_ms), all_ready_events()).1 == seq![
            Action::AwaitReady(ServiceKind::Bitcoin),
            Action::Launch(ServiceKind::Titan),
            Action::AwaitReady(ServiceKind::Titan),
            Action::Launch(ServiceKind::Validator),
            Action::AwaitReady(ServiceKind::Validator),
            Action::RunTest { timeout_ms: test_timeout_ms },
        ],
        run_events(initial_state(test_timeout_ms), all_ready_events()).0 == (LifecycleState {
            phase: Phase::Testing,
            live: 3,
            test_timeout_ms,
            failure: None,
            teardown_errors: Seq::empty(),
        }),
{
    let s0 = initial_state(test_timeout_ms);
    let e = all_ready_events();
    lemma_run_snoc(s0, e.take(0), e[0]);
    assert(e.take(0).push(e[0]) =~= e.take(1));
    lemma_run_snoc(s0, e.take(1), e[1]);
    assert(e.take(1).push(e[1]) =~= e.take(2));
    lemma_run_snoc(s0, e.take(2), e[2]);
    assert(e.take(2).push(e[2]) =~= e.take(3));
    lemma_run_snoc(s0, e.take(3), e[3]);
    assert(e.take(3).push(e[3]) =~= e.take(4));
    lemma_run_snoc(s0, e.take(4), e[4]);
    assert(e.take(4).push(e[4]) =~= e.take(5));
    lemma_run_snoc(s0, e.take(5), e[5]);
    assert(e.take(5).push(e[5]) =~= e);
    assert(run_events(s0, e.take(0)) == (s0, Seq::<Action>::empty()));
    assert(run_events(s0, e).1 =~= seq![
        Action::AwaitReady(ServiceKind::Bitcoin),
        Action::Launch(ServiceKind::Titan),
        Action::AwaitReady(ServiceKind::Titan),
        Action::Launch(ServiceKind::Validator),
        Action::AwaitReady(ServiceKind::Validator),
        Action::RunTest { timeout_ms: test_timeout_ms },
    ]);
}

proof fn lemma_run_single(s: LifecycleState, e: Event)
    ensures
        run_events(s, seq![e]) == (step_spec(s, e).0, seq![step_spec(s, e).1]),
{
    lemma_run_snoc(s, Seq::empty(), e);
    assert(Seq::<Event>::empty().push(e) =~= seq![e]);
    assert(run_events(s, Seq::<Event>::empty()) == (s, Seq::<Action>::empty()));
    assert(Seq::<Action>::empty().push(step_spec(s, e).1) =~= seq![step_spec(s, e).1]);
}

/// If the ledger source fails to launch, no other service is ever launched or awaited
/// and the test never runs: the run finishes at once, with the launch failure, and
/// every later action is the finish.
pub proof fn lemma_ledger_launch_failure(test_timeout_ms: u64, m: String, rest: Seq<Event>)
    ensures
        run_events(initial_state(test_timeout_ms), seq![Event::LaunchFailed(m)] + rest).1.len()
            == rest.len() + 1,
        forall|i: int|
            0 <= i <= rest.len() ==> #[trigger] run_events(
                initial_state(test_timeout_ms),
                seq![Event::LaunchFailed(m)] + rest,
            ).1[i] == Action::Finish,
        run_events(initial_state(test_timeout_ms), seq![Event::LaunchFailed(m)] + rest).0.failure
            == Some(Failure::Launch { kind: ServiceKind::Bitcoin, message: m }),
        !passed_spec(run_events(initial_state(test_timeout_ms), seq![Event::LaunchFailed(m)] + rest).0),
{
    let s0 = initial_state(test_timeout_ms);
    let first = seq![Event::LaunchFailed(m)];
    lemma_run_single(s0, Event::LaunchFailed(m));
    lemma_run_append(s0, first, rest);
    let s1 = step_spec(s0, Event::LaunchFailed(m)).0;
    lemma_teardown_only_shuts_down(s1, rest);
    let all = run_events(s0, first + rest).1;
    let r1 = run_events(s1, rest).1;
    assert(all == seq![Action::Finish] + r1);
    assert forall|i: int| 0 <= i <= rest.len() implies #[trigger] all[i] == Action::Finish by {
        if i > 0 {
            assert(all[i] == r1[i - 1]);
        }
    }
}

/// If the ledger source is launched but never becomes ready, no other service is ever
/// launched or awaited and the test never runs: the next action shuts the ledger
/// source down, and every later one shuts it down or finishes.
pub proof fn lemma_ledger_not_ready(test_timeout_ms: u64, m: String, rest: Seq<Event>)
    ensures
        ({
            let r = run_events(
                initial_state(test_timeout_ms),
                seq![Event::Launched, Event::StartFailed(m)] + rest,
            );
            &&& r.1.len() == rest.len() + 2
            &&& r.1[0] == Action::AwaitReady(ServiceKind::Bitcoin)
            &&& r.1[1] == Action::Shutdown(ServiceKind::Bitcoin)
            &&& forall|i: int|
                2 <= i < r.1.len() ==> #[trigger] r.1[i] == Action::Shutdown(ServiceKind::Bitcoin)
                    || r.1[i] == Action::Finish
            &&& r.0.failure == Some(Failure::NotReady { kind: ServiceKind::Bitcoin, message: m })
            &&& !passed_spec(r.0)
        }),
{
    let s0 = initial_state(test_timeout_ms);
    let first = seq![Event::Launched, Event::StartFailed(m)];
    lemma_run_single(s0, Event::Launched);
    let s1 = step_spec(s0, Event::Launched).0;
    lemma_run_snoc(s0, seq![Event::Launched], Event::StartFailed(m));
    assert(seq![Event::Launched].push(Event::StartFailed(m)) =~= first);
    let s2 = step_spec(s1, Event::StartFailed(m)).0;
    lemma_run_append(s0, first, rest);
    lemma_teardown_only_shuts_down(s2, rest);
    let all = run_events(s0, first + rest).1;
    let r2 = run_events(s2, rest).1;
    assert(run_events(s0, first).1 =~= seq![
        Action::AwaitReady(ServiceKind::Bitcoin),
        Action::Shutdown(ServiceKind::Bitcoin),
    ]);
    assert(all == run_events(s0, first).1 + r2);
    assert forall|i: int|
        2 <= i < all.len() implies #[trigger] all[i] == Action::Shutdown(ServiceKind::Bitcoin)
            || all[i] == Action::Finish by {
        assert(all[i] == r2[i - 2]);
    }
}

/// If the test routine fails after all three services are ready, teardown still shuts
/// down all three, validator first, then indexer, then ledger source, whatever each
/// shutdown reports, and the run fails with the test's failure.
pub proof fn lemma_test_failure_tears_down_all(test_timeout_ms: u64, m: String, outcomes: Seq<Event>)
    requires
        outcomes.len() == 3,
        forall|i: int| 0 <= i < 3 ==> is_stop_outcome(#[trigger] outcomes[i]),
    ensures
        ({
            let r = run_events(
                initial_state(test_timeout_ms),
                all_ready_events().push(Event::TestFailed(m)) + outcomes,
            );
            &&& r.1 == seq![
                Action::AwaitReady(ServiceKind::Bitcoin),
                Action::Launch(ServiceKind::Titan),
                Action::AwaitReady(ServiceKind::Titan),
                Action::Launch(ServiceKind::Validator),
                Action::AwaitReady(ServiceKind::Validator),
                Action::RunTest { timeout_ms: test_timeout_ms },
                Action::Shutdown(ServiceKind::Validator),
                Action::Shutdown(ServiceKind::Titan),
                Action::Shutdown(ServiceKind::Bitcoin),
                Action::Finish,
            ]
            &&& r.0.phase == Phase::Done
            &&& r.0.failure == Some(Failure::Test { message: m })
            &&& !passed_spec(r.0)
        }),
{
    let s0 = initial_state(test_timeout_ms);
    let a = all_ready_events().push(Event::TestFailed(m));
    lemma_setup_in_dependency_order(test_timeout_ms);
    lemma_run_snoc(s0, all_ready_events(), Event::TestFailed(m));
    let st = run_events(s0, a).0;
    lemma_run_append(s0, a, outcomes);
    lemma_teardown_order(st, outcomes);
    let r = run_events(s0, a + outcomes);
    assert(r.1 =~= seq![
        Action::AwaitReady(ServiceKind::Bitcoin),
        Action::Launch(ServiceKind::Titan),
        Action::AwaitReady(ServiceKind::Titan),
        Action::Launch(ServiceKind::Validator),
        Action::AwaitReady(ServiceKind::Validator),
        Action::RunTest { timeout_ms: test_timeout_ms },
        Action::Shutdown(ServiceKind::Validator),
        Action::Shutdown(ServiceKind::Titan),
        Action::Shutdown(ServiceKind::Bitcoin),
        Action::Finish,
    ]);
}

/// If the validator's shutdown fails, the indexer's and then the ledger source's
/// shutdowns are still asked for, the failure is collected, and the run fails.
pub proof fn lemma_stop_failure_does_not_stop_teardown(
    s: LifecycleState,
    m: String,
    outcomes: Seq<Event>,
)
    requires
        s.wf(),
        s.phase == Phase::TearingDown,
        s.live == 3,
        outcomes.len() == 2,
        forall|i: int| 0 <= i < 2 ==> is_stop_outcome(#[trigger] outcomes[i]),
    ensures
        pending(s) == Action::Shutdown(ServiceKind::Validator),
        ({
            let r = run_events(s, seq![Event::StopFailed(m)] + outcomes);
            &&& r.1 == seq![
                Action::Shutdown(ServiceKind::Titan),
                Action::Shutdown(ServiceKind::Bitcoin),
                Action::Finish,
            ]
            &&& r.0.teardown_errors[s.teardown_errors.len() as int] == (TeardownError {
                kind: ServiceKind::Validator,
                message: m,
            })
            &&& !passed_spec(r.0)
        }),
{
    let ev = seq![Event::StopFailed(m)] + outcomes;
    assert(ev[0] == Event::StopFailed(m));
    assert forall|i: int| 0 <= i < ev.len() implies is_stop_outcome(#[trigger] ev[i]) by {
        if i > 0 {
            assert(ev[i] == outcomes[i - 1]);
        }
    }
    lemma_teardown_order(s, ev);
    let r = run_events(s, ev);
    assert(r.1 =~= seq![
        Action::Shutdown(ServiceKind::Titan),
        Action::Shutdown(ServiceKind::Bitcoin),
        Action::Finish,
    ]);
    let errs = stop_errors(ev, 3);
    assert(errs[0] == TeardownError { kind: ServiceKind::Validator, message: m });
    assert(r.0.teardown_errors[s.teardown_errors.len() as int] == errs[0]);
}

/// When all three services start and become ready and the test passes, each service
/// is shut down exactly once, in reverse dependency order, and the run passes.
pub proof fn lemma_successful_run(test_timeout_ms: u64)
    ensures
        ({
            let r = run_events(
                initial_state(test_timeout_ms),
                all_ready_events().push(Event::TestPassed) + seq![
                    Event::Stopped,
                    Event::Stopped,
                    Event::Stopped,
                ],
            );
            &&& r.1 == seq![
                Action::AwaitReady(ServiceKind::Bitcoin),
                Action::Launch(ServiceKind::Titan),
                Action::AwaitReady(ServiceKind::Titan),
                Action::Launch(ServiceKind::Validator),
                Action::AwaitReady(ServiceKind::Validator),
                Action::RunTest { timeout_ms: test_timeout_ms },
                Action::Shutdown(ServiceKind::Validator),
                Action::Shutdown(ServiceKind::Titan),
                Action::Shutdown(ServiceKind::Bitcoin),
                Action::Finish,
            ]
            &&& passed_spec(r.0)
        }),
{
    let s0 = initial_state(test_timeout_ms);
    let a = all_ready_events().push(Event::TestPassed);
    let outcomes = seq![Event::Stopped, Event::Stopped, Event::Stopped];
    lemma_setup_in_dependency_order(test_timeout_ms);
    lemma_run_snoc(s0, all_ready_events(), Event::TestPassed);
    let st = run_events(s0, a).0;
    lemma_run_append(s0, a, outcomes);
    lemma_teardown_order(st, outcomes);
    let r = run_events(s0, a + outcomes);
    let rest2 = outcomes.subrange(1, 3);
    let rest3 = rest2.subrange(1, 2);
    assert(rest3.subrange(1, 1) =~= Seq::<Event>::empty());
    assert(rest3[0] == Event::Stopped);
    assert(rest2[0] == Event::Stopped);
    assert(stop_errors(rest3.subrange(1, 1), 0) == Seq::<TeardownError>::empty());
    assert(stop_errors(rest3, 1) == Seq::<TeardownError>::empty());
    assert(stop_errors(rest2, 2) == Seq::<TeardownError>::empty());
    assert(stop_errors(outcomes, 3) == Seq::<TeardownError>::empty());
    assert(r.0.teardown_errors =~= Seq::<TeardownError>::empty());
    assert(r.1 =~= seq![
        Action::AwaitReady(ServiceKind::Bitcoin),
        Action::Launch(ServiceKind::Titan),
        Action::AwaitReady(ServiceKind::Titan),
        Action::Launch(ServiceKind::Validator),
        Action::AwaitReady(ServiceKind::Validator),
        Action::RunTest { timeout_ms: test_timeout_ms },
        Action::Shutdown(ServiceKind::Validator),
        Action::Shutdown(ServiceKind::Titan),
        Action::Shutdown(ServiceKind::Bitcoin),
        Action::Finish,
    ]);
}

} // verus!
