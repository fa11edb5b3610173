//! The order in which the process starts up, serves and shuts down.
//!
//! The library decides what is done next; the program around it does it and
//! reports back how it went.

use vstd::prelude::*;

verus! {

/// One thing for the program to do.
#[derive(Debug, Clone, Copy, PartialEq, Eq, Structural)]
pub enum Action {
    /// Build the resource that describes the process.
    BuildResource,
    /// Derive the exporter configurations of the two pipelines.
    ConfigureExporters,
    /// Register the trace-context propagator as the process-wide default.
    RegisterPropagator,
    /// Build the batching trace pipeline.
    InstallTracePipeline,
    /// Build the batching metrics pipeline.
    InstallMetricsPipeline,
    /// Publish both providers as the process-wide ones.
    PublishProviders,
    /// Obtain the tracer and the request counter from the providers.
    CreateInstruments,
    /// Bind the listening socket.
    Bind,
    /// Accept connections until shutdown is signalled.
    Serve,
    /// Stop accepting connections and let the requests in flight finish.
    Drain,
    /// Flush and close the tracer provider.
    ShutdownTracer,
    /// Flush and close the meter provider.
    ShutdownMeter,
    /// Leave the process with this exit code.
    Exit { code: i32 },
}

/// How an action went.
#[derive(Debug, Clone, Copy, PartialEq, Eq, Structural)]
pub enum Report {
    Done,
    Failed,
}

/// The state of the lifecycle as plain values.
pub struct LifecycleState {
    /// The action that is to be done now.
    pub pending: Action,
    /// Whether everything so far reported `Done`.
    pub clean: bool,
}

/// The actions of a run in which nothing fails, in order; `Exit` follows.
pub open spec fn order() -> Seq<Action> {
    seq![
        Action::BuildResource,
        Action::ConfigureExporters,
        Action::RegisterPropagator,
        Action::InstallTracePipeline,
        Action::InstallMetricsPipeline,
        Action::PublishProviders,
        Action::CreateInstruments,
        Action::Bind,
        Action::Serve,
        Action::Drain,
        Action::ShutdownTracer,
        Action::ShutdownMeter,
    ]
}

/// Place of `Serve` in `order()`. A failure at or before it is fatal.
pub open spec fn serve_rank() -> int {
    8
}

/// Place of an action in `order()`; `Exit` comes after all of them.
pub open spec fn rank(action: Action) -> int {
    match action {
        Action::BuildResource => 0,
        Action::ConfigureExporters => 1,
        Action::RegisterPropagator => 2,
        Action::InstallTracePipeline => 3,
        Action::InstallMetricsPipeline => 4,
        Action::PublishProviders => 5,
        Action::CreateInstruments => 6,
        Action::Bind => 7,
        Action::Serve => 8,
        Action::Drain => 9,
        Action::ShutdownTracer => 10,
        Action::ShutdownMeter => 11,
        Action::Exit { .. } => 12,
    }
}

/// The state before anything was done.
pub open spec fn initial() -> LifecycleState {
    LifecycleState { pending: order()[0], clean: true }
}

/// The state after the pending action was reported.
///
/// Up to and including `Serve` a failure ends the run at once with exit code
/// 1. The shutdown steps after it follow one another whatever they report;
/// the exit code is 0 if all of them reported `Done`, and 1 otherwise. After
/// `Exit` nothing changes.
pub open spec fn step(state: LifecycleState, report: Report) -> LifecycleState {
    let place = rank(state.pending);
    let clean = state.clean && report == Report::Done;
    if state.pending is Exit {
        state
    } else if place <= serve_rank() && report == Report::Failed {
        LifecycleState { pending: Action::Exit { code: 1 }, clean: false }
    } else if place + 1 < order().len() {
        LifecycleState { pending: order()[place + 1], clean }
    } else {
        LifecycleState { pending: Action::Exit { code: if clean { 0 } else { 1 } }, clean }
    }
}

/// The state after these reports came in, in this order, from the start.
pub open spec fn state_after(reports: Seq<Report>) -> LifecycleState
    decreases reports.len(),
{
    if reports.len() == 0 {
        initial()
    } else {
        step(state_after(reports.drop_last()), reports.last())
    }
}

/// Whether the first `count` reports exist and are all `Done`.
pub open spec fn all_done(reports: Seq<Report>, count: int) -> bool {
    count <= reports.len() && forall|i: int| 0 <= i < count ==> reports[i] == Report::Done
}

/// The lifecycle of one process. Its state is always the one that the
/// reports received so far lead to from the start.
pub struct Lifecycle {
    pending: Action,
    clean: bool,
    history: Ghost<Seq<Report>>,
}

impl View for Lifecycle {
    type V = LifecycleState;

    closed spec fn view(&self) -> LifecycleState {
        LifecycleState { pending: self.pending, clean: self.clean }
    }
}

impl Lifecycle {
    /// The reports received so far.
    pub closed spec fn history(&self) -> Seq<Report> {
        self.history@
    }

    #[verifier::type_invariant]
    spec fn follows_history(self) -> bool {
        self@ == state_after(self.history())
    }

    /// A lifecycle at its start: nothing reported, the first action pending.
    pub fn new() -> (lifecycle: Lifecycle)
        ensures
            lifecycle.history() == Seq::<Report>::empty(),
            lifecycle@ == initial(),
    {
        Lifecycle { pending: Action::BuildResource, clean: true, history: Ghost(Seq::empty()) }
    }

    /// The action that is to be done now: the one that the reports received
    /// so far lead to.
    pub fn pending(&self) -> (action: Action)
        ensures
            action == self@.pending,
            action == state_after(self.history()).pending,
    {
        proof {
            use_type_invariant(self);
        }
        self.pending
    }

    /// Whether the run is over.
    pub fn finished(&self) -> (over: bool)
        ensures
            over == (self@.pending is Exit),
            over == (state_after(self.history()).pending is Exit),
    {
        proof {
            use_type_invariant(self);
        }
        match self.pending {
            Action::Exit { .. } => true,
            _ => false,
        }
    }

    /// Takes the report on the pending action and returns the action that is
    /// to be done next.
    pub fn advance(&mut self, report: Report) -> (next: Action)
        ensures
            final(self).history() == old(self).history().push(report),
            final(self)@ == step(old(self)@, report),
            final(self)@ == state_after(final(self).history()),
            next == final(self)@.pending,
    {
        proof {
            use_type_invariant(&*self);
        }
        let failed = match report {
            Report::Done => false,
            Report::Failed => true,
        };
        let clean = self.clean && !failed;
        let (next, clean) = match self.pending {
            Action::Exit { code } => (Action::Exit { code }, self.clean),
            Action::Drain => (Action::ShutdownTracer, clean),
            Action::ShutdownTracer => (Action::ShutdownMeter, clean),
            Action::ShutdownMeter => (Action::Exit { code: if clean { 0 } else { 1 } }, clean),
            _ if failed => (Action::Exit { code: 1 }, false),
            Action::BuildResource => (Action::ConfigureExporters, clean),
            Action::ConfigureExporters => (Action::RegisterPropagator, clean),
            Action::RegisterPropagator => (Action::InstallTracePipeline, clean),
            Action::InstallTracePipeline => (Action::InstallMetricsPipeline, clean),
            Action::InstallMetricsPipeline => (Action::PublishProviders, clean),
            Action::PublishProviders => (Action::CreateInstruments, clean),
            Action::CreateInstruments => (Action::Bind, clean),
            Action::Bind => (Action::Serve, clean),
            Action::Serve => (Action::Drain, clean),
        };
        let ghost now = self.history@.push(report);
        proof {
            assert(now.drop_last() =~= self.history@);
            assert(now.last() == report);
        }
        *self = Lifecycle { pending: next, clean, history: Ghost(now) };
        next
    }
}

/// Where a run stands after any reports at all.
///
/// While no `Exit` is pending, every report so far counts: the pending action
/// is the one at that place of `order()`, everything through `Serve` reported
/// `Done`, and `clean` says whether the shutdown steps did too. Once `Exit`
/// is pending, either an action at or before `Serve` failed after all before
/// it were done, and the code is 1; or all twelve actions were gone through,
/// and the code is 0 exactly if all of them reported `Done`.
pub proof fn lemma_state_after(reports: Seq<Report>)
    ensures
        !(state_after(reports).pending is Exit) ==> {
            &&& reports.len() < order().len()
            &&& state_after(reports).pending == order()[reports.len() as int]
            &&& all_done(
                reports,
                if reports.len() <= serve_rank() { reports.len() as int } else { serve_rank() + 1 },
            )
            &&& state_after(reports).clean == all_done(reports, reports.len() as int)
        },
        state_after(reports).pending matches Action::Exit { code } ==> {
            ||| {
                &&& code == 1
                &&& exists|k: int|
                    0 <= k <= serve_rank() && k < reports.len() && all_done(reports, k)
                        && #[trigger] reports[k] == Report::Failed
            }
            ||| {
                &&& reports.len() >= order().len()
                &&& all_done(reports, serve_rank() + 1)
                &&& code == if all_done(reports, order().len() as int) { 0i32 } else { 1i32 }
            }
        },
    decreases reports.len(),
{
    if reports.len() > 0 {
        let before = reports.drop_last();
        let last = reports.last();
        lemma_state_after(before);
        let s = state_after(before);
        let n = before.len() as int;
        assert forall|c: int| 0 <= c <= n implies all_done(before, c) == all_done(reports, c) by {
            if all_done(before, c) {
                assert forall|i: int| 0 <= i < c implies reports[i] == Report::Done by {
                    assert(reports[i] == before[i]);
                }
            }
            if all_done(reports, c) {
                assert forall|i: int| 0 <= i < c implies before[i] == Report::Done by {
                    assert(reports[i] == before[i]);
                }
            }
        }
        assert(all_done(reports, n + 1) == (all_done(before, n) && last == Report::Done)) by {
            if all_done(before, n) && last == Report::Done {
                assert forall|i: int| 0 <= i < n + 1 implies reports[i] == Report::Done by {
                    if i < n {
                        assert(reports[i] == before[i]);
                    }
                }
            }
            if all_done(reports, n + 1) {
                assert(reports[n] == Report::Done);
                assert(all_done(reports, n));
            }
        }
        match s.pending {
            Action::Exit { code } => {
                if code == 1 && exists|k: int|
                    0 <= k <= serve_rank() && k < before.len() && all_done(before, k)
                        && #[trigger] before[k] == Report::Failed {
                    let k = choose|k: int|
                        0 <= k <= serve_rank() && k < before.len() && all_done(before, k)
                            && #[trigger] before[k] == Report::Failed;
                    assert(reports[k] == before[k]);
                } else {
                    assert(all_done(before, 9) == all_done(reports, 9));
                    assert(all_done(before, 12) == all_done(reports, 12));
                }
            },
            _ => {
                assert(s.pending == order()[n]);
                assert(rank(s.pending) == n);
                if n <= serve_rank() && last == Report::Failed {
                    assert(reports[n] == Report::Failed);
                    assert(all_done(reports, n));
                } else if n + 1 < order().len() {
                    if n + 1 <= 9 {
                        assert(all_done(reports, n + 1));
                    }
                } else {
                    assert(n == 11);
                    assert(all_done(reports, 9));
                }
            },
        }
    }
}

/// If anything at or before binding the listener fails (the resource, an
/// exporter configuration, a pipeline, the instruments, the bind itself),
/// the listener never accepts a connection: `Serve` is pending at no point of
/// the run, and once the failure is reported the run is over with exit
/// code 1. If the failure comes before the bind, the listener is not even
/// bound.
pub proof fn lemma_failed_startup_never_serves(reports: Seq<Report>, failed: int)
    requires
        0 <= failed < reports.len(),
        failed < serve_rank(),
        reports[failed] == Report::Failed,
    ensures
        forall|j: int|
            0 <= j <= reports.len() ==> #[trigger] state_after(reports.take(j)).pending
                != Action::Serve,
        failed < rank(Action::Bind) ==> forall|j: int|
            0 <= j <= reports.len() ==> #[trigger] state_after(reports.take(j)).pending
                != Action::Bind,
        state_after(reports).pending == (Action::Exit { code: 1 }),
{
    assert forall|j: int| 0 <= j <= reports.len() implies {
        &&& #[trigger] state_after(reports.take(j)).pending != Action::Serve
        &&& failed < rank(Action::Bind) ==> state_after(reports.take(j)).pending != Action::Bind
    } by {
        let prefix = reports.take(j);
        lemma_state_after(prefix);
        if state_after(prefix).pending == Action::Serve {
            assert(j == serve_rank());
            assert(all_done(prefix, 8));
            assert(prefix[failed] == reports[failed]);
        }
        if failed < rank(Action::Bind) && state_after(prefix).pending == Action::Bind {
            assert(j == rank(Action::Bind));
            assert(all_done(prefix, 7));
            assert(prefix[failed] == reports[failed]);
        }
    }
    lemma_state_after(reports);
    let s = state_after(reports);
    if !(s.pending is Exit) {
        assert(reports[failed] == Report::Done);
    } else {
        if all_done(reports, 9) {
            assert(reports[failed] == Report::Done);
        }
    }
}

/// A run that ends with exit code 0 went through every action in order, and
/// each reported `Done`: the listener served only after the whole startup,
/// stopped accepting and drained before the tracer provider was flushed, the
/// meter provider was closed after that, and only then the process left.
pub proof fn lemma_clean_exit_order(reports: Seq<Report>)
    requires
        state_after(reports).pending == (Action::Exit { code: 0 }),
    ensures
        reports.len() >= order().len(),
        all_done(reports, order().len() as int),
        forall|j: int|
            0 <= j < order().len() ==> #[trigger] state_after(reports.take(j)).pending
                == order()[j],
{
    lemma_state_after(reports);
    assert(all_done(reports, 12));
    assert forall|j: int| 0 <= j < order().len() implies #[trigger] state_after(
        reports.take(j),
    ).pending == order()[j] by {
        let prefix = reports.take(j);
        lemma_state_after(prefix);
        if state_after(prefix).pending is Exit {
            if exists|k: int|
                0 <= k <= serve_rank() && k < prefix.len() && all_done(prefix, k)
                    && #[trigger] prefix[k] == Report::Failed {
                let k = choose|k: int|
                    0 <= k <= serve_rank() && k < prefix.len() && all_done(prefix, k)
                        && #[trigger] prefix[k] == Report::Failed;
                assert(prefix[k] == reports[k]);
            }
        }
    }
}

/// Once shutdown has begun the listener does not come back: with `Drain` or
/// anything after it pending, neither `Bind` nor `Serve` is pending again.
pub proof fn lemma_no_serving_after_shutdown(reports: Seq<Report>, earlier: int)
    requires
        0 <= earlier <= reports.len(),
        rank(state_after(reports.take(earlier)).pending) > serve_rank(),
    ensures
        rank(state_after(reports).pending) > serve_rank(),
{
    lemma_state_after(reports.take(earlier));
    lemma_state_after(reports);
    let early = state_after(reports.take(earlier));
    let late = state_after(reports);
    if !(late.pending is Exit) {
        assert(late.pending == order()[reports.len() as int]);
        if early.pending is Exit {
            if exists|k: int|
                0 <= k <= serve_rank() && k < reports.take(earlier).len() && all_done(
                    reports.take(earlier),
                    k,
                ) && #[trigger] reports.take(earlier)[k] == Report::Failed {
                let k = choose|k: int|
                    0 <= k <= serve_rank() && k < reports.take(earlier).len() && all_done(
                        reports.take(earlier),
                        k,
                    ) && #[trigger] reports.take(earlier)[k] == Report::Failed;
                assert(reports.take(earlier)[k] == reports[k]);
                assert(reports[k] == Report::Done);
            }
        } else {
            assert(early.pending == order()[earlier]);
        }
    }
}

/// Nothing is done twice: the same action is pending at two points of a run
/// only when that action is `Exit`. In particular each pipeline is installed
/// once and the providers are published once.
pub proof fn lemma_each_action_once(reports: Seq<Report>, earlier: int, later: int)
    requires
        0 <= earlier < later <= reports.len(),
        state_after(reports.take(earlier)).pending == state_after(reports.take(later)).pending,
    ensures
        state_after(reports.take(later)).pending is Exit,
{
    lemma_state_after(reports.take(earlier));
    lemma_state_after(reports.take(later));
}

} // verus!
