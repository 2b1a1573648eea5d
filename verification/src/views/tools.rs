//! The state behind the tools page: which stress test is selected, how long
//! each test has run and how it ended, and the live monitor plot's clock and
//! sampling.
use vstd::prelude::*;
use crate::clock::{Span, SPAN_MAX_NANOS};
use crate::numtext::{decimal, digit_char, padded2, push_padded2};

verus! {

/// The stress tests that the tools page can run.
#[derive(Clone, Copy, Debug, PartialEq, Eq, Structural)]
pub enum TestKind {
    Cpu,
    Gpu,
    Ram,
    CpuGpu,
}

impl TestKind {
    /// The message key of the test's localized name.
    pub open spec fn spec_label_key(self) -> Seq<char> {
        match self {
            TestKind::Cpu => "tools_cpu_test"@,
            TestKind::Gpu => "tools_gpu_test"@,
            TestKind::Ram => "tools_ram_test"@,
            TestKind::CpuGpu => "tools_cpu_gpu_test"@,
        }
    }

    /// The message key of the test's localized name.
    pub fn label_key(self) -> (r: &'static str)
        ensures
            r@ == self.spec_label_key(),
    {
        match self {
            TestKind::Cpu => "tools_cpu_test",
            TestKind::Gpu => "tools_gpu_test",
            TestKind::Ram => "tools_ram_test",
            TestKind::CpuGpu => "tools_cpu_gpu_test",
        }
    }
}

/// What became of the last request to a stress test.
#[derive(Debug, PartialEq, Eq)]
pub enum TestStatus {
    /// The test was started and is running.
    Running,
    /// The test was stopped.
    Stopped,
    /// A request failed; the text names the request and the error.
    Failed(String),
}

/// The time that a run has accumulated: what it had before its last start,
/// plus the time since that start while it runs (none when `now` lies before
/// the start, as `Instant::elapsed` saturates).
pub open spec fn run_elapsed(before: nat, started_at: Option<Span>, now: nat) -> nat {
    before + match started_at {
        Some(s) => if now >= s@ {
            (now - s@) as nat
        } else {
            0nat
        },
        None => 0nat,
    }
}

/// The accumulated time never goes back as the clock moves on.
pub proof fn lemma_elapsed_monotone(before: nat, started_at: Option<Span>, t1: nat, t2: nat)
    requires
        t1 <= t2,
    ensures
        run_elapsed(before, started_at, t1) <= run_elapsed(before, started_at, t2),
{
}

fn run_elapsed_exec(before: Span, started_at: Option<Span>, now: Span) -> (r: Span)
    requires
        run_elapsed(before@, started_at, now@) <= SPAN_MAX_NANOS,
    ensures
        r@ == run_elapsed(before@, started_at, now@),
{
    match started_at {
        Some(s) => before.add(now.saturating_sub(s)),
        None => before.add(Span::zero()),
    }
}

/// Whether `status` is a failure whose text is `text`.
pub open spec fn failed_with(status: Option<TestStatus>, text: Seq<char>) -> bool {
    match status {
        Some(TestStatus::Failed(m)) => m@ == text,
        _ => false,
    }
}

/// The text of a failed request: the action, a colon, a space and the error.
pub open spec fn failure_text(action: Seq<char>, error: Seq<char>) -> Seq<char> {
    action + ": "@ + error
}

/// The run of one stress test: when it started, the time it had before, and
/// the outcome of the last request.
#[derive(Debug)]
pub struct TestRunState {
    pub started_at: Option<Span>,
    pub elapsed_before_start: Span,
    pub status: Option<TestStatus>,
}

impl TestRunState {
    /// The time the test has run, seen at `now`.
    pub open spec fn elapsed_at(self, now: nat) -> nat {
        run_elapsed(self.elapsed_before_start@, self.started_at, now)
    }

    /// `self` is the state that `mark_started` at `now` leaves.
    pub open spec fn is_started_at(self, now: Span) -> bool {
        &&& self.started_at == Some(now)
        &&& self.elapsed_before_start@ == 0
        &&& self.status == Some(TestStatus::Running)
    }

    /// `self` is the state that `mark_stopped` at `now` leaves from `prev`.
    pub open spec fn is_stopped_from(self, prev: TestRunState, now: nat) -> bool {
        &&& self.started_at is None
        &&& self.elapsed_before_start@ == prev.elapsed_at(now)
        &&& self.status == Some(TestStatus::Stopped)
    }

    /// `self` is `prev` with its status set to the failure `text`.
    pub open spec fn is_failed_from(self, prev: TestRunState, text: Seq<char>) -> bool {
        &&& self.started_at == prev.started_at
        &&& self.elapsed_before_start == prev.elapsed_before_start
        &&& failed_with(self.status, text)
    }

    /// A test that has never run.
    pub fn new() -> (r: TestRunState)
        ensures
            r.started_at is None,
            r.elapsed_before_start@ == 0,
            r.status is None,
    {
        TestRunState { started_at: None, elapsed_before_start: Span::zero(), status: None }
    }

    /// Whether the test is running.
    pub fn is_running(&self) -> (r: bool)
        ensures
            r == self.started_at is Some,
    {
        self.started_at.is_some()
    }

    /// The time the test has run, seen at `now`.
    pub fn elapsed(&self, now: Span) -> (r: Span)
        requires
            self.elapsed_at(now@) <= SPAN_MAX_NANOS,
        ensures
            r@ == self.elapsed_at(now@),
    {
        run_elapsed_exec(self.elapsed_before_start, self.started_at, now)
    }

    /// Records that the test started at `now`; its time counts from zero.
    pub fn mark_started(&mut self, now: Span)
        ensures
            final(self).is_started_at(now),
    {
        self.started_at = Some(now);
        self.elapsed_before_start = Span::zero();
        self.status = Some(TestStatus::Running);
    }

    /// Records that the test stopped at `now`, keeping the time it ran.
    pub fn mark_stopped(&mut self, now: Span)
        requires
            old(self).elapsed_at(now@) <= SPAN_MAX_NANOS,
        ensures
            final(self).is_stopped_from(*old(self), now@),
    {
        self.elapsed_before_start = self.elapsed(now);
        self.started_at = None;
        self.status = Some(TestStatus::Stopped);
    }

    /// Records that the request `action` failed with `error`.
    pub fn mark_failed(&mut self, action: &str, error: String)
        ensures
            final(self).is_failed_from(*old(self), failure_text(action@, error@)),
    {
        proof {
            reveal_strlit(": ");
        }
        let mut text = action.to_owned();
        text.append(": ");
        text.append(error.as_str());
        self.status = Some(TestStatus::Failed(text));
    }
}

impl Default for TestRunState {
    fn default() -> (r: TestRunState)
        ensures
            r.started_at is None,
            r.elapsed_before_start@ == 0,
            r.status is None,
    {
        TestRunState::new()
    }
}

/// A stopped test keeps, at every later moment, the time it had run when it
/// was stopped.
pub proof fn lemma_stopped_time_is_frozen(prev: TestRunState, stopped: TestRunState, now: nat, later: nat)
    requires
        stopped.is_stopped_from(prev, now),
    ensures
        stopped.elapsed_at(later) == prev.elapsed_at(now),
{
}

/// A started test counts its time from zero at the moment it started.
pub proof fn lemma_started_counts_from_zero(started: TestRunState, now: Span, later: nat)
    requires
        started.is_started_at(now),
        later >= now@,
    ensures
        started.elapsed_at(later) == later - now@,
{
}

/// The least time between two samples of the monitor plot: 500 ms.
pub const SAMPLE_INTERVAL_NANOS: u128 = 500_000_000;

/// The span `now - since`, or zero when `since` is later.
pub open spec fn time_since(now: nat, since: nat) -> nat {
    if now >= since {
        (now - since) as nat
    } else {
        0
    }
}

/// The live monitor plot: a clock that can be started, paused and reset,
/// and the samples taken while it runs, at most one per sample interval.
#[derive(Debug)]
pub struct MonitorPlotState<S> {
    pub started_at: Option<Span>,
    pub elapsed_before_start: Span,
    pub samples: Vec<S>,
    pub last_sample_at: Option<Span>,
}

impl<S> MonitorPlotState<S> {
    /// The time the plot's clock shows at `now`.
    pub open spec fn elapsed_at(self, now: nat) -> nat {
        run_elapsed(self.elapsed_before_start@, self.started_at, now)
    }

    /// Whether a sample offered at `now` is taken: the clock runs, and no
    /// sample was taken less than the interval before.
    pub open spec fn sample_due(self, now: nat) -> bool {
        &&& self.started_at is Some
        &&& match self.last_sample_at {
            Some(last) => time_since(now, last@) >= SAMPLE_INTERVAL_NANOS,
            None => true,
        }
    }

    /// `self` is what `start` at `now` leaves from `prev`.
    pub open spec fn is_started_from(self, prev: MonitorPlotState<S>, now: Span) -> bool {
        if prev.started_at is Some {
            self == prev
        } else {
            &&& self.started_at == Some(now)
            &&& self.last_sample_at is None
            &&& self.elapsed_before_start == prev.elapsed_before_start
            &&& self.samples == prev.samples
        }
    }

    /// `self` is what `pause` at `now` leaves from `prev`.
    pub open spec fn is_paused_from(self, prev: MonitorPlotState<S>, now: nat) -> bool {
        if prev.started_at is None {
            self == prev
        } else {
            &&& self.started_at is None
            &&& self.last_sample_at is None
            &&& self.elapsed_before_start@ == prev.elapsed_at(now)
            &&& self.samples == prev.samples
        }
    }

    /// A stopped plot at zero with no samples.
    pub fn new() -> (r: MonitorPlotState<S>)
        ensures
            r.started_at is None,
            r.elapsed_before_start@ == 0,
            r.samples@.len() == 0,
            r.last_sample_at is None,
    {
        MonitorPlotState {
            started_at: None,
            elapsed_before_start: Span::zero(),
            samples: Vec::new(),
            last_sample_at: None,
        }
    }

    /// Whether the plot's clock runs.
    pub fn is_running(&self) -> (r: bool)
        ensures
            r == self.started_at is Some,
    {
        self.started_at.is_some()
    }

    /// The time the plot's clock shows at `now`.
    pub fn elapsed(&self, now: Span) -> (r: Span)
        requires
            self.elapsed_at(now@) <= SPAN_MAX_NANOS,
        ensures
            r@ == self.elapsed_at(now@),
    {
        run_elapsed_exec(self.elapsed_before_start, self.started_at, now)
    }

    /// Starts (or resumes) the clock at `now`; nothing changes if it runs.
    pub fn start(&mut self, now: Span)
        ensures
            final(self).is_started_from(*old(self), now),
    {
        if self.is_running() {
            return;
        }
        self.started_at = Some(now);
        self.last_sample_at = None;
    }

    /// Pauses the clock at `now`, keeping its time; nothing changes if it is
    /// paused.
    pub fn pause(&mut self, now: Span)
        requires
            old(self).elapsed_at(now@) <= SPAN_MAX_NANOS,
        ensures
            final(self).is_paused_from(*old(self), now@),
    {
        if !self.is_running() {
            return;
        }
        self.elapsed_before_start = self.elapsed(now);
        self.started_at = None;
        self.last_sample_at = None;
    }

    /// Stops the clock, sets it to zero and drops every sample.
    pub fn reset(&mut self)
        ensures
            final(self).started_at is None,
            final(self).elapsed_before_start@ == 0,
            final(self).samples@.len() == 0,
            final(self).last_sample_at is None,
    {
        self.started_at = None;
        self.elapsed_before_start = Span::zero();
        self.samples.clear();
        self.last_sample_at = None;
    }

    /// Offers a sample at `now`. When one is due, `now` becomes the time of
    /// the last sample and the reading, if there is one, is appended; when
    /// none is due (the clock is paused, or the last sample is less than the
    /// interval old) nothing changes.
    pub fn sample(&mut self, now: Span, reading: Option<S>)
        ensures
            old(self).sample_due(now@) ==> {
                &&& final(self).last_sample_at == Some(now)
                &&& final(self).started_at == old(self).started_at
                &&& final(self).elapsed_before_start == old(self).elapsed_before_start
                &&& final(self).samples@ == (match reading {
                    Some(s) => old(self).samples@.push(s),
                    None => old(self).samples@,
                })
            },
            !old(self).sample_due(now@) ==> *final(self) == *old(self),
    {
        if !self.is_running() {
            return;
        }
        match self.last_sample_at {
            Some(last) => {
                if now.saturating_sub(last).lt(&Span::from_millis(500)) {
                    return;
                }
            },
            None => {},
        }
        self.last_sample_at = Some(now);
        match reading {
            Some(s) => self.samples.push(s),
            None => {},
        }
    }
}

impl<S> Default for MonitorPlotState<S> {
    fn default() -> (r: MonitorPlotState<S>)
        ensures
            r.started_at is None,
            r.elapsed_before_start@ == 0,
            r.samples@.len() == 0,
            r.last_sample_at is None,
    {
        MonitorPlotState::new()
    }
}

/// Pausing and starting again resumes the clock: it goes on from the time it
/// showed when paused.
pub proof fn lemma_pause_then_start_resumes<S>(
    running: MonitorPlotState<S>,
    paused: MonitorPlotState<S>,
    resumed: MonitorPlotState<S>,
    pause_at: nat,
    start_at: Span,
    later: nat,
)
    requires
        running.started_at is Some,
        paused.is_paused_from(running, pause_at),
        resumed.is_started_from(paused, start_at),
        later >= start_at@,
    ensures
        resumed.elapsed_at(later) == running.elapsed_at(pause_at) + (later - start_at@),
{
}

/// After a sample is taken at `at`, no sample is taken before the interval
/// has passed.
pub proof fn lemma_samples_are_spaced<S>(plot: MonitorPlotState<S>, at: Span, later: nat)
    requires
        plot.last_sample_at == Some(at),
        at@ <= later < at@ + SAMPLE_INTERVAL_NANOS,
    ensures
        !plot.sample_due(later),
{
}

/// While the clock runs, a sample is taken whenever none was taken before
/// or the last one is at least the interval old, however long ago that is.
pub proof fn lemma_running_plot_samples_after_interval<S>(plot: MonitorPlotState<S>, now: nat)
    requires
        plot.started_at is Some,
        match plot.last_sample_at {
            Some(last) => now >= last@ + 500_000_000,
            None => true,
        },
    ensures
        plot.sample_due(now),
{
}

/// While the clock is paused, offering samples changes nothing.
pub proof fn lemma_paused_plot_takes_no_sample<S>(plot: MonitorPlotState<S>, now: nat)
    requires
        plot.started_at is None,
    ensures
        !plot.sample_due(now),
{
}

/// The selection after the button of `kind` is pressed: pressing the
/// selected test's button clears the selection, any other selects it.
pub open spec fn toggled(selected: Option<TestKind>, kind: TestKind) -> Option<TestKind> {
    if selected == Some(kind) {
        None
    } else {
        Some(kind)
    }
}

/// Pressing the same test's button twice restores the selection, when that
/// selection was empty or that very test.
pub proof fn lemma_toggle_twice_restores(selected: Option<TestKind>, kind: TestKind)
    requires
        selected is None || selected == Some(kind),
    ensures
        toggled(toggled(selected, kind), kind) == selected,
{
}

/// Pressing a test's button selects that test unless it is the selected
/// one, which pressing clears.
pub proof fn lemma_toggle_selects_or_clears(selected: Option<TestKind>, kind: TestKind)
    ensures
        selected is None ==> toggled(selected, kind) == Some(kind),
        forall|other: TestKind|
            other != kind && selected == Some(other) ==> toggled(selected, kind) == Some(kind),
        selected == Some(kind) ==> toggled(selected, kind) is None,
{
}

/// The tools page's state: the selected stress test, the run of each test,
/// and the monitor plot.
#[derive(Debug)]
pub struct ToolsState<S> {
    pub selected_stress_test: Option<TestKind>,
    pub cpu_test: TestRunState,
    pub gpu_test: TestRunState,
    pub ram_test: TestRunState,
    pub cpu_gpu_test: TestRunState,
    pub monitor_plot: MonitorPlotState<S>,
}

impl<S> ToolsState<S> {
    /// The run of the test `kind`.
    pub open spec fn run_of(self, kind: TestKind) -> TestRunState {
        match kind {
            TestKind::Cpu => self.cpu_test,
            TestKind::Gpu => self.gpu_test,
            TestKind::Ram => self.ram_test,
            TestKind::CpuGpu => self.cpu_gpu_test,
        }
    }

    /// `self` equals `prev` but for the run of `kind`.
    pub open spec fn same_except(self, prev: ToolsState<S>, kind: TestKind) -> bool {
        &&& self.selected_stress_test == prev.selected_stress_test
        &&& self.monitor_plot == prev.monitor_plot
        &&& forall|k: TestKind| k != kind ==> #[trigger] self.run_of(k) == prev.run_of(k)
    }

    /// Nothing selected, no test ever run, the plot stopped at zero.
    pub fn new() -> (r: ToolsState<S>)
        ensures
            r.selected_stress_test is None,
            forall|k: TestKind| #[trigger] r.run_of(k).started_at is None,
            forall|k: TestKind| #[trigger] r.run_of(k).elapsed_before_start@ == 0,
            forall|k: TestKind| #[trigger] r.run_of(k).status is None,
            r.monitor_plot.started_at is None,
            r.monitor_plot.elapsed_before_start@ == 0,
            r.monitor_plot.samples@.len() == 0,
            r.monitor_plot.last_sample_at is None,
    {
        ToolsState {
            selected_stress_test: None,
            cpu_test: TestRunState::new(),
            gpu_test: TestRunState::new(),
            ram_test: TestRunState::new(),
            cpu_gpu_test: TestRunState::new(),
            monitor_plot: MonitorPlotState::new(),
        }
    }

    /// Presses the button of the test `kind`: selects it, or clears the
    /// selection when it was selected.
    pub fn toggle_stress_test(&mut self, kind: TestKind)
        ensures
            final(self).selected_stress_test == toggled(old(self).selected_stress_test, kind),
            final(self).cpu_test == old(self).cpu_test,
            final(self).gpu_test == old(self).gpu_test,
            final(self).ram_test == old(self).ram_test,
            final(self).cpu_gpu_test == old(self).cpu_gpu_test,
            final(self).monitor_plot == old(self).monitor_plot,
    {
        let selected = match self.selected_stress_test {
            Some(current) => current == kind,
            None => false,
        };
        self.selected_stress_test = if selected {
            None
        } else {
            Some(kind)
        };
    }

    /// The run of the test `kind`.
    pub fn test_state(&self, kind: TestKind) -> (r: &TestRunState)
        ensures
            *r == self.run_of(kind),
    {
        match kind {
            TestKind::Cpu => &self.cpu_test,
            TestKind::Gpu => &self.gpu_test,
            TestKind::Ram => &self.ram_test,
            TestKind::CpuGpu => &self.cpu_gpu_test,
        }
    }

    /// Whether the start and the stop button of the test `kind` are enabled:
    /// start when the test is available and not running, stop when it is
    /// available and running.
    pub fn stress_test_buttons(&self, kind: TestKind, available: bool) -> (r: (bool, bool))
        ensures
            r.0 == (available && self.run_of(kind).started_at is None),
            r.1 == (available && self.run_of(kind).started_at is Some),
    {
        let running = self.test_state(kind).is_running();
        (available && !running, available && running)
    }

    /// Records the outcome of a request to start the test `kind` at `now`:
    /// on success the test counts as started; on failure its status names
    /// `failed_action` and the error.
    pub fn record_start(&mut self, kind: TestKind, now: Span, outcome: Result<(), String>, failed_action: &str)
        ensures
            final(self).same_except(*old(self), kind),
            match outcome {
                Ok(()) => final(self).run_of(kind).is_started_at(now),
                Err(e) => final(self).run_of(kind).is_failed_from(
                    old(self).run_of(kind),
                    failure_text(failed_action@, e@),
                ),
            },
    {
        match kind {
            TestKind::Cpu => apply_start(&mut self.cpu_test, now, outcome, failed_action),
            TestKind::Gpu => apply_start(&mut self.gpu_test, now, outcome, failed_action),
            TestKind::Ram => apply_start(&mut self.ram_test, now, outcome, failed_action),
            TestKind::CpuGpu => apply_start(&mut self.cpu_gpu_test, now, outcome, failed_action),
        }
    }

    /// Records the outcome of a request to stop the test `kind` at `now`:
    /// the test counts as stopped either way, keeping its time; on failure
    /// its status then names `failed_action` and the error.
    pub fn record_stop(&mut self, kind: TestKind, now: Span, outcome: Result<(), String>, failed_action: &str)
        requires
            old(self).run_of(kind).elapsed_at(now@) <= SPAN_MAX_NANOS,
        ensures
            final(self).same_except(*old(self), kind),
            final(self).run_of(kind).started_at is None,
            final(self).run_of(kind).elapsed_before_start@ == old(self).run_of(kind).elapsed_at(now@),
            match outcome {
                Ok(()) => final(self).run_of(kind).status == Some(TestStatus::Stopped),
                Err(e) => failed_with(final(self).run_of(kind).status, failure_text(failed_action@, e@)),
            },
    {
        match kind {
            TestKind::Cpu => apply_stop(&mut self.cpu_test, now, outcome, failed_action),
            TestKind::Gpu => apply_stop(&mut self.gpu_test, now, outcome, failed_action),
            TestKind::Ram => apply_stop(&mut self.ram_test, now, outcome, failed_action),
            TestKind::CpuGpu => apply_stop(&mut self.cpu_gpu_test, now, outcome, failed_action),
        }
    }
}

impl<S> Default for ToolsState<S> {
    fn default() -> (r: ToolsState<S>)
        ensures
            r.selected_stress_test is None,
            forall|k: TestKind| #[trigger] r.run_of(k).started_at is None,
            forall|k: TestKind| #[trigger] r.run_of(k).elapsed_before_start@ == 0,
            forall|k: TestKind| #[trigger] r.run_of(k).status is None,
            r.monitor_plot.started_at is None,
            r.monitor_plot.elapsed_before_start@ == 0,
            r.monitor_plot.samples@.len() == 0,
            r.monitor_plot.last_sample_at is None,
    {
        ToolsState::new()
    }
}

fn apply_start(run: &mut TestRunState, now: Span, outcome: Result<(), String>, failed_action: &str)
    ensures
        match outcome {
            Ok(()) => final(run).is_started_at(now),
            Err(e) => final(run).is_failed_from(*old(run), failure_text(failed_action@, e@)),
        },
{
    match outcome {
        Ok(()) => run.mark_started(now),
        Err(error) => run.mark_failed(failed_action, error),
    }
}

fn apply_stop(run: &mut TestRunState, now: Span, outcome: Result<(), String>, failed_action: &str)
    requires
        old(run).elapsed_at(now@) <= SPAN_MAX_NANOS,
    ensures
        final(run).started_at is None,
        final(run).elapsed_before_start@ == old(run).elapsed_at(now@),
        match outcome {
            Ok(()) => final(run).status == Some(TestStatus::Stopped),
            Err(e) => failed_with(final(run).status, failure_text(failed_action@, e@)),
        },
{
    run.mark_stopped(now);
    match outcome {
        Ok(()) => {},
        Err(error) => run.mark_failed(failed_action, error),
    }
}

/// The text of a span as hours, minutes and seconds, `"HH:MM:SS"`; the hours
/// take more digits past 99.
pub open spec fn clock_text(total_secs: nat) -> Seq<char> {
    padded2(total_secs / 3600) + seq![':'] + padded2((total_secs % 3600) / 60) + seq![':']
        + padded2(total_secs % 60)
}

/// The hours, minutes and seconds that `clock_text` writes make up the whole
/// number of seconds, and minutes and seconds stay below sixty.
pub proof fn lemma_clock_fields_recompose(total_secs: nat)
    ensures
        (total_secs / 3600) * 3600 + ((total_secs % 3600) / 60) * 60 + total_secs % 60 == total_secs,
        (total_secs % 3600) / 60 < 60,
        total_secs % 60 < 60,
{
}

/// A number below 100 padded to two digits is its tens digit then its ones
/// digit.
pub proof fn lemma_padded2_two_digits(n: nat)
    requires
        n < 100,
    ensures
        padded2(n) == seq![digit_char(n / 10), digit_char(n % 10)],
{
    if n < 10 {
        assert(decimal(n) == seq![digit_char(n)]);
        assert(padded2(n) =~= seq![digit_char(n / 10), digit_char(n % 10)]);
    } else {
        assert(decimal(n / 10) == seq![digit_char(n / 10)]);
        assert(decimal(n) == decimal(n / 10).push(digit_char(n % 10)));
        assert(padded2(n) =~= seq![digit_char(n / 10), digit_char(n % 10)]);
    }
}

/// The clock text ends in two digits of minutes and two of seconds, each
/// after a colon, and starts with the hours: two digits (with a leading
/// zero) below 100 hours, all of their digits from there on.
pub proof fn lemma_clock_text_layout(total_secs: nat)
    ensures
        ({
            let text = clock_text(total_secs);
            let hours = total_secs / 3600;
            let minutes = (total_secs % 3600) / 60;
            let seconds = total_secs % 60;
            let n = text.len() as int;
            &&& n >= 8
            &&& text[n - 6] == ':'
            &&& text[n - 5] == digit_char(minutes / 10)
            &&& text[n - 4] == digit_char(minutes % 10)
            &&& text[n - 3] == ':'
            &&& text[n - 2] == digit_char(seconds / 10)
            &&& text[n - 1] == digit_char(seconds % 10)
            &&& hours < 100 ==> text.subrange(0, n - 6) == seq![
                digit_char(hours / 10),
                digit_char(hours % 10),
            ]
            &&& hours >= 10 ==> text.subrange(0, n - 6) == decimal(hours)
        }),
{
    let hours = total_secs / 3600;
    let minutes = (total_secs % 3600) / 60;
    let seconds = total_secs % 60;
    lemma_padded2_two_digits(minutes);
    lemma_padded2_two_digits(seconds);
    lemma_decimal_at_least_one_digit(hours);
    if hours < 100 {
        lemma_padded2_two_digits(hours);
    }
    let text = clock_text(total_secs);
    let head = padded2(hours);
    assert(head.len() >= 2);
    let tail = seq![':'] + padded2(minutes) + seq![':'] + padded2(seconds);
    assert(text =~= head + tail);
    assert(text.subrange(0, text.len() - 6) =~= head);
}

proof fn lemma_decimal_at_least_one_digit(n: nat)
    ensures
        decimal(n).len() >= 1,
        n >= 10 ==> decimal(n).len() >= 2,
    decreases n,
{
    if n >= 10 {
        lemma_decimal_at_least_one_digit(n / 10);
    }
}

/// A span as `"HH:MM:SS"`, counting whole seconds.
pub fn format_duration(duration: Span) -> (r: String)
    ensures
        r@ == clock_text(duration@ / 1_000_000_000),
{
    proof {
        reveal_strlit(":");
    }
    let total_secs = duration.as_secs();
    let hours = total_secs / 3600;
    let minutes = (total_secs % 3600) / 60;
    let seconds = total_secs % 60;
    let mut out = String::new();
    push_padded2(&mut out, hours as u128);
    out.append(":");
    push_padded2(&mut out, minutes as u128);
    out.append(":");
    push_padded2(&mut out, seconds as u128);
    proof {
        assert(out@ =~= clock_text(duration@ / 1_000_000_000));
    }
    out
}

} // verus!
