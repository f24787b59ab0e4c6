use vstd::prelude::*;
use crate::app::{at_rest, phase_after_trace, Measurement, RunNotice, TestUpdate};
use crate::settings::{Settings, BYTES_PER_MB};
use crate::speedtest::download::{DownloadProgress, DownloadResult};
use crate::speedtest::ping::{PingProgress, PingResult, PING_COUNT_LIMIT};
use crate::speedtest::upload::{UploadProgress, UploadResult};
use crate::speedtest::TestPhase;

verus! {

/// Number of updates that the queue to the consumer, and the one from each
/// probe, holds before the sender has to wait.
pub const EVENT_QUEUE_CAPACITY: usize = 32;

/// The probe to start for a stage, with what it is given.
#[derive(Debug, Clone, Copy, PartialEq, Eq, Structural)]
pub enum ProbeSpec {
    Ping { count: usize },
    Download { bytes: u64 },
    Upload { len: usize },
}

/// What the active probe has to say: progress, while it runs, and at its
/// end either its summary or that it failed.
#[derive(Debug, Clone)]
pub enum ProbeEvent {
    PingProgress(PingProgress),
    DownloadProgress(DownloadProgress),
    UploadProgress(UploadProgress),
    PingFinished(PingResult),
    DownloadFinished(DownloadResult),
    UploadFinished(UploadResult),
    Failed,
}

/// What is to be done after an event.
#[derive(Debug, Clone)]
pub enum RunAction {
    /// Hand the update to the consumer and read on from the active probe.
    Forward(TestUpdate),
    /// Hand the update to the consumer, then start the probe of the next
    /// stage.
    Advance(TestUpdate, ProbeSpec),
    /// Hand the update to the consumer; the run is complete.
    Finish(TestUpdate),
    /// The cancellation signal was seen: end the active probe at once and
    /// hand on nothing more.
    Abort,
    /// The active probe failed: the run ends here, and the consumer is sent
    /// word that it failed.
    Fail,
    /// The event does not come from a probe that is active: drop it.
    Ignore,
}

/// The update that an action hands to the consumer, if it hands on one.
pub open spec fn emitted(action: RunAction) -> Option<TestUpdate> {
    match action {
        RunAction::Forward(update) => Some(update),
        RunAction::Advance(update, _) => Some(update),
        RunAction::Finish(update) => Some(update),
        _ => None,
    }
}

/// What an action sends to the consumer: the update that it hands on, word
/// of the failure where the run has failed, nothing otherwise.
pub open spec fn notice_of(action: RunAction) -> Option<RunNotice> {
    match action {
        RunAction::Forward(update) => Some(RunNotice::Update(update)),
        RunAction::Advance(update, _) => Some(RunNotice::Update(update)),
        RunAction::Finish(update) => Some(RunNotice::Update(update)),
        RunAction::Fail => Some(RunNotice::Failed),
        _ => None,
    }
}

/// The probe that an action asks to start, if it asks for one.
pub open spec fn next_probe(action: RunAction) -> Option<ProbeSpec> {
    match action {
        RunAction::Advance(_, probe) => Some(probe),
        _ => None,
    }
}

impl RunAction {
    /// Whether the action asks to end the active probe at once.
    pub fn is_abort(&self) -> (b: bool)
        ensures
            b == (*self == RunAction::Abort),
    {
        match self {
            RunAction::Abort => true,
            _ => false,
        }
    }

    /// Takes the action apart into what goes to the consumer and the probe
    /// to start next.
    pub fn into_parts(self) -> (parts: (Option<RunNotice>, Option<ProbeSpec>))
        ensures
            parts.0 == notice_of(self),
            parts.1 == next_probe(self),
    {
        match self {
            RunAction::Forward(update) => (Some(RunNotice::Update(update)), None),
            RunAction::Advance(update, probe) => (Some(RunNotice::Update(update)), Some(probe)),
            RunAction::Finish(update) => (Some(RunNotice::Update(update)), None),
            RunAction::Fail => (Some(RunNotice::Failed), None),
            RunAction::Abort => (None, None),
            RunAction::Ignore => (None, None),
        }
    }
}

/// A measurement run: the three stages in their fixed order, one probe
/// active at a time. It decides; the caller starts and ends the probes and
/// moves the events.
#[derive(Debug, Clone, Copy, PartialEq, Eq, Structural)]
pub struct SpeedTestRun {
    pub phase: TestPhase,
    pub settings: Settings,
}

impl SpeedTestRun {
    /// Whether a run can be made with `settings`: the payload sizes in bytes
    /// and the number of probes fit the machine's integers. Settings within
    /// their bounds do.
    pub open spec fn runnable(settings: Settings) -> bool {
        &&& settings.ping_count <= PING_COUNT_LIMIT
        &&& settings.download_size_mb * BYTES_PER_MB <= u64::MAX
        &&& settings.upload_size_mb * BYTES_PER_MB <= usize::MAX
    }

    /// The probe of a stage, for the settings of this run.
    pub open spec fn probe_for(self, phase: TestPhase) -> ProbeSpec {
        match phase {
            TestPhase::Download => ProbeSpec::Download {
                bytes: (self.settings.download_size_mb * BYTES_PER_MB) as u64,
            },
            TestPhase::Upload => ProbeSpec::Upload {
                len: (self.settings.upload_size_mb * BYTES_PER_MB) as usize,
            },
            _ => ProbeSpec::Ping { count: self.settings.ping_count },
        }
    }

    /// The run and the action after `event`, where `cancelled` says whether
    /// the cancellation signal was found set when the event was taken up.
    /// The signal is looked at with each progress event, not with the end of
    /// a probe.
    pub open spec fn next(self, event: ProbeEvent, cancelled: bool) -> (SpeedTestRun, RunAction) {
        let idle = SpeedTestRun { phase: TestPhase::Idle, ..self };
        match (self.phase, event) {
            (TestPhase::Ping, ProbeEvent::PingProgress(p)) => if cancelled {
                (idle, RunAction::Abort)
            } else {
                (self, RunAction::Forward(TestUpdate::PingProgress(p)))
            },
            (TestPhase::Download, ProbeEvent::DownloadProgress(p)) => if cancelled {
                (idle, RunAction::Abort)
            } else {
                (self, RunAction::Forward(TestUpdate::DownloadProgress(p)))
            },
            (TestPhase::Upload, ProbeEvent::UploadProgress(p)) => if cancelled {
                (idle, RunAction::Abort)
            } else {
                (self, RunAction::Forward(TestUpdate::UploadProgress(p)))
            },
            (TestPhase::Ping, ProbeEvent::PingFinished(r)) => (
                SpeedTestRun { phase: TestPhase::Download, ..self },
                RunAction::Advance(
                    TestUpdate::PingComplete { avg_us: r.avg_us, jitter_us: r.jitter_us },
                    self.probe_for(TestPhase::Download),
                ),
            ),
            (TestPhase::Download, ProbeEvent::DownloadFinished(r)) => (
                SpeedTestRun { phase: TestPhase::Upload, ..self },
                RunAction::Advance(
                    TestUpdate::DownloadComplete { speed_kbps: r.avg_speed_kbps },
                    self.probe_for(TestPhase::Upload),
                ),
            ),
            (TestPhase::Upload, ProbeEvent::UploadFinished(r)) => (
                SpeedTestRun { phase: TestPhase::Complete, ..self },
                RunAction::Finish(TestUpdate::UploadComplete { speed_kbps: r.avg_speed_kbps }),
            ),
            (TestPhase::Ping, ProbeEvent::Failed) => (idle, RunAction::Fail),
            (TestPhase::Download, ProbeEvent::Failed) => (idle, RunAction::Fail),
            (TestPhase::Upload, ProbeEvent::Failed) => (idle, RunAction::Fail),
            _ => (self, RunAction::Ignore),
        }
    }

    /// The run after the inputs of `inputs`, each an event and whether the
    /// cancellation signal was set then, together with the updates handed to
    /// the consumer on the way, in their order.
    pub open spec fn run_all(self, inputs: Seq<(ProbeEvent, bool)>) -> (SpeedTestRun, Seq<TestUpdate>)
        decreases inputs.len(),
    {
        if inputs.len() == 0 {
            (self, Seq::empty())
        } else {
            let (before, trace) = self.run_all(inputs.drop_last());
            let (after, action) = before.next(inputs.last().0, inputs.last().1);
            match emitted(action) {
                Some(update) => (after, trace.push(update)),
                None => (after, trace),
            }
        }
    }

    /// Starts a run with a copy of `settings`: the latency stage is active,
    /// and its probe is the one to start.
    pub fn start(settings: Settings) -> (r: (SpeedTestRun, ProbeSpec))
        requires
            SpeedTestRun::runnable(settings),
        ensures
            r.0 == (SpeedTestRun { phase: TestPhase::Ping, settings }),
            r.1 == r.0.probe_for(TestPhase::Ping),
    {
        (
            SpeedTestRun { phase: TestPhase::Ping, settings },
            ProbeSpec::Ping { count: settings.ping_count },
        )
    }

    /// The stage that is active.
    pub fn phase(&self) -> (p: TestPhase)
        ensures
            p == self.phase,
    {
        self.phase
    }

    /// Whether a probe is active.
    pub fn is_running(&self) -> (b: bool)
        ensures
            b == (self.phase == TestPhase::Ping || self.phase == TestPhase::Download || self.phase
                == TestPhase::Upload),
    {
        match self.phase {
            TestPhase::Ping | TestPhase::Download | TestPhase::Upload => true,
            _ => false,
        }
    }

    /// Takes up one event of the active probe and says what is to be done.
    /// `cancelled` tells whether the cancellation signal was found set.
    pub fn step(&mut self, event: ProbeEvent, cancelled: bool) -> (action: RunAction)
        requires
            SpeedTestRun::runnable(old(self).settings),
        ensures
            (*final(self), action) == old(self).next(event, cancelled),
    {
        match (self.phase, event) {
            (TestPhase::Ping, ProbeEvent::PingProgress(p)) => {
                if cancelled {
                    self.phase = TestPhase::Idle;
                    RunAction::Abort
                } else {
                    RunAction::Forward(TestUpdate::PingProgress(p))
                }
            },
            (TestPhase::Download, ProbeEvent::DownloadProgress(p)) => {
                if cancelled {
                    self.phase = TestPhase::Idle;
                    RunAction::Abort
                } else {
                    RunAction::Forward(TestUpdate::DownloadProgress(p))
                }
            },
            (TestPhase::Upload, ProbeEvent::UploadProgress(p)) => {
                if cancelled {
                    self.phase = TestPhase::Idle;
                    RunAction::Abort
                } else {
                    RunAction::Forward(TestUpdate::UploadProgress(p))
                }
            },
            (TestPhase::Ping, ProbeEvent::PingFinished(r)) => {
                self.phase = TestPhase::Download;
                RunAction::Advance(
                    TestUpdate::PingComplete { avg_us: r.avg_us, jitter_us: r.jitter_us },
                    ProbeSpec::Download { bytes: self.settings.download_size_bytes() },
                )
            },
            (TestPhase::Download, ProbeEvent::DownloadFinished(r)) => {
                self.phase = TestPhase::Upload;
                RunAction::Advance(
                    TestUpdate::DownloadComplete { speed_kbps: r.avg_speed_kbps },
                    ProbeSpec::Upload { len: self.settings.upload_size_bytes() },
                )
            },
            (TestPhase::Upload, ProbeEvent::UploadFinished(r)) => {
                self.phase = TestPhase::Complete;
                RunAction::Finish(TestUpdate::UploadComplete { speed_kbps: r.avg_speed_kbps })
            },
            (TestPhase::Ping, ProbeEvent::Failed) => {
                self.phase = TestPhase::Idle;
                RunAction::Fail
            },
            (TestPhase::Download, ProbeEvent::Failed) => {
                self.phase = TestPhase::Idle;
                RunAction::Fail
            },
            (TestPhase::Upload, ProbeEvent::Failed) => {
                self.phase = TestPhase::Idle;
                RunAction::Fail
            },
            _ => RunAction::Ignore,
        }
    }
}

/// Settings within their bounds can be run.
pub proof fn lemma_bounded_settings_runnable(settings: Settings)
    requires
        settings.in_bounds(),
    ensures
        SpeedTestRun::runnable(settings),
{
}

/// The updates of a run come stage by stage: whatever the events and
/// wherever cancellation falls, what the consumer has been handed since the
/// start is latency progress, then the latency summary, then download
/// progress, then the download summary, then upload progress, then the
/// upload summary, or a beginning of that. While the run goes on, and when
/// it is complete, the stage that the updates lead to is the stage of the
/// run; a run that was cancelled or has failed is idle, and its updates stop
/// short of the last summary.
pub proof fn lemma_updates_in_phase_order(settings: Settings, inputs: Seq<(ProbeEvent, bool)>)
    ensures
        ({
            let begun = SpeedTestRun { phase: TestPhase::Ping, settings };
            let (run, trace) = begun.run_all(inputs);
            let reached = phase_after_trace(TestPhase::Ping, trace);
            &&& run.settings == settings
            &&& reached.is_some()
            &&& reached.unwrap() != TestPhase::Idle
            &&& run.phase != TestPhase::Idle ==> reached == Some(run.phase)
            &&& run.phase == TestPhase::Idle ==> reached.unwrap() != TestPhase::Complete
        }),
    decreases inputs.len(),
{
    let begun = SpeedTestRun { phase: TestPhase::Ping, settings };
    if inputs.len() > 0 {
        lemma_updates_in_phase_order(settings, inputs.drop_last());
        let (before, trace) = begun.run_all(inputs.drop_last());
        let (after, action) = before.next(inputs.last().0, inputs.last().1);
        match emitted(action) {
            Some(update) => {
                assert(trace.push(update).drop_last() =~= trace);
                assert(trace.push(update).last() == update);
            },
            None => {},
        }
    }
}

/// Whether `event` is progress of the stage `phase`.
pub open spec fn is_progress_of(event: ProbeEvent, phase: TestPhase) -> bool {
    match (phase, event) {
        (TestPhase::Ping, ProbeEvent::PingProgress(_)) => true,
        (TestPhase::Download, ProbeEvent::DownloadProgress(_)) => true,
        (TestPhase::Upload, ProbeEvent::UploadProgress(_)) => true,
        _ => false,
    }
}

/// Cancellation seen with the progress of the active stage, whichever stage
/// that is, makes the run idle and hands nothing to the consumer; the
/// settings stay.
pub proof fn lemma_cancel_makes_idle(run: SpeedTestRun, event: ProbeEvent)
    requires
        is_progress_of(event, run.phase),
    ensures
        run.next(event, true).0 == (SpeedTestRun { phase: TestPhase::Idle, settings: run.settings }),
        run.next(event, true).1 == RunAction::Abort,
        emitted(run.next(event, true).1).is_none(),
{
}

/// A probe that fails while its stage is active ends the run: the run is
/// idle, the consumer is sent word of the failure and no update, and a
/// consumer that shows a run going on then shows none, keeps the summaries
/// that had come in and marks the failure.
pub proof fn lemma_failure_reaches_consumer(run: SpeedTestRun, cancelled: bool, seen: Measurement)
    requires
        run.phase == TestPhase::Ping || run.phase == TestPhase::Download || run.phase
            == TestPhase::Upload,
        !at_rest(seen.phase),
    ensures
        run.next(ProbeEvent::Failed, cancelled).0 == (SpeedTestRun {
            phase: TestPhase::Idle,
            settings: run.settings,
        }),
        emitted(run.next(ProbeEvent::Failed, cancelled).1).is_none(),
        notice_of(run.next(ProbeEvent::Failed, cancelled).1) == Some(RunNotice::Failed),
        seen.after_notice(RunNotice::Failed) == (Measurement {
            phase: TestPhase::Idle,
            failed: true,
            ..seen
        }),
{
}

/// An idle run stays idle and hands on nothing, whatever events still
/// arrive: once a run was cancelled, no summary of the interrupted stage or
/// of a later one reaches the consumer.
pub proof fn lemma_idle_run_is_silent(run: SpeedTestRun, inputs: Seq<(ProbeEvent, bool)>)
    requires
        run.phase == TestPhase::Idle,
    ensures
        run.run_all(inputs) == (run, Seq::<TestUpdate>::empty()),
    decreases inputs.len(),
{
    if inputs.len() > 0 {
        lemma_idle_run_is_silent(run, inputs.drop_last());
    }
}

} // verus!
