use vstd::prelude::*;
use crate::settings::{Settings, SettingsField};
use crate::speedtest::download::DownloadProgress;
use crate::speedtest::ping::PingProgress;
use crate::speedtest::upload::UploadProgress;
use crate::speedtest::window::{most_recent, SampleWindow};
use crate::speedtest::{SpeedTestResult, TestPhase, LATENCY_WINDOW};

verus! {

/// Which screen is shown.
#[derive(Debug, Clone, Copy, PartialEq, Eq, Structural)]
pub enum AppView {
    Main,
    Settings,
}

/// One of the three panels of the main screen.
#[derive(Debug, Clone, Copy, PartialEq, Eq, Structural)]
pub enum Panel {
    Download,
    Upload,
    Ping,
}

impl Panel {
    pub open spec fn spec_next(self) -> Panel {
        match self {
            Panel::Download => Panel::Upload,
            Panel::Upload => Panel::Ping,
            Panel::Ping => Panel::Download,
        }
    }

    pub open spec fn spec_prev(self) -> Panel {
        match self {
            Panel::Download => Panel::Ping,
            Panel::Upload => Panel::Download,
            Panel::Ping => Panel::Upload,
        }
    }

    /// The panel to the right, wrapping round from the last to the first.
    pub fn next(self) -> (r: Panel)
        ensures
            r == self.spec_next(),
    {
        match self {
            Panel::Download => Panel::Upload,
            Panel::Upload => Panel::Ping,
            Panel::Ping => Panel::Download,
        }
    }

    /// The panel to the left, wrapping round from the first to the last.
    pub fn prev(self) -> (r: Panel)
        ensures
            r == self.spec_prev(),
    {
        match self {
            Panel::Download => Panel::Ping,
            Panel::Upload => Panel::Download,
            Panel::Ping => Panel::Upload,
        }
    }
}

/// Going to the next panel and back, or back and forth, changes nothing,
/// and three steps either way come round.
pub proof fn lemma_panel_cycle(p: Panel)
    ensures
        p.spec_next().spec_prev() == p,
        p.spec_prev().spec_next() == p,
        p.spec_next().spec_next().spec_next() == p,
{
}

/// Going to the next settings field and back, or back and forth, changes
/// nothing, and three steps either way come round.
pub proof fn lemma_field_cycle(f: SettingsField)
    ensures
        f.spec_next().spec_prev() == f,
        f.spec_prev().spec_next() == f,
        f.spec_next().spec_next().spec_next() == f,
{
}

/// What the caller is asked to do after a key press.
#[derive(Debug, Clone, Copy, PartialEq, Eq, Structural)]
pub enum AppAction {
    Quit,
    StartTest,
    CancelTest,
}

/// What a measurement run tells its consumer, in the order in which it
/// happened.
#[derive(Debug, Clone)]
pub enum TestUpdate {
    PingProgress(PingProgress),
    PingComplete { avg_us: u64, jitter_us: u64 },
    DownloadProgress(DownloadProgress),
    DownloadComplete { speed_kbps: u64 },
    UploadProgress(UploadProgress),
    UploadComplete { speed_kbps: u64 },
}

/// What reaches the consumer of a run: an update, or word that the run has
/// failed.
#[derive(Debug, Clone)]
pub enum RunNotice {
    Update(TestUpdate),
    Failed,
}

/// How far a transfer has come.
#[derive(Debug, Clone, Copy, PartialEq, Eq, Structural)]
pub struct TransferProgress {
    pub bytes_done: u64,
    pub bytes_total: u64,
}

/// The stage that the consumer is in after `update` arrived in stage
/// `phase`, or nothing where that update cannot come in that stage: progress
/// of a stage keeps it, its summary leads to the next one.
pub open spec fn phase_after_update(phase: TestPhase, update: TestUpdate) -> Option<TestPhase> {
    match (phase, update) {
        (TestPhase::Ping, TestUpdate::PingProgress(_)) => Some(TestPhase::Ping),
        (TestPhase::Ping, TestUpdate::PingComplete { .. }) => Some(TestPhase::Download),
        (TestPhase::Download, TestUpdate::DownloadProgress(_)) => Some(TestPhase::Download),
        (TestPhase::Download, TestUpdate::DownloadComplete { .. }) => Some(TestPhase::Upload),
        (TestPhase::Upload, TestUpdate::UploadProgress(_)) => Some(TestPhase::Upload),
        (TestPhase::Upload, TestUpdate::UploadComplete { .. }) => Some(TestPhase::Complete),
        _ => None,
    }
}

/// The stage reached from `phase` by the updates of `trace` in turn, or
/// nothing where one of them comes out of order.
pub open spec fn phase_after_trace(phase: TestPhase, trace: Seq<TestUpdate>) -> Option<TestPhase>
    decreases trace.len(),
{
    if trace.len() == 0 {
        Some(phase)
    } else {
        match phase_after_trace(phase, trace.drop_last()) {
            Some(p) => phase_after_update(p, trace.last()),
            None => None,
        }
    }
}

/// The summaries after `update` arrived: the summary of a stage is taken
/// over, progress changes nothing.
pub open spec fn result_after_update(result: SpeedTestResult, update: TestUpdate) -> SpeedTestResult {
    match update {
        TestUpdate::PingComplete { avg_us, jitter_us } => SpeedTestResult {
            ping_us: avg_us,
            jitter_us,
            ..result
        },
        TestUpdate::DownloadComplete { speed_kbps } => SpeedTestResult {
            download_kbps: speed_kbps,
            ..result
        },
        TestUpdate::UploadComplete { speed_kbps } => SpeedTestResult {
            upload_kbps: speed_kbps,
            ..result
        },
        _ => result,
    }
}

/// The summaries after the updates of `trace` arrived in turn.
pub open spec fn result_after_trace(result: SpeedTestResult, trace: Seq<TestUpdate>) -> SpeedTestResult
    decreases trace.len(),
{
    if trace.len() == 0 {
        result
    } else {
        result_after_update(result_after_trace(result, trace.drop_last()), trace.last())
    }
}

/// The summaries hold only what has completed: after updates that came in
/// order from the start of a run, the summary of the stage that is active
/// and of every later one is still zero.
pub proof fn lemma_result_reflects_completed(trace: Seq<TestUpdate>)
    requires
        phase_after_trace(TestPhase::Ping, trace).is_some(),
    ensures
        ({
            let phase = phase_after_trace(TestPhase::Ping, trace).unwrap();
            let result = result_after_trace(
                SpeedTestResult { download_kbps: 0, upload_kbps: 0, ping_us: 0, jitter_us: 0 },
                trace,
            );
            &&& phase != TestPhase::Idle
            &&& phase == TestPhase::Ping ==> result.ping_us == 0 && result.jitter_us == 0
            &&& phase == TestPhase::Ping || phase == TestPhase::Download ==> result.download_kbps
                == 0
            &&& phase != TestPhase::Complete ==> result.upload_kbps == 0
        }),
    decreases trace.len(),
{
    if trace.len() > 0 {
        lemma_result_reflects_completed(trace.drop_last());
    }
}

/// A key, as far as the screens tell keys apart.
#[derive(Debug, Clone, Copy, PartialEq, Eq, Structural)]
pub enum KeyCode {
    Char(char),
    Enter,
    Esc,
    Tab,
    BackTab,
    Left,
    Right,
    Up,
    Down,
    Other,
}

/// A key event: the key, and whether it was pressed (rather than released
/// or repeated).
#[derive(Debug, Clone, Copy, PartialEq, Eq, Structural)]
pub struct KeyEvent {
    pub code: KeyCode,
    pub pressed: bool,
}

/// What the keys steer: the screen, the selection, the settings.
#[derive(Debug, Clone, Copy, PartialEq, Eq, Structural)]
pub struct UiState {
    pub should_quit: bool,
    pub view: AppView,
    pub selected_panel: Panel,
    pub expanded: bool,
    pub settings: Settings,
    pub selected_setting: SettingsField,
}

/// Whether no run is going on in `phase`.
pub open spec fn at_rest(phase: TestPhase) -> bool {
    phase == TestPhase::Idle || phase == TestPhase::Complete
}

/// The key that `code` stands for on the main screen: two letters move the
/// selection as the tabulator does.
pub open spec fn main_key_meaning(code: KeyCode) -> KeyCode {
    match code {
        KeyCode::Char(c) => if c == 'j' {
            KeyCode::Tab
        } else if c == 'k' {
            KeyCode::BackTab
        } else {
            code
        },
        _ => code,
    }
}

/// The key that `code` stands for on the settings screen: five letters act
/// as escape and the arrows do, no other letter does anything.
pub open spec fn settings_key_meaning(code: KeyCode) -> KeyCode {
    match code {
        KeyCode::Char(c) => if c == 'q' {
            KeyCode::Esc
        } else if c == 'k' {
            KeyCode::Up
        } else if c == 'j' {
            KeyCode::Down
        } else if c == 'h' {
            KeyCode::Left
        } else if c == 'l' {
            KeyCode::Right
        } else {
            KeyCode::Other
        },
        _ => code,
    }
}

impl UiState {
    /// The state and the request after a key was pressed on the main
    /// screen, where the run is in `phase`.
    pub open spec fn after_main_key(self, phase: TestPhase, code: KeyCode) -> (
        UiState,
        Option<AppAction>,
    ) {
        match main_key_meaning(code) {
            KeyCode::Char(c) => if c == 'q' {
                (UiState { should_quit: true, ..self }, Some(AppAction::Quit))
            } else if c == 's' {
                if at_rest(phase) {
                    (UiState { view: AppView::Settings, ..self }, None)
                } else {
                    (self, None)
                }
            } else if c == ' ' {
                (UiState { expanded: !self.expanded, ..self }, None)
            } else {
                (self, None)
            },
            KeyCode::Enter => if self.expanded {
                (UiState { expanded: false, ..self }, None)
            } else if at_rest(phase) {
                (self, Some(AppAction::StartTest))
            } else {
                (UiState { expanded: true, ..self }, None)
            },
            KeyCode::Esc => if self.expanded {
                (UiState { expanded: false, ..self }, None)
            } else if !at_rest(phase) {
                (self, Some(AppAction::CancelTest))
            } else {
                (self, None)
            },
            KeyCode::Tab | KeyCode::Right => if !self.expanded {
                (UiState { selected_panel: self.selected_panel.spec_next(), ..self }, None)
            } else {
                (self, None)
            },
            KeyCode::BackTab | KeyCode::Left => if !self.expanded {
                (UiState { selected_panel: self.selected_panel.spec_prev(), ..self }, None)
            } else {
                (self, None)
            },
            _ => (self, None),
        }
    }

    /// The state after a key was pressed on the settings screen. No key
    /// there asks anything of the caller.
    pub open spec fn after_settings_key(self, code: KeyCode) -> UiState {
        match settings_key_meaning(code) {
            KeyCode::Esc | KeyCode::Enter => UiState { view: AppView::Main, ..self },
            KeyCode::Up => UiState { selected_setting: self.selected_setting.spec_prev(), ..self },
            KeyCode::Down | KeyCode::Tab => UiState {
                selected_setting: self.selected_setting.spec_next(),
                ..self
            },
            KeyCode::Left => UiState {
                settings: self.settings.decreased(self.selected_setting),
                ..self
            },
            KeyCode::Right => UiState {
                settings: self.settings.increased(self.selected_setting),
                ..self
            },
            _ => self,
        }
    }

    /// The state and the request after a key event: only a press counts,
    /// and it goes to the screen that is shown.
    pub open spec fn after_key(self, phase: TestPhase, key: KeyEvent) -> (UiState, Option<AppAction>) {
        if !key.pressed {
            (self, None)
        } else {
            match self.view {
                AppView::Main => self.after_main_key(phase, key.code),
                AppView::Settings => (self.after_settings_key(key.code), None),
            }
        }
    }

    fn main_key(self, phase: TestPhase, code: KeyCode) -> (r: (UiState, Option<AppAction>))
        ensures
            r == self.after_main_key(phase, code),
    {
        let resting: bool = match phase {
            TestPhase::Idle | TestPhase::Complete => true,
            _ => false,
        };
        let mut next = self;
        let mut action: Option<AppAction> = None;
        let folded: KeyCode = match code {
            KeyCode::Char(c) => if c == 'j' {
                KeyCode::Tab
            } else if c == 'k' {
                KeyCode::BackTab
            } else {
                code
            },
            _ => code,
        };
        match folded {
            KeyCode::Char(c) => {
                if c == 'q' {
                    next.should_quit = true;
                    action = Some(AppAction::Quit);
                } else if c == 's' {
                    if resting {
                        next.view = AppView::Settings;
                    }
                } else if c == ' ' {
                    next.expanded = !self.expanded;
                }
            },
            KeyCode::Enter => {
                if self.expanded {
                    next.expanded = false;
                } else if resting {
                    action = Some(AppAction::StartTest);
                } else {
                    next.expanded = true;
                }
            },
            KeyCode::Esc => {
                if self.expanded {
                    next.expanded = false;
                } else if !resting {
                    action = Some(AppAction::CancelTest);
                }
            },
            KeyCode::Tab | KeyCode::Right => {
                if !self.expanded {
                    next.selected_panel = self.selected_panel.next();
                }
            },
            KeyCode::BackTab | KeyCode::Left => {
                if !self.expanded {
                    next.selected_panel = self.selected_panel.prev();
                }
            },
            _ => {},
        }
        (next, action)
    }

    fn settings_key(self, code: KeyCode) -> (r: UiState)
        ensures
            r == self.after_settings_key(code),
    {
        let folded: KeyCode = match code {
            KeyCode::Char(c) => if c == 'q' {
                KeyCode::Esc
            } else if c == 'k' {
                KeyCode::Up
            } else if c == 'j' {
                KeyCode::Down
            } else if c == 'h' {
                KeyCode::Left
            } else if c == 'l' {
                KeyCode::Right
            } else {
                KeyCode::Other
            },
            _ => code,
        };
        let mut next = self;
        match folded {
            KeyCode::Esc | KeyCode::Enter => {
                next.view = AppView::Main;
            },
            KeyCode::Up => {
                next.selected_setting = self.selected_setting.prev();
            },
            KeyCode::Down | KeyCode::Tab => {
                next.selected_setting = self.selected_setting.next();
            },
            KeyCode::Left => {
                next.settings.decrease(self.selected_setting);
            },
            KeyCode::Right => {
                next.settings.increase(self.selected_setting);
            },
            _ => {},
        }
        next
    }
}

/// No key takes the settings out of their bounds.
pub proof fn lemma_keys_keep_settings_in_bounds(ui: UiState, phase: TestPhase, key: KeyEvent)
    requires
        ui.settings.in_bounds(),
    ensures
        ui.after_key(phase, key).0.settings.in_bounds(),
{
}

/// The run as the consumer sees it: the stage, the summaries that have come
/// in, and what there is to chart.
pub struct Measurement {
    pub phase: TestPhase,
    pub result: SpeedTestResult,
    /// Whether the last run ended in a failure.
    pub failed: bool,
    pub download_progress: TransferProgress,
    pub upload_progress: TransferProgress,
    pub download_samples: Seq<u64>,
    pub upload_samples: Seq<u64>,
    pub ping_samples: Seq<u64>,
}

impl Measurement {
    /// Nothing measured, no run going on.
    pub open spec fn fresh() -> Measurement {
        Measurement {
            phase: TestPhase::Idle,
            result: SpeedTestResult { download_kbps: 0, upload_kbps: 0, ping_us: 0, jitter_us: 0 },
            failed: false,
            download_progress: TransferProgress { bytes_done: 0, bytes_total: 0 },
            upload_progress: TransferProgress { bytes_done: 0, bytes_total: 0 },
            download_samples: Seq::empty(),
            upload_samples: Seq::empty(),
            ping_samples: Seq::empty(),
        }
    }

    /// What the consumer sees once a run that was going on has ended
    /// without its last summary: no run is going on, the summaries that had
    /// come in stay, and the failure is marked. Where no run was going on,
    /// nothing changes.
    pub open spec fn after_failure(self) -> Measurement {
        if at_rest(self.phase) {
            self
        } else {
            Measurement { phase: TestPhase::Idle, failed: true, ..self }
        }
    }

    /// What the consumer sees after a request to cancel: where a run was
    /// going on, none is any more, and the summaries that had come in stay;
    /// where none was, complete or not begun, nothing changes.
    pub open spec fn after_cancel(self) -> Measurement {
        if at_rest(self.phase) {
            self
        } else {
            Measurement { phase: TestPhase::Idle, ..self }
        }
    }

    /// What the consumer sees after `notice`.
    pub open spec fn after_notice(self, notice: RunNotice) -> Measurement {
        match notice {
            RunNotice::Update(update) => self.after_update(update),
            RunNotice::Failed => self.after_failure(),
        }
    }

    /// The stage after `update`: a summary leads to the stage that follows
    /// the one it is of, progress changes nothing.
    pub open spec fn phase_after(self, update: TestUpdate) -> TestPhase {
        match update {
            TestUpdate::PingComplete { .. } => TestPhase::Download,
            TestUpdate::DownloadComplete { .. } => TestPhase::Upload,
            TestUpdate::UploadComplete { .. } => TestPhase::Complete,
            _ => self.phase,
        }
    }

    /// What the consumer sees after `update`. A latency probe that failed
    /// leaves the chart as it was.
    pub open spec fn after_update(self, update: TestUpdate) -> Measurement {
        let seen = Measurement {
            phase: self.phase_after(update),
            result: result_after_update(self.result, update),
            ..self
        };
        match update {
            TestUpdate::PingProgress(p) => match p.latest_ping {
                Some(rtt) => Measurement {
                    ping_samples: most_recent(
                        self.ping_samples.push(rtt as u64),
                        LATENCY_WINDOW as nat,
                    ),
                    ..seen
                },
                None => seen,
            },
            TestUpdate::DownloadProgress(p) => Measurement {
                download_progress: TransferProgress {
                    bytes_done: p.downloaded_bytes,
                    bytes_total: p.total_bytes,
                },
                download_samples: p.speed_samples@,
                ..seen
            },
            TestUpdate::UploadProgress(p) => Measurement {
                upload_progress: TransferProgress {
                    bytes_done: p.uploaded_bytes,
                    bytes_total: p.total_bytes,
                },
                upload_samples: p.speed_samples@,
                ..seen
            },
            _ => seen,
        }
    }
}

/// Where the updates come in order, the stage that the consumer shows is
/// the stage that they lead to.
pub proof fn lemma_consumer_follows_phases(seen: Measurement, update: TestUpdate)
    requires
        phase_after_update(seen.phase, update).is_some(),
    ensures
        Some(seen.after_update(update).phase) == phase_after_update(seen.phase, update),
{
}

impl Measurement {
    /// What the consumer sees after the updates of `trace` arrived in turn.
    pub open spec fn after_trace(self, trace: Seq<TestUpdate>) -> Measurement
        decreases trace.len(),
    {
        if trace.len() == 0 {
            self
        } else {
            self.after_trace(trace.drop_last()).after_update(trace.last())
        }
    }
}

/// A consumer that starts clean and takes in updates that come in order
/// shows the stage that they lead to, and its summaries are those of the
/// stages that have completed: so a run that is cancelled during the
/// download shows the latency summary and no other.
pub proof fn lemma_consumer_shows_completed(trace: Seq<TestUpdate>)
    requires
        phase_after_trace(TestPhase::Ping, trace).is_some(),
    ensures
        ({
            let begun = Measurement { phase: TestPhase::Ping, ..Measurement::fresh() };
            let seen = begun.after_trace(trace);
            &&& Some(seen.phase) == phase_after_trace(TestPhase::Ping, trace)
            &&& seen.result == result_after_trace(Measurement::fresh().result, trace)
            &&& seen.phase == TestPhase::Ping ==> seen.result == Measurement::fresh().result
            &&& seen.phase == TestPhase::Download ==> seen.result.download_kbps == 0
                && seen.result.upload_kbps == 0
            &&& seen.phase == TestPhase::Upload ==> seen.result.upload_kbps == 0
        }),
    decreases trace.len(),
{
    lemma_result_reflects_completed(trace);
    if trace.len() > 0 {
        lemma_consumer_shows_completed(trace.drop_last());
    }
}

/// The consumer of a measurement run: what it shows, what the keys steer,
/// and the slot for the handle through which a run is cancelled. `C` is the
/// type of that handle.
pub struct App<C> {
    pub phase: TestPhase,
    pub result: SpeedTestResult,
    /// Whether the last run ended in a failure.
    pub failed: bool,
    pub should_quit: bool,
    pub view: AppView,
    pub selected_panel: Panel,
    pub expanded: bool,
    pub settings: Settings,
    pub selected_setting: SettingsField,
    pub download_progress: TransferProgress,
    pub upload_progress: TransferProgress,
    pub download_samples: Vec<u64>,
    pub upload_samples: Vec<u64>,
    pub ping_samples: SampleWindow,
    /// The handle through which the run can be cancelled, if one is held.
    pub cancel_tx: Option<C>,
}

impl<C> App<C> {
    /// The chart of latencies is a window of the capacity that it was made
    /// with.
    pub open spec fn wf(&self) -> bool {
        &&& self.ping_samples.wf()
        &&& self.ping_samples.spec_capacity() == LATENCY_WINDOW
    }

    /// What the keys steer.
    pub open spec fn ui(&self) -> UiState {
        UiState {
            should_quit: self.should_quit,
            view: self.view,
            selected_panel: self.selected_panel,
            expanded: self.expanded,
            settings: self.settings,
            selected_setting: self.selected_setting,
        }
    }

    /// The run as it is shown.
    pub open spec fn measurement(&self) -> Measurement {
        Measurement {
            phase: self.phase,
            result: self.result,
            failed: self.failed,
            download_progress: self.download_progress,
            upload_progress: self.upload_progress,
            download_samples: self.download_samples@,
            upload_samples: self.upload_samples@,
            ping_samples: self.ping_samples@,
        }
    }

    /// The state at launch: the main screen, default settings, nothing
    /// measured, no run to cancel.
    pub fn new() -> (app: App<C>)
        ensures
            app.wf(),
            app.measurement() == Measurement::fresh(),
            app.cancel_tx.is_none(),
            app.ui() == (UiState {
                should_quit: false,
                view: AppView::Main,
                selected_panel: Panel::Download,
                expanded: false,
                settings: Settings { ping_count: 30, download_size_mb: 100, upload_size_mb: 50 },
                selected_setting: SettingsField::PingCount,
            }),
    {
        App {
            phase: TestPhase::Idle,
            result: SpeedTestResult::default(),
            failed: false,
            should_quit: false,
            view: AppView::Main,
            selected_panel: Panel::Download,
            expanded: false,
            settings: Settings::default(),
            selected_setting: SettingsField::PingCount,
            download_progress: TransferProgress { bytes_done: 0, bytes_total: 0 },
            upload_progress: TransferProgress { bytes_done: 0, bytes_total: 0 },
            download_samples: Vec::new(),
            upload_samples: Vec::new(),
            ping_samples: SampleWindow::new(LATENCY_WINDOW),
            cancel_tx: None,
        }
    }

    /// Takes a key event. Only a press counts; it goes to the screen that is
    /// shown. Returns what the caller is asked to do, if anything. The run
    /// as shown and the cancellation handle stay as they are.
    pub fn handle_key_event(&mut self, key: KeyEvent) -> (action: Option<AppAction>)
        ensures
            (final(self).ui(), action) == old(self).ui().after_key(old(self).phase, key),
            final(self).measurement() == old(self).measurement(),
            final(self).ping_samples == old(self).ping_samples,
            final(self).cancel_tx == old(self).cancel_tx,
    {
        if !key.pressed {
            return None;
        }
        let ui = UiState {
            should_quit: self.should_quit,
            view: self.view,
            selected_panel: self.selected_panel,
            expanded: self.expanded,
            settings: self.settings,
            selected_setting: self.selected_setting,
        };
        let (next, action) = match self.view {
            AppView::Main => ui.main_key(self.phase, key.code),
            AppView::Settings => (ui.settings_key(key.code), None),
        };
        self.should_quit = next.should_quit;
        self.view = next.view;
        self.selected_panel = next.selected_panel;
        self.expanded = next.expanded;
        self.settings = next.settings;
        self.selected_setting = next.selected_setting;
        action
    }

    /// Clears what the last run left: no run going on, all summaries zero,
    /// nothing to chart, no panel expanded. Settings, selection and the
    /// cancellation handle stay.
    pub fn reset_for_new_test(&mut self)
        requires
            old(self).wf(),
        ensures
            final(self).wf(),
            final(self).measurement() == Measurement::fresh(),
            final(self).ui() == (UiState { expanded: false, ..old(self).ui() }),
            final(self).cancel_tx == old(self).cancel_tx,
    {
        self.phase = TestPhase::Idle;
        self.result = SpeedTestResult::default();
        self.failed = false;
        self.download_progress = TransferProgress { bytes_done: 0, bytes_total: 0 };
        self.upload_progress = TransferProgress { bytes_done: 0, bytes_total: 0 };
        self.download_samples.clear();
        self.upload_samples.clear();
        self.ping_samples.clear();
        self.expanded = false;
    }

    /// Begins a run, whether or not one is going on: everything that an
    /// earlier run left is cleared, the latency stage is active, and
    /// `cancel_tx` is the handle through which the new run is cancelled.
    pub fn start_test(&mut self, cancel_tx: C)
        requires
            old(self).wf(),
        ensures
            final(self).wf(),
            final(self).measurement() == (Measurement {
                phase: TestPhase::Ping,
                ..Measurement::fresh()
            }),
            final(self).ui() == (UiState { expanded: false, ..old(self).ui() }),
            final(self).cancel_tx == Some(cancel_tx),
    {
        self.reset_for_new_test();
        self.phase = TestPhase::Ping;
        self.set_cancel_tx(cancel_tx);
    }

    /// Takes in the outcome of one latency probe: a round-trip time goes
    /// into the chart, which keeps the most recent ones; a failed probe
    /// leaves the chart as it was.
    pub fn update_ping_progress(&mut self, progress: PingProgress)
        requires
            old(self).wf(),
        ensures
            final(self).wf(),
            final(self).measurement() == old(self).measurement().after_update(
                TestUpdate::PingProgress(progress),
            ),
            final(self).ui() == old(self).ui(),
            final(self).cancel_tx == old(self).cancel_tx,
    {
        if let Some(ping) = progress.latest_ping {
            self.ping_samples.push(ping as u64);
        }
    }

    /// Takes in the progress of the download: how far it has come, and the
    /// samples to chart in place of the earlier ones.
    pub fn update_download_progress(&mut self, progress: DownloadProgress)
        ensures
            final(self).measurement() == old(self).measurement().after_update(
                TestUpdate::DownloadProgress(progress),
            ),
            final(self).ping_samples == old(self).ping_samples,
            final(self).ui() == old(self).ui(),
            final(self).cancel_tx == old(self).cancel_tx,
    {
        self.download_progress =
        TransferProgress {
            bytes_done: progress.downloaded_bytes,
            bytes_total: progress.total_bytes,
        };
        self.download_samples = progress.speed_samples;
    }

    /// Takes in the progress of the upload: how far it has come, and the
    /// samples to chart in place of the earlier ones.
    pub fn update_upload_progress(&mut self, progress: UploadProgress)
        ensures
            final(self).measurement() == old(self).measurement().after_update(
                TestUpdate::UploadProgress(progress),
            ),
            final(self).ping_samples == old(self).ping_samples,
            final(self).ui() == old(self).ui(),
            final(self).cancel_tx == old(self).cancel_tx,
    {
        self.upload_progress =
        TransferProgress { bytes_done: progress.uploaded_bytes, bytes_total: progress.total_bytes };
        self.upload_samples = progress.speed_samples;
    }

    /// Takes in one update of the run: progress goes to the charts, a
    /// summary into the result, and with a summary the next stage begins.
    pub fn handle_update(&mut self, update: TestUpdate)
        requires
            old(self).wf(),
        ensures
            final(self).wf(),
            final(self).measurement() == old(self).measurement().after_update(update),
            final(self).ui() == old(self).ui(),
            final(self).cancel_tx == old(self).cancel_tx,
    {
        match update {
            TestUpdate::PingProgress(p) => self.update_ping_progress(p),
            TestUpdate::PingComplete { avg_us, jitter_us } => {
                self.result.ping_us = avg_us;
                self.result.jitter_us = jitter_us;
                self.phase = TestPhase::Download;
            },
            TestUpdate::DownloadProgress(p) => self.update_download_progress(p),
            TestUpdate::DownloadComplete { speed_kbps } => {
                self.result.download_kbps = speed_kbps;
                self.phase = TestPhase::Upload;
            },
            TestUpdate::UploadProgress(p) => self.update_upload_progress(p),
            TestUpdate::UploadComplete { speed_kbps } => {
                self.result.upload_kbps = speed_kbps;
                self.complete_test();
            },
        }
    }

    /// Marks the run as complete.
    pub fn complete_test(&mut self)
        ensures
            final(self).measurement() == (Measurement {
                phase: TestPhase::Complete,
                ..old(self).measurement()
            }),
            final(self).ping_samples == old(self).ping_samples,
            final(self).ui() == old(self).ui(),
            final(self).cancel_tx == old(self).cancel_tx,
    {
        self.phase = TestPhase::Complete;
    }

    /// Takes in word that the run has failed: where a run was going on,
    /// none is any more, the summaries of the stages that had completed
    /// stay, the failure is marked, and the handle for cancelling is let go.
    /// Where no run was going on, nothing changes.
    pub fn fail_test(&mut self)
        ensures
            final(self).measurement() == old(self).measurement().after_failure(),
            final(self).ping_samples == old(self).ping_samples,
            final(self).ui() == old(self).ui(),
            final(self).cancel_tx == (if at_rest(old(self).phase) {
                old(self).cancel_tx
            } else {
                None
            }),
            at_rest(old(self).phase) ==> *final(self) == *old(self),
    {
        match self.phase {
            TestPhase::Idle | TestPhase::Complete => {},
            _ => {
                self.phase = TestPhase::Idle;
                self.failed = true;
                self.cancel_tx = None;
            },
        }
    }

    /// Takes note that the run has ended and will send no more updates. A
    /// run that is complete stays so. One that was still going on has ended
    /// without its last summary and without word of why: it is taken as
    /// failed.
    pub fn updates_closed(&mut self)
        ensures
            final(self).measurement() == old(self).measurement().after_failure(),
            final(self).ping_samples == old(self).ping_samples,
            final(self).ui() == old(self).ui(),
            final(self).cancel_tx == (if at_rest(old(self).phase) {
                old(self).cancel_tx
            } else {
                None
            }),
            at_rest(old(self).phase) ==> *final(self) == *old(self),
    {
        self.fail_test();
    }

    /// Takes in what the run sends: an update, or word that it has failed.
    pub fn handle_notice(&mut self, notice: RunNotice)
        requires
            old(self).wf(),
        ensures
            final(self).wf(),
            final(self).measurement() == old(self).measurement().after_notice(notice),
            final(self).ui() == old(self).ui(),
            notice is Update ==> final(self).cancel_tx == old(self).cancel_tx,
    {
        match notice {
            RunNotice::Update(update) => self.handle_update(update),
            RunNotice::Failed => self.fail_test(),
        }
    }

    /// Keeps `tx` as the handle through which the run is cancelled, in place
    /// of any earlier one.
    pub fn set_cancel_tx(&mut self, tx: C)
        ensures
            final(self).cancel_tx == Some(tx),
            final(self).measurement() == old(self).measurement(),
            final(self).ping_samples == old(self).ping_samples,
            final(self).ui() == old(self).ui(),
    {
        self.cancel_tx = Some(tx);
    }

    /// Cancels the run. Where a run is going on, none is any more: the
    /// handle, if one was held, is given up to the caller, who signals
    /// through it, and the summaries of the stages that had completed stay,
    /// as do the charts. Where no run is going on, not begun or complete,
    /// there is nothing to cancel: nothing changes and no handle is given.
    pub fn cancel_test(&mut self) -> (tx: Option<C>)
        ensures
            final(self).measurement() == old(self).measurement().after_cancel(),
            final(self).ping_samples == old(self).ping_samples,
            final(self).ui() == old(self).ui(),
            at_rest(old(self).phase) ==> tx.is_none() && *final(self) == *old(self),
            !at_rest(old(self).phase) ==> tx == old(self).cancel_tx,
            !at_rest(old(self).phase) ==> final(self).cancel_tx.is_none(),
    {
        match self.phase {
            TestPhase::Idle | TestPhase::Complete => None,
            _ => {
                let tx = self.cancel_tx.take();
                self.phase = TestPhase::Idle;
                tx
            },
        }
    }
}

} // verus!
