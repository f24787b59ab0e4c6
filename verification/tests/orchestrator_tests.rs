use ericspeed::app::{RunNotice, TestUpdate};
use ericspeed::orchestrator::{ProbeEvent, ProbeSpec, RunAction, SpeedTestRun};
use ericspeed::settings::Settings;
use ericspeed::speedtest::download::{DownloadProgress, DownloadResult, DownloadTest};
use ericspeed::speedtest::ping::{PingProgress, PingResult, PingTest};
use ericspeed::speedtest::upload::{UploadProgress, UploadResult};
use ericspeed::speedtest::TestPhase;

fn small() -> Settings {
    Settings { ping_count: 5, download_size_mb: 25, upload_size_mb: 25 }
}

fn download_progress(done: u64) -> ProbeEvent {
    ProbeEvent::DownloadProgress(DownloadProgress {
        downloaded_bytes: done,
        total_bytes: 25_000_000,
        speed_samples: vec![1, 2, 3],
    })
}

fn upload_progress(done: u64) -> ProbeEvent {
    ProbeEvent::UploadProgress(UploadProgress {
        uploaded_bytes: done,
        total_bytes: 25_000_000,
        speed_samples: vec![4, 5],
    })
}

fn ping_progress(rtt: Option<u32>) -> ProbeEvent {
    ProbeEvent::PingProgress(PingProgress { latest_ping: rtt })
}

#[test]
fn start_begins_with_the_latency_probe() {
    let (run, probe) = SpeedTestRun::start(small());
    assert_eq!(run.phase(), TestPhase::Ping);
    assert!(run.is_running());
    assert_eq!(run.settings, small());
    assert_eq!(probe, ProbeSpec::Ping { count: 5 });
}

#[test]
fn a_complete_run_goes_through_the_stages_in_order() {
    let (mut run, _) = SpeedTestRun::start(small());
    match run.step(ping_progress(Some(50_000)), false) {
        RunAction::Forward(TestUpdate::PingProgress(p)) => {
            assert_eq!(p.latest_ping, Some(50_000))
        }
        other => panic!("unexpected action {:?}", other),
    }
    match run.step(ping_progress(None), false) {
        RunAction::Forward(TestUpdate::PingProgress(p)) => assert_eq!(p.latest_ping, None),
        other => panic!("unexpected action {:?}", other),
    }
    assert_eq!(run.phase(), TestPhase::Ping);
    let done = ProbeEvent::PingFinished(PingResult { avg_us: 50_000, jitter_us: 7 });
    match run.step(done, false) {
        RunAction::Advance(TestUpdate::PingComplete { avg_us, jitter_us }, probe) => {
            assert_eq!((avg_us, jitter_us), (50_000, 7));
            assert_eq!(probe, ProbeSpec::Download { bytes: 25_000_000 });
        }
        other => panic!("unexpected action {:?}", other),
    }
    assert_eq!(run.phase(), TestPhase::Download);
    match run.step(download_progress(1_000), false) {
        RunAction::Forward(TestUpdate::DownloadProgress(p)) => {
            assert_eq!(p.downloaded_bytes, 1_000);
            assert_eq!(p.total_bytes, 25_000_000);
            assert_eq!(p.speed_samples, vec![1, 2, 3]);
        }
        other => panic!("unexpected action {:?}", other),
    }
    let done = ProbeEvent::DownloadFinished(DownloadResult { avg_speed_kbps: 100_000 });
    match run.step(done, false) {
        RunAction::Advance(TestUpdate::DownloadComplete { speed_kbps }, probe) => {
            assert_eq!(speed_kbps, 100_000);
            assert_eq!(probe, ProbeSpec::Upload { len: 25_000_000 });
        }
        other => panic!("unexpected action {:?}", other),
    }
    assert_eq!(run.phase(), TestPhase::Upload);
    match run.step(upload_progress(2_000), false) {
        RunAction::Forward(TestUpdate::UploadProgress(p)) => {
            assert_eq!(p.uploaded_bytes, 2_000);
            assert_eq!(p.speed_samples, vec![4, 5]);
        }
        other => panic!("unexpected action {:?}", other),
    }
    let done = ProbeEvent::UploadFinished(UploadResult { avg_speed_kbps: 42_000 });
    match run.step(done, false) {
        RunAction::Finish(TestUpdate::UploadComplete { speed_kbps }) => {
            assert_eq!(speed_kbps, 42_000)
        }
        other => panic!("unexpected action {:?}", other),
    }
    assert_eq!(run.phase(), TestPhase::Complete);
    assert!(!run.is_running());
}

#[test]
fn cancellation_during_download_aborts_without_a_summary() {
    let (mut run, _) = SpeedTestRun::start(small());
    run.step(ProbeEvent::PingFinished(PingResult { avg_us: 1, jitter_us: 0 }), false);
    assert!(matches!(run.step(download_progress(10), false), RunAction::Forward(_)));
    assert!(matches!(run.step(download_progress(20), true), RunAction::Abort));
    assert_eq!(run.phase(), TestPhase::Idle);
    // Whatever still arrives is dropped.
    assert!(matches!(run.step(download_progress(30), false), RunAction::Ignore));
    let late = ProbeEvent::DownloadFinished(DownloadResult { avg_speed_kbps: 9 });
    assert!(matches!(run.step(late, false), RunAction::Ignore));
    let late = ProbeEvent::UploadFinished(UploadResult { avg_speed_kbps: 9 });
    assert!(matches!(run.step(late, false), RunAction::Ignore));
    assert_eq!(run.phase(), TestPhase::Idle);
}

#[test]
fn cancellation_is_seen_in_every_stage() {
    let (mut run, _) = SpeedTestRun::start(small());
    assert!(matches!(run.step(ping_progress(Some(1)), true), RunAction::Abort));
    assert_eq!(run.phase(), TestPhase::Idle);

    let (mut run, _) = SpeedTestRun::start(small());
    run.step(ProbeEvent::PingFinished(PingResult { avg_us: 1, jitter_us: 0 }), false);
    run.step(ProbeEvent::DownloadFinished(DownloadResult { avg_speed_kbps: 1 }), false);
    assert!(matches!(run.step(upload_progress(5), true), RunAction::Abort));
    assert_eq!(run.phase(), TestPhase::Idle);
}

#[test]
fn the_end_of_a_probe_does_not_look_at_the_signal() {
    let (mut run, _) = SpeedTestRun::start(small());
    let done = ProbeEvent::PingFinished(PingResult { avg_us: 3, jitter_us: 1 });
    assert!(matches!(run.step(done, true), RunAction::Advance(_, _)));
    assert_eq!(run.phase(), TestPhase::Download);
}

#[test]
fn a_failed_probe_ends_the_run() {
    let (mut run, _) = SpeedTestRun::start(small());
    assert!(matches!(run.step(ProbeEvent::Failed, false), RunAction::Fail));
    assert_eq!(run.phase(), TestPhase::Idle);
    assert!(matches!(run.step(ProbeEvent::Failed, false), RunAction::Ignore));

    let (mut run, _) = SpeedTestRun::start(small());
    run.step(ProbeEvent::PingFinished(PingResult { avg_us: 1, jitter_us: 0 }), false);
    assert!(matches!(run.step(ProbeEvent::Failed, true), RunAction::Fail));
    assert_eq!(run.phase(), TestPhase::Idle);
}

#[test]
fn events_of_another_stage_are_dropped() {
    let (mut run, _) = SpeedTestRun::start(small());
    assert!(matches!(run.step(download_progress(1), false), RunAction::Ignore));
    assert!(matches!(run.step(upload_progress(1), true), RunAction::Ignore));
    let other = ProbeEvent::UploadFinished(UploadResult { avg_speed_kbps: 1 });
    assert!(matches!(run.step(other, false), RunAction::Ignore));
    assert_eq!(run.phase(), TestPhase::Ping);
}

#[test]
fn a_complete_run_takes_no_more_events() {
    let mut run = SpeedTestRun { phase: TestPhase::Complete, settings: small() };
    assert!(matches!(run.step(upload_progress(1), true), RunAction::Ignore));
    assert!(matches!(run.step(ProbeEvent::Failed, false), RunAction::Ignore));
    assert_eq!(run.phase(), TestPhase::Complete);
}

#[test]
fn run_against_a_steady_endpoint() {
    // Five probes answered in 50 ms each; 25 MB read at 100 Mb/s.
    let (mut run, probe) = SpeedTestRun::start(small());
    let count = match probe {
        ProbeSpec::Ping { count } => count,
        other => panic!("unexpected probe {:?}", other),
    };
    let mut ping = PingTest::new(count);
    let mut forwarded = 0;
    while ping.remaining() > 0 {
        let progress = ping.record(Some(50_000)).unwrap();
        if let RunAction::Forward(_) = run.step(ProbeEvent::PingProgress(progress), false) {
            forwarded += 1;
        }
    }
    assert_eq!(forwarded, 5);
    let action = run.step(ProbeEvent::PingFinished(ping.calculate_result()), false);
    let bytes = match action {
        RunAction::Advance(TestUpdate::PingComplete { avg_us, jitter_us }, probe) => {
            assert_eq!(avg_us, 50_000);
            assert_eq!(jitter_us, 0);
            match probe {
                ProbeSpec::Download { bytes } => bytes,
                other => panic!("unexpected probe {:?}", other),
            }
        }
        other => panic!("unexpected action {:?}", other),
    };
    assert_eq!(bytes, 25_000_000);
    let mut download = DownloadTest::new(bytes);
    download.begin(Some(bytes));
    let mut now: u64 = 0;
    let mut read: u64 = 0;
    while read < bytes {
        now += 1_000;
        read += 12_500;
        if let Some(progress) = download.on_chunk(12_500, now) {
            let action = run.step(ProbeEvent::DownloadProgress(progress), false);
            assert!(matches!(action, RunAction::Forward(TestUpdate::DownloadProgress(_))));
        }
    }
    let action = run.step(ProbeEvent::DownloadFinished(download.finish(now)), false);
    match action {
        RunAction::Advance(TestUpdate::DownloadComplete { speed_kbps }, _) => {
            assert_eq!(speed_kbps, 100_000)
        }
        other => panic!("unexpected action {:?}", other),
    }
    assert_eq!(run.phase(), TestPhase::Upload);
}

#[test]
fn a_failure_is_sent_to_the_consumer() {
    let (mut run, _) = SpeedTestRun::start(small());
    run.step(ProbeEvent::PingFinished(PingResult { avg_us: 1, jitter_us: 0 }), false);
    let action = run.step(ProbeEvent::Failed, false);
    assert!(!action.is_abort());
    let (notice, next) = action.into_parts();
    assert!(matches!(notice, Some(RunNotice::Failed)));
    assert_eq!(next, None);
    assert_eq!(run.phase(), TestPhase::Idle);
}

#[test]
fn actions_come_apart_into_notice_and_next_probe() {
    let (mut run, _) = SpeedTestRun::start(small());
    let (notice, next) = run.step(ping_progress(Some(3)), false).into_parts();
    match notice {
        Some(RunNotice::Update(TestUpdate::PingProgress(p))) => {
            assert_eq!(p.latest_ping, Some(3))
        }
        other => panic!("unexpected notice {:?}", other),
    }
    assert_eq!(next, None);
    let done = ProbeEvent::PingFinished(PingResult { avg_us: 4, jitter_us: 2 });
    let (notice, next) = run.step(done, false).into_parts();
    match notice {
        Some(RunNotice::Update(TestUpdate::PingComplete { avg_us, jitter_us })) => {
            assert_eq!((avg_us, jitter_us), (4, 2))
        }
        other => panic!("unexpected notice {:?}", other),
    }
    assert_eq!(next, Some(ProbeSpec::Download { bytes: 25_000_000 }));
    let action = run.step(download_progress(1), true);
    assert!(action.is_abort());
    let (notice, next) = action.into_parts();
    assert!(notice.is_none());
    assert_eq!(next, None);
    let (notice, next) = run.step(download_progress(2), false).into_parts();
    assert!(notice.is_none());
    assert_eq!(next, None);
}
