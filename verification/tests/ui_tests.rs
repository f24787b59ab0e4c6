use ericspeed::app::TransferProgress;
use ericspeed::speedtest::TestPhase;
use ericspeed::ui::{
    bar_fill, calculate_download_progress, calculate_upload_progress, current_value,
    get_data_range, get_stats, speed_unit, stage_mark, SampleStats, SpeedUnit, StageMark,
};

fn progress(done: u64, total: u64) -> TransferProgress {
    TransferProgress { bytes_done: done, bytes_total: total }
}

#[test]
fn stats_of_a_chart() {
    assert_eq!(get_stats(&vec![]), SampleStats { avg: 0, max: 0, min: 0 });
    assert_eq!(get_stats(&vec![7]), SampleStats { avg: 7, max: 7, min: 7 });
    assert_eq!(get_stats(&vec![4, 9, 2, 6]), SampleStats { avg: 5, max: 9, min: 2 });
    assert_eq!(get_stats(&vec![1, 2]), SampleStats { avg: 1, max: 2, min: 1 });
    assert_eq!(
        get_stats(&vec![u64::MAX, u64::MAX, u64::MAX - 3]),
        SampleStats { avg: u64::MAX - 1, max: u64::MAX, min: u64::MAX - 3 }
    );
}

#[test]
fn range_of_a_chart() {
    assert_eq!(get_data_range(&vec![]), (0, 0));
    assert_eq!(get_data_range(&vec![5, 1, 8]), (1, 8));
    assert_eq!(get_data_range(&vec![3]), (3, 3));
}

#[test]
fn summary_comes_before_the_newest_sample() {
    assert_eq!(current_value(0, &vec![]), 0);
    assert_eq!(current_value(0, &vec![3, 8]), 8);
    assert_eq!(current_value(5, &vec![3, 8]), 5);
    assert_eq!(current_value(5, &vec![]), 5);
}

#[test]
fn bar_fill_is_the_share_of_the_width() {
    assert_eq!(bar_fill(progress(0, 100), 40), 0);
    assert_eq!(bar_fill(progress(25, 100), 40), 10);
    assert_eq!(bar_fill(progress(99, 100), 40), 39);
    assert_eq!(bar_fill(progress(100, 100), 40), 40);
    assert_eq!(bar_fill(progress(150, 100), 40), 40);
    assert_eq!(bar_fill(progress(1, 3), 10), 3);
    assert_eq!(bar_fill(progress(0, 0), 10), 0);
    assert_eq!(bar_fill(progress(5, 0), 10), 10);
    assert_eq!(bar_fill(progress(5, 10), 0), 0);
    assert_eq!(bar_fill(progress(u64::MAX - 1, u64::MAX), usize::MAX), usize::MAX - 1);
}

#[test]
fn shown_progress_follows_the_stage() {
    let p = progress(3, 9);
    assert_eq!(calculate_download_progress(TestPhase::Idle, p), progress(0, 1));
    assert_eq!(calculate_download_progress(TestPhase::Ping, p), progress(0, 1));
    assert_eq!(calculate_download_progress(TestPhase::Download, p), p);
    assert_eq!(calculate_download_progress(TestPhase::Upload, p), progress(1, 1));
    assert_eq!(calculate_download_progress(TestPhase::Complete, p), progress(1, 1));
    assert_eq!(calculate_upload_progress(TestPhase::Idle, p), progress(0, 1));
    assert_eq!(calculate_upload_progress(TestPhase::Ping, p), progress(0, 1));
    assert_eq!(calculate_upload_progress(TestPhase::Download, p), progress(0, 1));
    assert_eq!(calculate_upload_progress(TestPhase::Upload, p), p);
    assert_eq!(calculate_upload_progress(TestPhase::Complete, p), progress(1, 1));
}

#[test]
fn stage_marks_in_the_header() {
    let stages = [TestPhase::Ping, TestPhase::Download, TestPhase::Upload];
    let marks = |phase: TestPhase| -> Vec<StageMark> {
        stages.iter().map(|s| stage_mark(phase, *s)).collect()
    };
    let (active, done, pending) = (StageMark::Active, StageMark::Done, StageMark::Pending);
    assert_eq!(marks(TestPhase::Idle), vec![pending, pending, pending]);
    assert_eq!(marks(TestPhase::Ping), vec![active, pending, pending]);
    assert_eq!(marks(TestPhase::Download), vec![done, active, pending]);
    assert_eq!(marks(TestPhase::Upload), vec![done, done, active]);
    assert_eq!(marks(TestPhase::Complete), vec![done, done, done]);
}

#[test]
fn speed_units() {
    assert_eq!(speed_unit(0), SpeedUnit::Nothing);
    assert_eq!(speed_unit(1), SpeedUnit::Kbps);
    assert_eq!(speed_unit(999), SpeedUnit::Kbps);
    assert_eq!(speed_unit(1_000), SpeedUnit::Mbps);
    assert_eq!(speed_unit(999_999), SpeedUnit::Mbps);
    assert_eq!(speed_unit(1_000_000), SpeedUnit::Gbps);
    assert_eq!(speed_unit(u64::MAX), SpeedUnit::Gbps);
}
