use vstd::prelude::*;
use crate::app::TransferProgress;
use crate::speedtest::TestPhase;

verus! {

/// Sum of the samples.
pub open spec fn total(samples: Seq<u64>) -> nat
    decreases samples.len(),
{
    if samples.len() == 0 {
        0
    } else {
        total(samples.drop_last()) + samples.last() as nat
    }
}

/// Whether `m` is the largest of the samples.
pub open spec fn is_max(samples: Seq<u64>, m: u64) -> bool {
    &&& samples.contains(m)
    &&& forall|i: int| 0 <= i < samples.len() ==> samples[i] <= m
}

/// Whether `m` is the smallest of the samples.
pub open spec fn is_min(samples: Seq<u64>, m: u64) -> bool {
    &&& samples.contains(m)
    &&& forall|i: int| 0 <= i < samples.len() ==> samples[i] >= m
}

/// Average, rounded down, largest and smallest of the samples of a chart.
#[derive(Debug, Clone, Copy, PartialEq, Eq, Structural)]
pub struct SampleStats {
    pub avg: u64,
    pub max: u64,
    pub min: u64,
}

proof fn lemma_total_bounded(samples: Seq<u64>)
    ensures
        total(samples) <= samples.len() * u64::MAX,
    decreases samples.len(),
{
    if samples.len() > 0 {
        lemma_total_bounded(samples.drop_last());
        assert(samples.len() * u64::MAX == (samples.len() - 1) * u64::MAX + u64::MAX)
            by (nonlinear_arith);
    }
}

/// The figures shown beside a chart: all zero for an empty one.
pub fn get_stats(data: &Vec<u64>) -> (stats: SampleStats)
    ensures
        data@.len() == 0 ==> stats == (SampleStats { avg: 0, max: 0, min: 0 }),
        data@.len() > 0 ==> {
            &&& stats.avg == total(data@) / data@.len()
            &&& is_max(data@, stats.max)
            &&& is_min(data@, stats.min)
        },
{
    let n: usize = data.len();
    if n == 0 {
        return SampleStats { avg: 0, max: 0, min: 0 };
    }
    let mut sum: u128 = data[0] as u128;
    let mut max: u64 = data[0];
    let mut min: u64 = data[0];
    let mut i: usize = 1;
    assert(data@.subrange(0, 1).drop_last() =~= Seq::<u64>::empty());
    assert(total(data@.subrange(0, 1).drop_last()) == 0);
    while i < n
        invariant
            1 <= i <= n,
            n == data@.len(),
            sum == total(data@.subrange(0, i as int)),
            exists|j: int| 0 <= j < i && data@[j] == max,
            exists|j: int| 0 <= j < i && data@[j] == min,
            forall|j: int| 0 <= j < i ==> data@[j] <= max,
            forall|j: int| 0 <= j < i ==> data@[j] >= min,
        decreases n - i,
    {
        let x: u64 = data[i];
        proof {
            let next = data@.subrange(0, i + 1);
            assert(next.drop_last() =~= data@.subrange(0, i as int));
            lemma_total_bounded(next);
            assert(next.len() * u64::MAX <= usize::MAX * u64::MAX) by (nonlinear_arith)
                requires
                    next.len() <= usize::MAX,
            ;
            assert(usize::MAX * u64::MAX <= u64::MAX * u64::MAX) by (nonlinear_arith)
                requires
                    usize::MAX <= u64::MAX,
            ;
        }
        sum = sum + x as u128;
        if x > max {
            max = x;
        }
        if x < min {
            min = x;
        }
        i += 1;
    }
    assert(data@.subrange(0, n as int) =~= data@);
    let avg: u128 = sum / (n as u128);
    proof {
        lemma_total_bounded(data@);
        assert(sum / (n as u128) <= u64::MAX) by (nonlinear_arith)
            requires
                sum <= n * u64::MAX,
                n > 0,
        ;
    }
    SampleStats { avg: avg as u64, max, min }
}

/// Smallest and largest sample of a chart, for its vertical axis; both zero
/// for an empty chart.
pub fn get_data_range(data: &Vec<u64>) -> (range: (u64, u64))
    ensures
        data@.len() == 0 ==> range == (0u64, 0u64),
        data@.len() > 0 ==> is_min(data@, range.0) && is_max(data@, range.1),
{
    let stats = get_stats(data);
    (stats.min, stats.max)
}

/// The figure shown for a stage: its summary once there is one, else the
/// newest sample of its chart, else zero.
pub fn current_value(summary: u64, samples: &Vec<u64>) -> (shown: u64)
    ensures
        shown == (if summary > 0 {
            summary
        } else if samples@.len() > 0 {
            samples@.last()
        } else {
            0
        }),
{
    if summary > 0 {
        summary
    } else if samples.len() > 0 {
        samples[samples.len() - 1]
    } else {
        0
    }
}

/// Number of cells, out of `width`, that a bar fills for `progress`: the
/// share of the bytes done, rounded down and never more than the width. A
/// transfer of unknown size fills the bar as soon as a byte has moved.
pub open spec fn bar_cells(progress: TransferProgress, width: nat) -> nat {
    if progress.bytes_total == 0 {
        if progress.bytes_done == 0 {
            0
        } else {
            width
        }
    } else if progress.bytes_done >= progress.bytes_total {
        width
    } else {
        progress.bytes_done as nat * width / progress.bytes_total as nat
    }
}

/// Computes `bar_cells`.
pub fn bar_fill(progress: TransferProgress, width: usize) -> (cells: usize)
    ensures
        cells == bar_cells(progress, width as nat),
        cells <= width,
{
    if progress.bytes_total == 0 {
        if progress.bytes_done == 0 {
            0
        } else {
            width
        }
    } else if progress.bytes_done >= progress.bytes_total {
        width
    } else {
        let done: u128 = progress.bytes_done as u128;
        let total: u128 = progress.bytes_total as u128;
        let cells: u128 = width as u128;
        assert(done * cells <= u64::MAX * u64::MAX) by (nonlinear_arith)
            requires
                done <= u64::MAX,
                cells <= u64::MAX,
        ;
        assert((done * cells) / (total as int) <= cells) by (nonlinear_arith)
            requires
                0 <= done < total,
                0 <= cells,
        ;
        (done * cells / total) as usize
    }
}

/// The progress that the download panel shows in stage `phase`: that of the
/// transfer while it runs, a full bar once the stage is behind, an empty
/// one before.
pub fn calculate_download_progress(phase: TestPhase, progress: TransferProgress) -> (shown:
    TransferProgress)
    ensures
        shown == (match phase {
            TestPhase::Download => progress,
            TestPhase::Upload | TestPhase::Complete => TransferProgress {
                bytes_done: 1,
                bytes_total: 1,
            },
            _ => TransferProgress { bytes_done: 0, bytes_total: 1 },
        }),
{
    match phase {
        TestPhase::Download => progress,
        TestPhase::Upload | TestPhase::Complete => TransferProgress {
            bytes_done: 1,
            bytes_total: 1,
        },
        _ => TransferProgress { bytes_done: 0, bytes_total: 1 },
    }
}

/// The progress that the upload panel shows in stage `phase`: that of the
/// transfer while it runs, a full bar once the run is complete, an empty
/// one before.
pub fn calculate_upload_progress(phase: TestPhase, progress: TransferProgress) -> (shown:
    TransferProgress)
    ensures
        shown == (match phase {
            TestPhase::Upload => progress,
            TestPhase::Complete => TransferProgress { bytes_done: 1, bytes_total: 1 },
            _ => TransferProgress { bytes_done: 0, bytes_total: 1 },
        }),
{
    match phase {
        TestPhase::Upload => progress,
        TestPhase::Complete => TransferProgress { bytes_done: 1, bytes_total: 1 },
        _ => TransferProgress { bytes_done: 0, bytes_total: 1 },
    }
}

/// How a stage is marked in the header.
#[derive(Debug, Clone, Copy, PartialEq, Eq, Structural)]
pub enum StageMark {
    Active,
    Done,
    Pending,
}

/// Place of a stage in the order of a run.
pub open spec fn stage_rank(phase: TestPhase) -> int {
    match phase {
        TestPhase::Idle => 0,
        TestPhase::Ping => 1,
        TestPhase::Download => 2,
        TestPhase::Upload => 3,
        TestPhase::Complete => 4,
    }
}

/// The mark of `stage`, one of the three measuring stages, while the run
/// is in `phase`: active where it is the stage of the run, done where the
/// run is past it, pending otherwise.
pub fn stage_mark(phase: TestPhase, stage: TestPhase) -> (mark: StageMark)
    requires
        stage == TestPhase::Ping || stage == TestPhase::Download || stage == TestPhase::Upload,
    ensures
        mark == (if phase == stage {
            StageMark::Active
        } else if stage_rank(phase) > stage_rank(stage) {
            StageMark::Done
        } else {
            StageMark::Pending
        }),
{
    match (phase, stage) {
        (TestPhase::Ping, TestPhase::Ping) => StageMark::Active,
        (TestPhase::Download, TestPhase::Download) => StageMark::Active,
        (TestPhase::Upload, TestPhase::Upload) => StageMark::Active,
        (TestPhase::Download, TestPhase::Ping) => StageMark::Done,
        (TestPhase::Upload, TestPhase::Ping) => StageMark::Done,
        (TestPhase::Upload, TestPhase::Download) => StageMark::Done,
        (TestPhase::Complete, _) => StageMark::Done,
        _ => StageMark::Pending,
    }
}

/// The unit in which a throughput is shown.
#[derive(Debug, Clone, Copy, PartialEq, Eq, Structural)]
pub enum SpeedUnit {
    /// Nothing measured: a dash is shown.
    Nothing,
    Kbps,
    Mbps,
    Gbps,
}

/// The unit for a throughput of `kbps` kilobits per second: the largest of
/// which it makes at least one.
pub fn speed_unit(kbps: u64) -> (unit: SpeedUnit)
    ensures
        unit == (if kbps >= 1_000_000 {
            SpeedUnit::Gbps
        } else if kbps >= 1_000 {
            SpeedUnit::Mbps
        } else if kbps > 0 {
            SpeedUnit::Kbps
        } else {
            SpeedUnit::Nothing
        }),
{
    if kbps >= 1_000_000 {
        SpeedUnit::Gbps
    } else if kbps >= 1_000 {
        SpeedUnit::Mbps
    } else if kbps > 0 {
        SpeedUnit::Kbps
    } else {
        SpeedUnit::Nothing
    }
}

} // verus!
