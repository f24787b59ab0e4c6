use vstd::prelude::*;
use crate::speedtest::window::{most_recent, SampleWindow};

verus! {

/// Shortest time between two throughput samples, in microseconds.
pub const SAMPLE_INTERVAL_US: u64 = 100_000;

/// Kilobits per second carried by one byte per microsecond.
pub const KBPS_PER_BYTE_PER_US: u64 = 8_000;

/// Throughput in kilobits per second of `bytes` moved in `elapsed_us`
/// microseconds, rounded down. It stops at the largest `u64`; a transfer of
/// some bytes in no measurable time is reported at that ceiling, and one of
/// no bytes in no time as zero.
pub open spec fn throughput_kbps(bytes: nat, elapsed_us: nat) -> nat {
    if elapsed_us == 0 {
        if bytes == 0 {
            0
        } else {
            u64::MAX as nat
        }
    } else if bytes * KBPS_PER_BYTE_PER_US as nat / elapsed_us > u64::MAX {
        u64::MAX as nat
    } else {
        bytes * KBPS_PER_BYTE_PER_US as nat / elapsed_us
    }
}

/// Computes `throughput_kbps`.
pub fn throughput(bytes: u64, elapsed_us: u64) -> (r: u64)
    ensures
        r == throughput_kbps(bytes as nat, elapsed_us as nat),
{
    if elapsed_us == 0 {
        if bytes == 0 {
            0
        } else {
            u64::MAX
        }
    } else {
        let wide: u128 = bytes as u128;
        assert(wide * 8_000 <= u128::MAX) by (nonlinear_arith)
            requires
                wide <= u64::MAX,
        ;
        let bits: u128 = wide * (KBPS_PER_BYTE_PER_US as u128);
        let rate: u128 = bits / (elapsed_us as u128);
        if rate > u64::MAX as u128 {
            u64::MAX
        } else {
            rate as u64
        }
    }
}

/// The state of interval sampling, as the contracts speak of it.
pub struct SamplerModel {
    /// Shortest time between two samples, in microseconds.
    pub interval_us: u64,
    /// Bytes moved since the transfer began.
    pub transferred: nat,
    /// Time of the last sample, in microseconds since the transfer began.
    pub anchor_us: u64,
    /// Bytes moved up to the last sample.
    pub anchor_bytes: nat,
    /// The recent samples, oldest first.
    pub window: Seq<u64>,
    /// The most samples the window holds.
    pub capacity: nat,
}

impl SamplerModel {
    /// The state at the start of a transfer.
    pub open spec fn start(interval_us: u64, capacity: nat) -> SamplerModel {
        SamplerModel {
            interval_us,
            transferred: 0,
            anchor_us: 0,
            anchor_bytes: 0,
            window: Seq::empty(),
            capacity,
        }
    }

    /// Time from the last sample to `now_us`; zero where the clock reads
    /// earlier than it did at that sample.
    pub open spec fn since_anchor(self, now_us: u64) -> nat {
        if now_us >= self.anchor_us {
            (now_us - self.anchor_us) as nat
        } else {
            0
        }
    }

    /// Whether progress seen at `now_us` gives a new sample.
    pub open spec fn due(self, now_us: u64) -> bool {
        self.since_anchor(now_us) >= self.interval_us
    }

    /// The sample that progress of `len` more bytes at `now_us` would give.
    pub open spec fn sample_at(self, len: nat, now_us: u64) -> u64 {
        throughput_kbps(
            (self.transferred + len - self.anchor_bytes) as nat,
            self.since_anchor(now_us),
        ) as u64
    }

    /// The state after `len` more bytes were seen at `now_us`.
    pub open spec fn advance(self, len: nat, now_us: u64) -> SamplerModel {
        if self.due(now_us) {
            SamplerModel {
                transferred: self.transferred + len,
                anchor_us: now_us,
                anchor_bytes: self.transferred + len,
                window: most_recent(self.window.push(self.sample_at(len, now_us)), self.capacity),
                ..self
            }
        } else {
            SamplerModel { transferred: self.transferred + len, ..self }
        }
    }

    /// The state after each step of `steps`, a number of bytes and the time
    /// at which they were seen, was taken in turn.
    pub open spec fn advance_all(self, steps: Seq<(nat, u64)>) -> SamplerModel
        decreases steps.len(),
    {
        if steps.len() == 0 {
            self
        } else {
            self.advance_all(steps.drop_last()).advance(steps.last().0, steps.last().1)
        }
    }
}

/// Bytes moved by `steps` in all.
pub open spec fn total_len(steps: Seq<(nat, u64)>) -> nat
    decreases steps.len(),
{
    if steps.len() == 0 {
        0
    } else {
        total_len(steps.drop_last()) + steps.last().0
    }
}

/// The count of bytes moved is the sum of the steps, whatever the sampling
/// interval and whatever the times at which the steps were seen.
pub proof fn lemma_transferred_is_total(model: SamplerModel, steps: Seq<(nat, u64)>)
    ensures
        model.advance_all(steps).transferred == model.transferred + total_len(steps),
        model.advance_all(steps).interval_us == model.interval_us,
        model.advance_all(steps).capacity == model.capacity,
    decreases steps.len(),
{
    if steps.len() > 0 {
        lemma_transferred_is_total(model, steps.drop_last());
    }
}

/// The average over a whole transfer does not depend on how finely progress
/// was sampled: two samplers that differ in their interval and see the same
/// steps report the same average for the same elapsed time.
pub proof fn lemma_average_ignores_interval(
    fine: SamplerModel,
    coarse: SamplerModel,
    steps: Seq<(nat, u64)>,
    elapsed_us: nat,
)
    requires
        fine.transferred == coarse.transferred,
    ensures
        throughput_kbps(fine.advance_all(steps).transferred, elapsed_us) == throughput_kbps(
            coarse.advance_all(steps).transferred,
            elapsed_us,
        ),
{
    lemma_transferred_is_total(fine, steps);
    lemma_transferred_is_total(coarse, steps);
}

/// Counts the bytes of a transfer and, each time the sampling interval has
/// passed, turns the bytes moved since the last sample into a throughput
/// sample in a bounded window.
pub struct ThroughputSampler {
    window: SampleWindow,
    interval_us: u64,
    transferred: u64,
    anchor_us: u64,
    anchor_bytes: u64,
}

impl View for ThroughputSampler {
    type V = SamplerModel;

    closed spec fn view(&self) -> SamplerModel {
        SamplerModel {
            interval_us: self.interval_us,
            transferred: self.transferred as nat,
            anchor_us: self.anchor_us,
            anchor_bytes: self.anchor_bytes as nat,
            window: self.window@,
            capacity: self.window.spec_capacity(),
        }
    }
}

impl ThroughputSampler {
    /// The window is within its capacity and the last sample lies behind the
    /// count of bytes.
    pub closed spec fn wf(&self) -> bool {
        &&& self.window.wf()
        &&& self.anchor_bytes <= self.transferred
    }

    /// What well-formedness says of the model.
    pub proof fn lemma_wf(&self)
        requires
            self.wf(),
        ensures
            self@.anchor_bytes <= self@.transferred <= u64::MAX,
            self@.window.len() <= self@.capacity,
    {
        self.window.lemma_bounded();
    }

    /// A sampler at the start of a transfer.
    pub fn new(interval_us: u64, capacity: usize) -> (s: ThroughputSampler)
        ensures
            s.wf(),
            s@ == SamplerModel::start(interval_us, capacity as nat),
    {
        ThroughputSampler {
            window: SampleWindow::new(capacity),
            interval_us,
            transferred: 0,
            anchor_us: 0,
            anchor_bytes: 0,
        }
    }

    /// Puts the sampler back to the start of a transfer.
    pub fn reset(&mut self)
        ensures
            final(self).wf(),
            final(self)@ == SamplerModel::start(old(self)@.interval_us, old(self)@.capacity),
    {
        self.window.clear();
        self.transferred = 0;
        self.anchor_us = 0;
        self.anchor_bytes = 0;
    }

    /// Bytes moved since the transfer began.
    pub fn transferred(&self) -> (n: u64)
        ensures
            n == self@.transferred,
    {
        self.transferred
    }

    /// A copy of the recent samples, oldest first.
    pub fn snapshot(&self) -> (v: Vec<u64>)
        ensures
            v@ == self@.window,
    {
        self.window.snapshot()
    }

    /// Takes note of `len` more bytes seen at `now_us`, microseconds since
    /// the transfer began. Returns whether that gave a new sample.
    pub fn record(&mut self, len: u64, now_us: u64) -> (sampled: bool)
        requires
            old(self).wf(),
            old(self)@.transferred + len <= u64::MAX,
        ensures
            final(self).wf(),
            final(self)@ == old(self)@.advance(len as nat, now_us),
            sampled == old(self)@.due(now_us),
    {
        self.transferred = self.transferred + len;
        let interval: u64 = now_us.saturating_sub(self.anchor_us);
        if interval >= self.interval_us {
            let delta: u64 = self.transferred - self.anchor_bytes;
            let sample: u64 = throughput(delta, interval);
            self.window.push(sample);
            self.anchor_us = now_us;
            self.anchor_bytes = self.transferred;
            true
        } else {
            false
        }
    }
}

} // verus!
