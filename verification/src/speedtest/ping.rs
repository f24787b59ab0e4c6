use vstd::prelude::*;

verus! {

/// Most probes one latency measurement may make: with no more than these,
/// the sums behind mean and jitter fit 128 bits.
pub const PING_COUNT_LIMIT: usize = 0xFFFF_FFFF;

/// Sum of the samples.
pub open spec fn sum(samples: Seq<u32>) -> nat
    decreases samples.len(),
{
    if samples.len() == 0 {
        0
    } else {
        sum(samples.drop_last()) + samples.last() as nat
    }
}

/// Sum of the squares of the samples.
pub open spec fn sum_squares(samples: Seq<u32>) -> nat
    decreases samples.len(),
{
    if samples.len() == 0 {
        0
    } else {
        sum_squares(samples.drop_last()) + (samples.last() as nat) * (samples.last() as nat)
    }
}

/// Arithmetic mean of the samples, rounded down; zero where there is none.
pub open spec fn mean(samples: Seq<u32>) -> nat {
    if samples.len() == 0 {
        0
    } else {
        sum(samples) / samples.len()
    }
}

/// Sample variance of the samples, with n - 1 in the denominator, rounded
/// down; zero where there are fewer than two. It is written without a
/// rounded mean: n times the sum of squares less the square of the sum, over
/// n (n - 1).
pub open spec fn variance(samples: Seq<u32>) -> nat {
    if samples.len() < 2 {
        0
    } else {
        ((samples.len() * sum_squares(samples) - sum(samples) * sum(samples)) / (samples.len() * (
        samples.len() - 1))) as nat
    }
}

/// Whether `root` is the square root of `value`, rounded down.
pub open spec fn is_floor_sqrt(value: nat, root: nat) -> bool {
    root * root <= value < (root + 1) * (root + 1)
}

/// The sum of squares less twice a number times the sum, plus the count
/// times the number's square, is a sum of squared distances, so not negative.
proof fn lemma_spread_about(samples: Seq<u32>, x: int)
    ensures
        sum_squares(samples) - 2 * x * sum(samples) + samples.len() * x * x >= 0,
    decreases samples.len(),
{
    let n = samples.len() as int;
    let q1 = sum_squares(samples) as int;
    let s1 = sum(samples) as int;
    if samples.len() > 0 {
        let rest = samples.drop_last();
        let y = samples.last() as int;
        lemma_spread_about(rest, x);
        let q = sum_squares(rest) as int;
        let s = sum(rest) as int;
        let k = rest.len() as int;
        assert(q1 - 2 * x * s1 + n * x * x >= 0) by (nonlinear_arith)
            requires
                q - 2 * x * s + k * x * x >= 0,
                q1 == q + y * y,
                s1 == s + y,
                n == k + 1,
        ;
    } else {
        assert(q1 - 2 * x * s1 + n * x * x >= 0) by (nonlinear_arith)
            requires
                q1 == 0,
                s1 == 0,
                n == 0,
        ;
    }
}

/// The count times the sum of squares is at least the square of the sum.
pub proof fn lemma_variance_not_negative(samples: Seq<u32>)
    ensures
        samples.len() * sum_squares(samples) >= sum(samples) * sum(samples),
    decreases samples.len(),
{
    let n = samples.len() as int;
    let q1 = sum_squares(samples) as int;
    let s1 = sum(samples) as int;
    if samples.len() > 0 {
        let rest = samples.drop_last();
        let y = samples.last() as int;
        lemma_variance_not_negative(rest);
        lemma_spread_about(rest, y);
        let q = sum_squares(rest) as int;
        let s = sum(rest) as int;
        let k = rest.len() as int;
        assert(n * q1 >= s1 * s1) by (nonlinear_arith)
            requires
                k * q >= s * s,
                q - 2 * y * s + k * y * y >= 0,
                q1 == q + y * y,
                s1 == s + y,
                n == k + 1,
        ;
    } else {
        assert(n * q1 >= s1 * s1) by (nonlinear_arith)
            requires
                s1 == 0,
                n == 0,
        ;
    }
}

/// Each sample is below 2^32, which bounds both sums by the count.
proof fn lemma_sums_bounded(samples: Seq<u32>)
    ensures
        sum(samples) <= samples.len() * 0xFFFF_FFFF,
        sum_squares(samples) <= samples.len() * 0xFFFF_FFFE_0000_0001,
    decreases samples.len(),
{
    if samples.len() > 0 {
        lemma_sums_bounded(samples.drop_last());
        let y = samples.last() as int;
        assert(y * y <= 0xFFFF_FFFE_0000_0001) by (nonlinear_arith)
            requires
                0 <= y <= 0xFFFF_FFFF,
        ;
    }
}

/// The square root of `value`, rounded down.
pub fn floor_sqrt(value: u128) -> (root: u64)
    ensures
        is_floor_sqrt(value as nat, root as nat),
{
    let mut lo: u128 = 0;
    let mut hi: u128 = 0x1_0000_0000_0000_0000;
    assert(0x1_0000_0000_0000_0000int * 0x1_0000_0000_0000_0000int > u128::MAX) by (nonlinear_arith);
    while hi - lo > 1
        invariant
            lo < hi <= 0x1_0000_0000_0000_0000,
            lo * lo <= value < hi * hi,
        decreases hi - lo,
    {
        let mid: u128 = lo + (hi - lo) / 2;
        assert(mid * mid <= u128::MAX) by (nonlinear_arith)
            requires
                mid <= 0xFFFF_FFFF_FFFF_FFFF,
        ;
        if mid * mid <= value {
            lo = mid;
        } else {
            hi = mid;
        }
    }
    lo as u64
}

/// What the consumer is told after each probe: the round-trip time, in
/// microseconds, of a probe that was answered, nothing for one that failed.
#[derive(Debug, Clone, Copy, PartialEq, Eq, Structural)]
pub struct PingProgress {
    pub latest_ping: Option<u32>,
}

/// Summary of a latency measurement, in microseconds.
#[derive(Debug, Clone, Copy, PartialEq, Eq, Structural)]
pub struct PingResult {
    pub avg_us: u64,
    pub jitter_us: u64,
}

/// Mean and jitter of `samples`: jitter is the sample standard deviation,
/// zero for fewer than two samples; both are rounded down, and both are zero
/// where there is no sample.
pub fn latency_stats(samples: &Vec<u32>) -> (r: PingResult)
    requires
        samples@.len() <= PING_COUNT_LIMIT,
    ensures
        r.avg_us == mean(samples@),
        is_floor_sqrt(variance(samples@), r.jitter_us as nat),
{
    let n: usize = samples.len();
    if n == 0 {
        assert(is_floor_sqrt(0, 0)) by (nonlinear_arith);
        return PingResult { avg_us: 0, jitter_us: 0 };
    }
    let mut total: u128 = 0;
    let mut squares: u128 = 0;
    let mut i: usize = 0;
    while i < n
        invariant
            i <= n,
            n == samples@.len(),
            n <= PING_COUNT_LIMIT,
            total == sum(samples@.subrange(0, i as int)),
            squares == sum_squares(samples@.subrange(0, i as int)),
        decreases n - i,
    {
        let x: u128 = samples[i] as u128;
        proof {
            let next = samples@.subrange(0, i + 1);
            assert(next.drop_last() =~= samples@.subrange(0, i as int));
            assert(next.last() == samples@[i as int]);
            lemma_sums_bounded(next);
            assert(next.len() * 0xFFFF_FFFE_0000_0001 <= 0xFFFF_FFFF * 0xFFFF_FFFE_0000_0001)
                by (nonlinear_arith)
                requires
                    next.len() <= 0xFFFF_FFFF,
            ;
            assert(next.len() * 0xFFFF_FFFF <= 0xFFFF_FFFF * 0xFFFF_FFFF) by (nonlinear_arith)
                requires
                    next.len() <= 0xFFFF_FFFF,
            ;
            assert(x * x <= 0xFFFF_FFFE_0000_0001) by (nonlinear_arith)
                requires
                    0 <= x <= 0xFFFF_FFFF,
            ;
        }
        total = total + x;
        squares = squares + x * x;
        i += 1;
    }
    proof {
        assert(samples@.subrange(0, n as int) =~= samples@);
        lemma_sums_bounded(samples@);
        lemma_variance_not_negative(samples@);
        assert(samples@.len() * 0xFFFF_FFFE_0000_0001 <= 0xFFFF_FFFF * 0xFFFF_FFFE_0000_0001)
            by (nonlinear_arith)
            requires
                samples@.len() <= 0xFFFF_FFFF,
        ;
        assert(samples@.len() * 0xFFFF_FFFF <= 0xFFFF_FFFF * 0xFFFF_FFFF) by (nonlinear_arith)
            requires
                samples@.len() <= 0xFFFF_FFFF,
        ;
    }
    let count: u128 = n as u128;
    let avg: u128 = total / count;
    if n < 2 {
        assert(is_floor_sqrt(0, 0)) by (nonlinear_arith);
        return PingResult { avg_us: avg as u64, jitter_us: 0 };
    }
    assert(count * squares <= 0xFFFF_FFFF * (0xFFFF_FFFF * 0xFFFF_FFFE_0000_0001)) by (nonlinear_arith)
        requires
            count <= 0xFFFF_FFFF,
            squares <= 0xFFFF_FFFF * 0xFFFF_FFFE_0000_0001,
    ;
    assert(total * total <= (0xFFFF_FFFF * 0xFFFF_FFFF) * (0xFFFF_FFFF * 0xFFFF_FFFF)) by (nonlinear_arith)
        requires
            total <= 0xFFFF_FFFF * 0xFFFF_FFFF,
    ;
    assert(count * (count - 1) <= 0xFFFF_FFFF * 0xFFFF_FFFF) by (nonlinear_arith)
        requires
            2 <= count <= 0xFFFF_FFFF,
    ;
    assert(count * (count - 1) > 0) by (nonlinear_arith)
        requires
            2 <= count,
    ;
    let scaled: u128 = count * squares - total * total;
    let spread: u128 = scaled / (count * (count - 1));
    let jitter: u64 = floor_sqrt(spread);
    PingResult { avg_us: avg as u64, jitter_us: jitter }
}

/// A latency measurement in progress: a fixed number of probes, made one
/// after the other by the caller, who reports each outcome here.
pub struct PingTest {
    samples: Vec<u32>,
    ping_count: usize,
    attempts: usize,
}

impl PingTest {
    /// Round-trip times of the probes that were answered, in probe order.
    pub closed spec fn samples(&self) -> Seq<u32> {
        self.samples@
    }

    /// Number of probes the measurement makes in all.
    pub closed spec fn spec_ping_count(&self) -> nat {
        self.ping_count as nat
    }

    /// Number of probes whose outcome was reported so far.
    pub closed spec fn attempts(&self) -> nat {
        self.attempts as nat
    }

    /// No more probes were answered than made, and no more made than planned.
    pub closed spec fn wf(&self) -> bool {
        &&& self.samples@.len() <= self.attempts
        &&& self.attempts <= self.ping_count
        &&& self.ping_count <= PING_COUNT_LIMIT
    }

    /// A measurement of `ping_count` probes, none made yet.
    pub fn new(ping_count: usize) -> (t: PingTest)
        requires
            ping_count <= PING_COUNT_LIMIT,
        ensures
            t.wf(),
            t.samples() == Seq::<u32>::empty(),
            t.spec_ping_count() == ping_count,
            t.attempts() == 0,
    {
        PingTest { samples: Vec::new(), ping_count, attempts: 0 }
    }

    /// Number of probes still to be made.
    pub fn remaining(&self) -> (n: usize)
        requires
            self.wf(),
        ensures
            n == self.spec_ping_count() - self.attempts(),
    {
        self.ping_count - self.attempts
    }

    /// Reports the outcome of the next probe: its round-trip time in
    /// microseconds, or nothing where it failed. A time is recorded, a
    /// failure only counted; either way the consumer is to be told of the
    /// outcome. Returns nothing, and changes nothing, once all probes were
    /// made.
    pub fn record(&mut self, rtt_us: Option<u32>) -> (progress: Option<PingProgress>)
        requires
            old(self).wf(),
        ensures
            final(self).wf(),
            final(self).spec_ping_count() == old(self).spec_ping_count(),
            old(self).attempts() >= old(self).spec_ping_count() ==> {
                &&& progress.is_none()
                &&& final(self).attempts() == old(self).attempts()
                &&& final(self).samples() == old(self).samples()
            },
            old(self).attempts() < old(self).spec_ping_count() ==> {
                &&& progress == Some(PingProgress { latest_ping: rtt_us })
                &&& final(self).attempts() == old(self).attempts() + 1
                &&& final(self).samples() == (match rtt_us {
                    Some(rtt) => old(self).samples().push(rtt),
                    None => old(self).samples(),
                })
            },
    {
        if self.attempts >= self.ping_count {
            return None;
        }
        if let Some(rtt) = rtt_us {
            self.samples.push(rtt);
        }
        self.attempts = self.attempts + 1;
        Some(PingProgress { latest_ping: rtt_us })
    }

    /// Mean and jitter of the round-trip times recorded so far.
    pub fn calculate_result(&self) -> (r: PingResult)
        requires
            self.wf(),
        ensures
            r.avg_us == mean(self.samples()),
            is_floor_sqrt(variance(self.samples()), r.jitter_us as nat),
    {
        latency_stats(&self.samples)
    }
}

} // verus!
