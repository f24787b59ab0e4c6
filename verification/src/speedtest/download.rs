use vstd::prelude::*;
use crate::speedtest::rate::{
    throughput,
    throughput_kbps,
    SamplerModel,
    ThroughputSampler,
    SAMPLE_INTERVAL_US,
};
use crate::speedtest::THROUGHPUT_WINDOW;

verus! {

/// What the consumer is told at each sample point of a download.
#[derive(Debug, Clone)]
pub struct DownloadProgress {
    pub downloaded_bytes: u64,
    pub total_bytes: u64,
    /// The recent throughput samples in kilobits per second, oldest first.
    pub speed_samples: Vec<u64>,
}

/// Summary of a download: the average over the whole transfer, in kilobits
/// per second.
#[derive(Debug, Clone, Copy, PartialEq, Eq, Structural)]
pub struct DownloadResult {
    pub avg_speed_kbps: u64,
}

/// A download measurement in progress. The caller reads the response and
/// reports each chunk here with the time at which it arrived.
pub struct DownloadTest {
    sampler: ThroughputSampler,
    download_size: u64,
    total_size: u64,
}

impl DownloadTest {
    /// The state of sampling.
    pub closed spec fn model(&self) -> SamplerModel {
        self.sampler@
    }

    /// Number of bytes that the request asks for.
    pub closed spec fn spec_download_size(&self) -> u64 {
        self.download_size
    }

    /// Number of bytes expected in all, as progress reports it.
    pub closed spec fn spec_total_size(&self) -> u64 {
        self.total_size
    }

    /// The sampler behind the measurement is well-formed.
    pub closed spec fn wf(&self) -> bool {
        self.sampler.wf()
    }

    /// A well-formed measurement has counted no more bytes than fit in 64
    /// bits, and its window is within its capacity.
    pub proof fn lemma_wf(&self)
        requires
            self.wf(),
        ensures
            self.model().anchor_bytes <= self.model().transferred <= u64::MAX,
            self.model().window.len() <= self.model().capacity,
    {
        self.sampler.lemma_wf();
    }

    /// A measurement that asks for `download_size` bytes and samples at the
    /// usual interval.
    pub fn new(download_size: u64) -> (t: DownloadTest)
        ensures
            t.wf(),
            t.model() == SamplerModel::start(SAMPLE_INTERVAL_US, THROUGHPUT_WINDOW as nat),
            t.spec_download_size() == download_size,
            t.spec_total_size() == download_size,
    {
        DownloadTest::with_interval(download_size, SAMPLE_INTERVAL_US)
    }

    /// A measurement that asks for `download_size` bytes and takes a sample
    /// whenever `interval_us` microseconds have passed since the last.
    pub fn with_interval(download_size: u64, interval_us: u64) -> (t: DownloadTest)
        ensures
            t.wf(),
            t.model() == SamplerModel::start(interval_us, THROUGHPUT_WINDOW as nat),
            t.spec_download_size() == download_size,
            t.spec_total_size() == download_size,
    {
        DownloadTest {
            sampler: ThroughputSampler::new(interval_us, THROUGHPUT_WINDOW),
            download_size,
            total_size: download_size,
        }
    }

    /// Number of bytes that the request asks for.
    pub fn download_size(&self) -> (n: u64)
        ensures
            n == self.spec_download_size(),
    {
        self.download_size
    }

    /// Starts the transfer once the response has arrived: the expected total
    /// is the length that the response declares, or the size asked for where
    /// it declares none. Counts and samples start afresh.
    pub fn begin(&mut self, content_length: Option<u64>)
        ensures
            final(self).wf(),
            final(self).spec_download_size() == old(self).spec_download_size(),
            final(self).spec_total_size() == (match content_length {
                Some(n) => n,
                None => old(self).spec_download_size(),
            }),
            final(self).model() == SamplerModel::start(
                old(self).model().interval_us,
                old(self).model().capacity,
            ),
    {
        self.total_size =
        match content_length {
            Some(n) => n,
            None => self.download_size,
        };
        self.sampler.reset();
    }

    /// Takes note of a chunk of `len` bytes that arrived at `now_us`,
    /// microseconds since the transfer began. Where the sampling interval has
    /// passed, the throughput since the last sample point goes into the
    /// window and the progress to report is returned.
    pub fn on_chunk(&mut self, len: u64, now_us: u64) -> (progress: Option<DownloadProgress>)
        requires
            old(self).wf(),
            old(self).model().transferred + len <= u64::MAX,
        ensures
            final(self).wf(),
            final(self).spec_download_size() == old(self).spec_download_size(),
            final(self).spec_total_size() == old(self).spec_total_size(),
            final(self).model() == old(self).model().advance(len as nat, now_us),
            progress.is_some() == old(self).model().due(now_us),
            progress.is_some() ==> {
                &&& progress.unwrap().downloaded_bytes == final(self).model().transferred
                &&& progress.unwrap().total_bytes == old(self).spec_total_size()
                &&& progress.unwrap().speed_samples@ == final(self).model().window
            },
    {
        if self.sampler.record(len, now_us) {
            Some(
                DownloadProgress {
                    downloaded_bytes: self.sampler.transferred(),
                    total_bytes: self.total_size,
                    speed_samples: self.sampler.snapshot(),
                },
            )
        } else {
            None
        }
    }

    /// The summary once the stream has ended, `elapsed_us` microseconds after
    /// the transfer began: the throughput of all bytes read over all that
    /// time.
    pub fn finish(&self, elapsed_us: u64) -> (r: DownloadResult)
        ensures
            r.avg_speed_kbps == throughput_kbps(self.model().transferred, elapsed_us as nat),
    {
        DownloadResult { avg_speed_kbps: throughput(self.sampler.transferred(), elapsed_us) }
    }
}

} // verus!
