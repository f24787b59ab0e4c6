use vstd::prelude::*;
use rand::rngs::{OsRng, StdRng};
use rand::{Rng, SeedableRng};
use crate::speedtest::rate::{
    throughput,
    throughput_kbps,
    SamplerModel,
    ThroughputSampler,
    SAMPLE_INTERVAL_US,
};
use crate::speedtest::THROUGHPUT_WINDOW;

verus! {

/// Most bytes sent in one request.
pub const CHUNK_SIZE: usize = 1_000_000;

/// The generator of `rand` that the filler content comes from.
#[verifier::external_type_specification]
#[verifier::external_body]
pub struct ExStdRng(rand::rngs::StdRng);

/// Calls `StdRng::from_rng` of `rand` on its `OsRng`: a generator seeded
/// from the system's entropy source, or nothing where the system provides
/// no entropy. Nothing is claimed of the outcome.
#[verifier::external_body]
fn entropy_rng() -> Option<StdRng> {
    StdRng::from_rng(OsRng).ok()
}

/// Calls `Rng::gen` of `rand` for one byte. Nothing is claimed of the byte.
#[verifier::external_body]
fn random_byte(rng: &mut StdRng) -> u8 {
    rng.gen()
}

/// Length of the chunk that starts at offset `sent` of a payload of `size`
/// bytes: a full chunk, or what is left where that is less.
pub open spec fn chunk_len(sent: nat, size: nat) -> nat {
    if sent >= size {
        0
    } else if size - sent < CHUNK_SIZE {
        (size - sent) as nat
    } else {
        CHUNK_SIZE as nat
    }
}

/// Offset reached after `chunks` chunks of a payload of `size` bytes.
pub open spec fn sent_after(chunks: nat, size: nat) -> nat
    decreases chunks,
{
    if chunks == 0 {
        0
    } else {
        sent_after((chunks - 1) as nat, size) + chunk_len(sent_after((chunks - 1) as nat, size), size)
    }
}

/// The chunks partition the payload: after any number of them the offset is
/// that many full chunks, or the whole payload where that is less.
pub proof fn lemma_chunks_partition(chunks: nat, size: nat)
    ensures
        sent_after(chunks, size) == (if chunks * CHUNK_SIZE <= size {
            chunks * CHUNK_SIZE
        } else {
            size as int
        }),
    decreases chunks,
{
    if chunks > 0 {
        lemma_chunks_partition((chunks - 1) as nat, size);
        assert(chunks * CHUNK_SIZE == (chunks - 1) * CHUNK_SIZE + CHUNK_SIZE) by (nonlinear_arith);
    }
}

/// What the consumer is told at each sample point of an upload.
#[derive(Debug, Clone)]
pub struct UploadProgress {
    pub uploaded_bytes: u64,
    pub total_bytes: u64,
    /// The recent throughput samples in kilobits per second, oldest first.
    pub speed_samples: Vec<u64>,
}

/// Summary of an upload: the average over the whole transfer, in kilobits
/// per second.
#[derive(Debug, Clone, Copy, PartialEq, Eq, Structural)]
pub struct UploadResult {
    pub avg_speed_kbps: u64,
}

/// An upload measurement in progress. It holds the filler content; the
/// caller sends it chunk by chunk, one request after the other, and reports
/// here when each has completed.
pub struct UploadTest {
    data: Vec<u8>,
    sampler: ThroughputSampler,
    upload_size: usize,
    uploaded: usize,
}

impl UploadTest {
    /// The state of sampling.
    pub closed spec fn model(&self) -> SamplerModel {
        self.sampler@
    }

    /// The filler content.
    pub closed spec fn payload(&self) -> Seq<u8> {
        self.data@
    }

    /// Number of bytes to send in all.
    pub closed spec fn spec_upload_size(&self) -> nat {
        self.upload_size as nat
    }

    /// Offset of the next chunk: the number of bytes handed to requests that
    /// have completed.
    pub closed spec fn uploaded(&self) -> nat {
        self.uploaded as nat
    }

    /// The payload has the declared size, the offset lies within it, and
    /// the sampler has counted the bytes up to the offset.
    pub closed spec fn wf(&self) -> bool {
        &&& self.sampler.wf()
        &&& self.data@.len() == self.upload_size
        &&& self.uploaded <= self.upload_size
        &&& self.sampler@.transferred == self.uploaded
    }

    /// In a well-formed measurement the payload has the declared size, the
    /// offset lies within it, and the sampler has counted up to the offset.
    pub proof fn lemma_wf(&self)
        requires
            self.wf(),
        ensures
            self.payload().len() == self.spec_upload_size(),
            self.uploaded() <= self.spec_upload_size(),
            self.spec_upload_size() <= usize::MAX,
            self.model().transferred == self.uploaded(),
    {
    }

    /// Whether `t` is a measurement of `upload_size` bytes at its start,
    /// sampling every `interval_us` microseconds.
    pub open spec fn is_fresh(t: UploadTest, upload_size: usize, interval_us: u64) -> bool {
        &&& t.wf()
        &&& t.model() == SamplerModel::start(interval_us, THROUGHPUT_WINDOW as nat)
        &&& t.spec_upload_size() == upload_size
        &&& t.payload().len() == upload_size
        &&& t.uploaded() == 0
    }

    /// A measurement that sends `upload_size` bytes of filler content, made
    /// here once, and samples at the usual interval; nothing where the
    /// system provides no entropy for the filler.
    pub fn new(upload_size: usize) -> (t: Option<UploadTest>)
        ensures
            t.is_some() ==> UploadTest::is_fresh(t.unwrap(), upload_size, SAMPLE_INTERVAL_US),
    {
        UploadTest::with_interval(upload_size, SAMPLE_INTERVAL_US)
    }

    /// A measurement that sends `upload_size` bytes of filler content and
    /// takes a sample whenever `interval_us` microseconds have passed since
    /// the last; nothing where the system provides no entropy for the
    /// filler.
    pub fn with_interval(upload_size: usize, interval_us: u64) -> (t: Option<UploadTest>)
        ensures
            t.is_some() ==> UploadTest::is_fresh(t.unwrap(), upload_size, interval_us),
    {
        UploadTest::with_generator(upload_size, interval_us, entropy_rng())
    }

    /// A measurement whose filler content is drawn from `rng`, byte by
    /// byte: there is one exactly where there is a generator.
    pub fn with_generator(upload_size: usize, interval_us: u64, rng: Option<StdRng>) -> (t: Option<
        UploadTest,
    >)
        ensures
            t.is_some() == rng.is_some(),
            t.is_some() ==> UploadTest::is_fresh(t.unwrap(), upload_size, interval_us),
    {
        let mut rng = match rng {
            Some(rng) => rng,
            None => {
                return None;
            },
        };
        let mut data: Vec<u8> = Vec::new();
        let mut i: usize = 0;
        while i < upload_size
            invariant
                i <= upload_size,
                data@.len() == i,
            decreases upload_size - i,
        {
            let byte: u8 = random_byte(&mut rng);
            data.push(byte);
            i += 1;
        }
        Some(
            UploadTest {
                data,
                sampler: ThroughputSampler::new(interval_us, THROUGHPUT_WINDOW),
                upload_size,
                uploaded: 0,
            },
        )
    }

    /// The filler content.
    pub fn data(&self) -> (d: &Vec<u8>)
        ensures
            d@ == self.payload(),
    {
        &self.data
    }

    /// Where the next chunk to send starts and ends in the filler content,
    /// or nothing once all of it was sent.
    pub fn next_chunk(&self) -> (range: Option<(usize, usize)>)
        requires
            self.wf(),
        ensures
            range == (if self.uploaded() >= self.spec_upload_size() {
                None
            } else {
                Some(
                    (
                        self.uploaded() as usize,
                        (self.uploaded() + chunk_len(
                            self.uploaded(),
                            self.spec_upload_size(),
                        )) as usize,
                    ),
                )
            }),
    {
        if self.uploaded >= self.upload_size {
            None
        } else if self.upload_size - self.uploaded < CHUNK_SIZE {
            Some((self.uploaded, self.upload_size))
        } else {
            Some((self.uploaded, self.uploaded + CHUNK_SIZE))
        }
    }

    /// Takes note that the request for the next chunk completed at `now_us`,
    /// microseconds since the transfer began, whether or not the endpoint
    /// took the chunk. The offset moves past the chunk. Where the sampling
    /// interval has passed, the throughput since the last sample point goes
    /// into the window and the progress to report is returned.
    pub fn chunk_sent(&mut self, now_us: u64) -> (progress: Option<UploadProgress>)
        requires
            old(self).wf(),
        ensures
            final(self).wf(),
            final(self).spec_upload_size() == old(self).spec_upload_size(),
            final(self).payload() == old(self).payload(),
            final(self).uploaded() == old(self).uploaded() + chunk_len(
                old(self).uploaded(),
                old(self).spec_upload_size(),
            ),
            final(self).model() == old(self).model().advance(
                chunk_len(old(self).uploaded(), old(self).spec_upload_size()),
                now_us,
            ),
            progress.is_some() == old(self).model().due(now_us),
            progress.is_some() ==> {
                &&& progress.unwrap().uploaded_bytes == final(self).uploaded()
                &&& progress.unwrap().total_bytes == old(self).spec_upload_size()
                &&& progress.unwrap().speed_samples@ == final(self).model().window
            },
    {
        let len: usize = if self.uploaded >= self.upload_size {
            0
        } else if self.upload_size - self.uploaded < CHUNK_SIZE {
            self.upload_size - self.uploaded
        } else {
            CHUNK_SIZE
        };
        self.uploaded = self.uploaded + len;
        if self.sampler.record(len as u64, now_us) {
            Some(
                UploadProgress {
                    uploaded_bytes: self.uploaded as u64,
                    total_bytes: self.upload_size as u64,
                    speed_samples: self.sampler.snapshot(),
                },
            )
        } else {
            None
        }
    }

    /// The summary once every chunk was sent, `elapsed_us` microseconds after
    /// the transfer began: the throughput of the declared size over all that
    /// time, whether or not the endpoint took every chunk.
    pub fn finish(&self, elapsed_us: u64) -> (r: UploadResult)
        ensures
            r.avg_speed_kbps == throughput_kbps(self.spec_upload_size(), elapsed_us as nat),
    {
        UploadResult { avg_speed_kbps: throughput(self.upload_size as u64, elapsed_us) }
    }
}

} // verus!
