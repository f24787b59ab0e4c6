use vstd::prelude::*;

pub mod download;
pub mod ping;
pub mod rate;
pub mod upload;
pub mod window;

verus! {

/// Capacity of the window of latency samples.
pub const LATENCY_WINDOW: usize = 100;

/// Capacity of the window of throughput samples.
pub const THROUGHPUT_WINDOW: usize = 200;

/// Time allowed for one latency request, in seconds.
pub const PING_TIMEOUT_SECS: u64 = 5;

/// Pause after each latency request, in milliseconds.
pub const PING_PAUSE_MS: u64 = 200;

/// Time allowed for a download or upload request as a whole, in seconds.
pub const TRANSFER_TIMEOUT_SECS: u64 = 120;

/// Time allowed for connecting before a download or upload, in seconds.
pub const CONNECT_TIMEOUT_SECS: u64 = 10;

/// The stage a measurement run is in.
#[derive(Debug, Clone, Copy, PartialEq, Eq, Structural)]
pub enum TestPhase {
    Idle,
    Ping,
    Download,
    Upload,
    Complete,
}

/// The summary of each stage that has completed; zero for a stage that has
/// not. Latency figures are in microseconds, throughput in kilobits per
/// second.
#[derive(Debug, Clone, Copy, PartialEq, Eq, Structural)]
pub struct SpeedTestResult {
    pub download_kbps: u64,
    pub upload_kbps: u64,
    pub ping_us: u64,
    pub jitter_us: u64,
}

impl Default for SpeedTestResult {
    fn default() -> (r: SpeedTestResult)
        ensures
            r == (SpeedTestResult { download_kbps: 0, upload_kbps: 0, ping_us: 0, jitter_us: 0 }),
    {
        SpeedTestResult { download_kbps: 0, upload_kbps: 0, ping_us: 0, jitter_us: 0 }
    }
}

} // verus!
