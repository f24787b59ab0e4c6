use vstd::prelude::*;

verus! {

/// Number of bytes in one megabyte of payload.
pub const BYTES_PER_MB: u64 = 1_000_000;

/// Fewest latency probes a run may be configured with.
pub const PING_COUNT_MIN: usize = 5;

/// Most latency probes a run may be configured with.
pub const PING_COUNT_MAX: usize = 100;

/// Amount by which one adjustment changes the number of latency probes.
pub const PING_COUNT_STEP: usize = 5;

/// Smallest download payload, in megabytes.
pub const DOWNLOAD_MB_MIN: u64 = 25;

/// Largest download payload, in megabytes.
pub const DOWNLOAD_MB_MAX: u64 = 500;

/// Smallest upload payload, in megabytes.
pub const UPLOAD_MB_MIN: u64 = 25;

/// Largest upload payload, in megabytes.
pub const UPLOAD_MB_MAX: u64 = 250;

/// Amount by which one adjustment changes a payload size, in megabytes.
pub const SIZE_MB_STEP: u64 = 25;

/// What one measurement run is configured with. A run copies the settings
/// when it starts, so later edits do not reach it.
#[derive(Debug, Clone, Copy, PartialEq, Eq, Structural)]
pub struct Settings {
    pub ping_count: usize,
    pub download_size_mb: u64,
    pub upload_size_mb: u64,
}

/// `value` raised by `step`, but never above `max`.
pub open spec fn stepped_up(value: int, step: int, max: int) -> int {
    if value + step < max {
        value + step
    } else {
        max
    }
}

/// `value` lowered by `step`, but never below `min`.
pub open spec fn stepped_down(value: int, step: int, min: int) -> int {
    if value - step > min {
        value - step
    } else {
        min
    }
}

impl Default for Settings {
    fn default() -> (r: Settings)
        ensures
            r.ping_count == 30,
            r.download_size_mb == 100,
            r.upload_size_mb == 50,
            r.in_bounds(),
    {
        Settings { ping_count: 30, download_size_mb: 100, upload_size_mb: 50 }
    }
}

impl Settings {
    /// Every field lies within its bounds.
    pub open spec fn in_bounds(self) -> bool {
        &&& PING_COUNT_MIN <= self.ping_count <= PING_COUNT_MAX
        &&& DOWNLOAD_MB_MIN <= self.download_size_mb <= DOWNLOAD_MB_MAX
        &&& UPLOAD_MB_MIN <= self.upload_size_mb <= UPLOAD_MB_MAX
    }

    /// The settings after one upward adjustment of `field`.
    pub open spec fn increased(self, field: SettingsField) -> Settings {
        match field {
            SettingsField::PingCount => Settings {
                ping_count: stepped_up(
                    self.ping_count as int,
                    PING_COUNT_STEP as int,
                    PING_COUNT_MAX as int,
                ) as usize,
                ..self
            },
            SettingsField::DownloadSize => Settings {
                download_size_mb: stepped_up(
                    self.download_size_mb as int,
                    SIZE_MB_STEP as int,
                    DOWNLOAD_MB_MAX as int,
                ) as u64,
                ..self
            },
            SettingsField::UploadSize => Settings {
                upload_size_mb: stepped_up(
                    self.upload_size_mb as int,
                    SIZE_MB_STEP as int,
                    UPLOAD_MB_MAX as int,
                ) as u64,
                ..self
            },
        }
    }

    /// The settings after one downward adjustment of `field`.
    pub open spec fn decreased(self, field: SettingsField) -> Settings {
        match field {
            SettingsField::PingCount => Settings {
                ping_count: stepped_down(
                    self.ping_count as int,
                    PING_COUNT_STEP as int,
                    PING_COUNT_MIN as int,
                ) as usize,
                ..self
            },
            SettingsField::DownloadSize => Settings {
                download_size_mb: stepped_down(
                    self.download_size_mb as int,
                    SIZE_MB_STEP as int,
                    DOWNLOAD_MB_MIN as int,
                ) as u64,
                ..self
            },
            SettingsField::UploadSize => Settings {
                upload_size_mb: stepped_down(
                    self.upload_size_mb as int,
                    SIZE_MB_STEP as int,
                    UPLOAD_MB_MIN as int,
                ) as u64,
                ..self
            },
        }
    }

    /// Size of the download payload in bytes.
    pub fn download_size_bytes(&self) -> (r: u64)
        requires
            self.download_size_mb * BYTES_PER_MB <= u64::MAX,
        ensures
            r == self.download_size_mb * BYTES_PER_MB,
    {
        self.download_size_mb * BYTES_PER_MB
    }

    /// Size of the upload payload in bytes.
    pub fn upload_size_bytes(&self) -> (r: usize)
        requires
            self.upload_size_mb * BYTES_PER_MB <= usize::MAX,
        ensures
            r == self.upload_size_mb * BYTES_PER_MB,
    {
        (self.upload_size_mb * BYTES_PER_MB) as usize
    }

    /// Raises `field` by one step, stopping at its upper bound.
    pub fn increase(&mut self, field: SettingsField)
        ensures
            *final(self) == old(self).increased(field),
            old(self).in_bounds() ==> final(self).in_bounds(),
    {
        match field {
            SettingsField::PingCount => {
                self.ping_count = raise_count(self.ping_count, PING_COUNT_STEP, PING_COUNT_MAX);
            },
            SettingsField::DownloadSize => {
                self.download_size_mb = raise_size(
                    self.download_size_mb,
                    SIZE_MB_STEP,
                    DOWNLOAD_MB_MAX,
                );
            },
            SettingsField::UploadSize => {
                self.upload_size_mb = raise_size(self.upload_size_mb, SIZE_MB_STEP, UPLOAD_MB_MAX);
            },
        }
    }

    /// Lowers `field` by one step, stopping at its lower bound.
    pub fn decrease(&mut self, field: SettingsField)
        ensures
            *final(self) == old(self).decreased(field),
            old(self).in_bounds() ==> final(self).in_bounds(),
    {
        match field {
            SettingsField::PingCount => {
                self.ping_count = lower_count(self.ping_count, PING_COUNT_STEP, PING_COUNT_MIN);
            },
            SettingsField::DownloadSize => {
                self.download_size_mb = lower_size(
                    self.download_size_mb,
                    SIZE_MB_STEP,
                    DOWNLOAD_MB_MIN,
                );
            },
            SettingsField::UploadSize => {
                self.upload_size_mb = lower_size(self.upload_size_mb, SIZE_MB_STEP, UPLOAD_MB_MIN);
            },
        }
    }
}

/// Lowering undoes raising wherever raising moved the value by a whole
/// step: for settings within their bounds, a field that has room for a step
/// below its upper bound is back where it was after one step up and one
/// down. (A value with less room than a step stops at the bound, and comes
/// down from there.)
pub proof fn lemma_lowering_undoes_raising(settings: Settings, field: SettingsField)
    requires
        settings.in_bounds(),
        match field {
            SettingsField::PingCount => settings.ping_count + PING_COUNT_STEP <= PING_COUNT_MAX,
            SettingsField::DownloadSize => settings.download_size_mb + SIZE_MB_STEP
                <= DOWNLOAD_MB_MAX,
            SettingsField::UploadSize => settings.upload_size_mb + SIZE_MB_STEP <= UPLOAD_MB_MAX,
        },
    ensures
        settings.increased(field).decreased(field) == settings,
{
}

fn raise_count(value: usize, step: usize, max: usize) -> (r: usize)
    ensures
        r == stepped_up(value as int, step as int, max as int),
{
    if step < max && value < max - step {
        value + step
    } else {
        max
    }
}

fn raise_size(value: u64, step: u64, max: u64) -> (r: u64)
    ensures
        r == stepped_up(value as int, step as int, max as int),
{
    if step < max && value < max - step {
        value + step
    } else {
        max
    }
}

fn lower_count(value: usize, step: usize, min: usize) -> (r: usize)
    ensures
        r == stepped_down(value as int, step as int, min as int),
{
    if value >= step && value - step > min {
        value - step
    } else {
        min
    }
}

fn lower_size(value: u64, step: u64, min: u64) -> (r: u64)
    ensures
        r == stepped_down(value as int, step as int, min as int),
{
    if value >= step && value - step > min {
        value - step
    } else {
        min
    }
}

/// The field of the settings that is currently selected for editing.
#[derive(Debug, Clone, Copy, PartialEq, Eq, Structural)]
pub enum SettingsField {
    PingCount,
    DownloadSize,
    UploadSize,
}

impl SettingsField {
    pub open spec fn spec_next(self) -> SettingsField {
        match self {
            SettingsField::PingCount => SettingsField::DownloadSize,
            SettingsField::DownloadSize => SettingsField::UploadSize,
            SettingsField::UploadSize => SettingsField::PingCount,
        }
    }

    pub open spec fn spec_prev(self) -> SettingsField {
        match self {
            SettingsField::PingCount => SettingsField::UploadSize,
            SettingsField::DownloadSize => SettingsField::PingCount,
            SettingsField::UploadSize => SettingsField::DownloadSize,
        }
    }

    /// The field below this one, wrapping round from the last to the first.
    pub fn next(self) -> (r: SettingsField)
        ensures
            r == self.spec_next(),
    {
        match self {
            SettingsField::PingCount => SettingsField::DownloadSize,
            SettingsField::DownloadSize => SettingsField::UploadSize,
            SettingsField::UploadSize => SettingsField::PingCount,
        }
    }

    /// The field above this one, wrapping round from the first to the last.
    pub fn prev(self) -> (r: SettingsField)
        ensures
            r == self.spec_prev(),
    {
        match self {
            SettingsField::PingCount => SettingsField::UploadSize,
            SettingsField::DownloadSize => SettingsField::PingCount,
            SettingsField::UploadSize => SettingsField::DownloadSize,
        }
    }
}

} // verus!
