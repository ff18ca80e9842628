//! Ranking and selection of output stream configurations.
//!
//! A device advertises a set of configuration ranges. Each is ranked by a
//! deterministic integer score; the highest score wins, with ties broken by
//! enumeration order. The chosen range's rate is then snapped to 48 kHz when
//! 48 kHz or 44.1 kHz lies in its supported range, else clamped to the
//! nearest supported bound.

use vstd::prelude::*;

use crate::error::AudioError;

verus! {

/// Sample encodings an output device may expose.
#[derive(Clone, Copy, Debug, PartialEq, Eq, Structural)]
pub enum SampleFormat {
    F32,
    I16,
    U16,
}

/// One supported output configuration: a channel count, the supported
/// sample-rate range, and the sample format.
#[derive(Clone, Copy, Debug, PartialEq, Eq, Structural)]
pub struct ConfigRange {
    pub channels: u16,
    pub min_sample_rate: u32,
    pub max_sample_rate: u32,
    pub format: SampleFormat,
}

/// Stereo scores highest, then four channels, then mono, then anything else;
/// a configuration with no channels at all scores zero.
pub open spec fn channel_rank_spec(channels: u16) -> int {
    if channels == 0 {
        0
    } else if channels == 1 {
        1
    } else if channels == 2 {
        4
    } else if channels == 4 {
        3
    } else {
        2
    }
}

/// The full score of a configuration: its channel rank, +3 when the minimum
/// supported rate is at most 48 kHz, +3 when the maximum supported rate is at
/// least 48 kHz, and +4 when the sample format is 32-bit float.
pub open spec fn rank_spec(c: ConfigRange) -> int {
    channel_rank_spec(c.channels) + (if c.min_sample_rate <= 48000 {
        3int
    } else {
        0int
    }) + (if c.max_sample_rate >= 48000 {
        3int
    } else {
        0int
    }) + (if c.format is F32 {
        4int
    } else {
        0int
    })
}

/// Scores one supported configuration.
pub fn rank_supported_config(config: &ConfigRange) -> (r: u32)
    ensures
        r == rank_spec(*config),
{
    let channel_rank: u32 = if config.channels == 0 {
        0
    } else if config.channels == 1 {
        1
    } else if config.channels == 2 {
        4
    } else if config.channels == 4 {
        3
    } else {
        2
    };
    let min_sample_rank: u32 = if config.min_sample_rate <= 48000 {
        3
    } else {
        0
    };
    let max_sample_rank: u32 = if config.max_sample_rate >= 48000 {
        3
    } else {
        0
    };
    let sample_format_rank: u32 = match config.format {
        SampleFormat::F32 => 4,
        SampleFormat::I16 => 0,
        SampleFormat::U16 => 0,
    };
    channel_rank + min_sample_rank + max_sample_rank + sample_format_rank
}

/// Picks the best-ranked configuration; ties go to the earliest in
/// enumeration order. An empty list means the device supports nothing.
pub fn select_config(configs: &Vec<ConfigRange>) -> (r: Result<usize, AudioError>)
    ensures
        configs@.len() == 0 <==> r is Err,
        r is Err ==> r == Err::<usize, AudioError>(AudioError::NoSupportedConfig),
        r matches Ok(best) ==> {
            &&& best < configs@.len()
            &&& forall|j: int|
                0 <= j < configs@.len() ==> rank_spec(configs@[j]) <= rank_spec(
                    configs@[best as int],
                )
            &&& forall|j: int| 0 <= j < best ==> rank_spec(configs@[j]) < rank_spec(
                configs@[best as int],
            )
        },
{
    if configs.len() == 0 {
        return Err(AudioError::NoSupportedConfig);
    }
    let mut best: usize = 0;
    let mut best_rank: u32 = rank_supported_config(&configs[0]);
    let mut k: usize = 1;
    while k < configs.len()
        invariant
            1 <= k <= configs@.len(),
            best < k,
            best_rank == rank_spec(configs@[best as int]),
            forall|j: int| 0 <= j < k ==> rank_spec(configs@[j]) <= rank_spec(
                configs@[best as int],
            ),
            forall|j: int| 0 <= j < best ==> rank_spec(configs@[j]) < rank_spec(
                configs@[best as int],
            ),
        decreases configs@.len() - k,
    {
        let rank: u32 = rank_supported_config(&configs[k]);
        if rank > best_rank {
            best = k;
            best_rank = rank;
        }
        k = k + 1;
    }
    Ok(best)
}

/// Where the chosen rate lands: 48 kHz when 48 kHz or 44.1 kHz lies in the
/// supported range, else the nearest supported bound.
pub open spec fn snap_rate_spec(min: u32, max: u32) -> u32 {
    if min <= 48000 && 48000 <= max {
        48000u32
    } else if min <= 44100 && 44100 <= max {
        48000u32
    } else if max < 48000 {
        max
    } else {
        min
    }
}

/// Snaps a configuration's rate as `snap_rate_spec` says.
pub fn snap_rate(min: u32, max: u32) -> (r: u32)
    requires
        min <= max,
    ensures
        r == snap_rate_spec(min, max),
{
    if min <= 48000 && 48000 <= max {
        48000
    } else if min <= 44100 && 44100 <= max {
        48000
    } else if max < 48000 {
        max
    } else {
        min
    }
}

/// Ranking is deterministic, and of two configurations that differ only in
/// sample format, the 32-bit float one always scores strictly higher.
pub proof fn lemma_rank_prefers_float(a: ConfigRange, b: ConfigRange)
    requires
        a.channels == b.channels,
        a.min_sample_rate == b.min_sample_rate,
        a.max_sample_rate == b.max_sample_rate,
        a.format is F32,
        !(b.format is F32),
    ensures
        rank_spec(a) > rank_spec(b),
{
}

} // verus!
