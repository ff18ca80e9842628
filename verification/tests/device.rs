use wcore::device::{rank_supported_config, select_config, snap_rate, ConfigRange, SampleFormat};
use wcore::error::AudioError;

fn cfg(channels: u16, min: u32, max: u32, format: SampleFormat) -> ConfigRange {
    ConfigRange { channels, min_sample_rate: min, max_sample_rate: max, format }
}

#[test]
fn rank_scores_the_documented_formula() {
    // stereo (4) + min <= 48k (3) + max >= 48k (3) + float (4)
    assert_eq!(rank_supported_config(&cfg(2, 44100, 48000, SampleFormat::F32)), 14);
    // mono (1) + min <= 48k (3), max below 48k, integer format
    assert_eq!(rank_supported_config(&cfg(1, 8000, 22050, SampleFormat::I16)), 4);
    // four channels (3) + 3 + 3, integer format
    assert_eq!(rank_supported_config(&cfg(4, 48000, 96000, SampleFormat::U16)), 9);
    // exotic channel counts rank 2, zero channels rank 0
    assert_eq!(rank_supported_config(&cfg(6, 96000, 192000, SampleFormat::I16)), 5);
    assert_eq!(rank_supported_config(&cfg(0, 96000, 192000, SampleFormat::I16)), 3);
}

#[test]
fn float_beats_integer_all_else_equal() {
    let float = cfg(2, 44100, 48000, SampleFormat::F32);
    let int16 = cfg(2, 44100, 48000, SampleFormat::I16);
    assert!(rank_supported_config(&float) > rank_supported_config(&int16));
    // whichever side the float configuration is listed on, it wins
    assert_eq!(select_config(&vec![int16, float]), Ok(1));
    assert_eq!(select_config(&vec![float, int16]), Ok(0));
}

#[test]
fn select_prefers_earliest_on_ties() {
    let a = cfg(2, 44100, 48000, SampleFormat::F32);
    let b = cfg(2, 44100, 48000, SampleFormat::F32);
    let worse = cfg(1, 44100, 48000, SampleFormat::I16);
    assert_eq!(select_config(&vec![worse, a, b]), Ok(1));
}

#[test]
fn select_with_no_configs_is_an_error() {
    assert_eq!(select_config(&Vec::new()), Err(AudioError::NoSupportedConfig));
}

#[test]
fn snap_rate_picks_48k_or_the_nearest_bound() {
    // 48 kHz in range
    assert_eq!(snap_rate(44100, 96000), 48000);
    // only 44.1 kHz in range: still snaps to 48 kHz
    assert_eq!(snap_rate(22050, 44100), 48000);
    // range entirely below: clamp to the maximum
    assert_eq!(snap_rate(8000, 22050), 22050);
    // range entirely above: clamp to the minimum
    assert_eq!(snap_rate(96000, 192000), 96000);
}
