use wcore::resample::{block_of, interleave, pad_source, plan};
use wcore::source::AudioData;

#[test]
fn plan_for_cd_audio_to_48k_stereo() {
    // 44100 frames per channel at 44.1 kHz, resampled to 48 kHz, 2 channels.
    let p = plan(44100, 48000, 2, 44100);
    // round(1024 * 48000 / 44100) = round(1114.55...) = 1115
    assert_eq!(p.block_size, 1115);
    // ceil(44100 / 1115) = 40 blocks, padded to the next block boundary
    assert_eq!(p.block_count, 40);
    assert_eq!(p.padded_len, 44600);
    // one second of source resamples to exactly one second of output:
    // ceil(44100 * 48000 * 2 / 44100) = 96000 interleaved samples
    assert_eq!(p.total_len, 96000);
}

#[test]
fn plan_at_equal_rates_keeps_the_length() {
    let p = plan(48000, 48000, 2, 1000);
    assert_eq!(p.block_size, 1024);
    assert_eq!(p.block_count, 1);
    assert_eq!(p.padded_len, 1024);
    assert_eq!(p.total_len, 2000);
}

#[test]
fn plan_of_an_empty_source_is_empty() {
    let p = plan(44100, 48000, 2, 0);
    assert_eq!(p.block_count, 0);
    assert_eq!(p.padded_len, 0);
    assert_eq!(p.total_len, 0);
}

#[test]
fn total_length_estimate_is_within_one_source_frame() {
    // 12345 frames, 3 channels, 22050 -> 48000: exact value is
    // 12345 * 48000 * 3 / 22050 = 80620.4..., so the estimate rounds up.
    let p = plan(22050, 48000, 3, 12345);
    assert_eq!(p.total_len, 80621);
    let scaled = p.total_len as u64 * 22050;
    let exact = 12345u64 * 48000 * 3;
    assert!(scaled >= exact);
    assert!(scaled < exact + 22050);
}

#[test]
fn padding_appends_zeros_only() {
    let mut data = AudioData::new(44100, 2, vec![1, 2, 3, 4]);
    pad_source(&mut data, 5);
    assert_eq!(data.samples[0], vec![1, 3, 0, 0, 0]);
    assert_eq!(data.samples[1], vec![2, 4, 0, 0, 0]);
}

#[test]
fn block_extraction_slices_every_channel() {
    let data = AudioData::new(44100, 2, vec![1, 2, 3, 4, 5, 6, 7, 8]);
    let block = block_of(&data, 1, 2);
    assert_eq!(block, vec![vec![5, 7], vec![6, 8]]);
}

#[test]
fn interleave_orders_frame_by_frame() {
    let channels = vec![vec![1, 3, 5], vec![2, 4, 6]];
    assert_eq!(interleave(&channels), vec![1, 2, 3, 4, 5, 6]);
}

#[test]
fn interleave_then_deinterleave_round_trips() {
    let data = AudioData::new(48000, 2, vec![9, 8, 7, 6, 5, 4]);
    let flat = interleave(&data.samples);
    assert_eq!(flat, vec![9, 8, 7, 6, 5, 4]);
    let back = AudioData::new(48000, 2, flat);
    assert_eq!(back.samples, data.samples);
}
