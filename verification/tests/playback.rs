use crossbeam::channel::unbounded;
use wcore::buffer::AudioBuffer;
use wcore::state::AudioState;

/// A buffer whose producer already published `samples` and closed the channel.
fn closed_buffer(samples: Vec<u32>) -> AudioBuffer {
    let (tx, rx) = unbounded();
    for chunk in samples.chunks(480) {
        tx.send(chunk.to_vec()).unwrap();
    }
    drop(tx);
    AudioBuffer::new(rx)
}

#[test]
fn buffer_drains_the_channel_on_demand() {
    let mut buf = closed_buffer((0..1000u32).collect());
    let (samples, missed) = buf.read_samples(10, 5);
    assert_eq!(samples, vec![10, 11, 12, 13, 14]);
    assert!(!missed);
    let (tail, missed) = buf.read_samples(998, 4);
    assert_eq!(tail, vec![998, 999]);
    assert!(missed);
}

#[test]
fn buffer_stops_draining_once_it_has_enough() {
    let (tx, rx) = unbounded();
    tx.send(vec![1, 2, 3]).unwrap();
    tx.send(vec![4, 5, 6]).unwrap();
    let mut buf = AudioBuffer::new(rx);
    // the producer is still connected: the read must not wait for more than
    // it needs
    let (samples, missed) = buf.read_samples(0, 3);
    assert_eq!(samples, vec![1, 2, 3]);
    assert!(!missed);
    let (samples, missed) = buf.read_samples(3, 3);
    assert_eq!(samples, vec![4, 5, 6]);
    assert!(!missed);
    drop(tx);
}

#[test]
fn empty_block_closes_the_stream() {
    let (tx, rx) = unbounded();
    tx.send(vec![1, 2]).unwrap();
    tx.send(Vec::new()).unwrap();
    let mut buf = AudioBuffer::new(rx);
    let (samples, missed) = buf.read_samples(0, 4);
    assert_eq!(samples, vec![1, 2]);
    assert!(missed);
    drop(tx);
}

#[test]
fn unpaused_fill_without_a_buffer_leaves_the_output_alone() {
    let mut state = AudioState::new(2, 48000);
    state.set_paused(false);
    let mut out = vec![7u32; 4];
    state.write_samples(&mut out);
    assert_eq!(out, vec![7u32; 4]);
    assert_eq!(state.position, 0);
}

#[test]
fn paused_fill_writes_exactly_n_zeros() {
    let mut state = AudioState::new(2, 48000);
    assert!(state.is_paused());
    let mut out = vec![7u32; 64];
    state.write_samples(&mut out);
    assert_eq!(out, vec![0u32; 64]);
    assert_eq!(state.position, 0);
}

#[test]
fn playing_fill_copies_samples_and_advances() {
    let mut state = AudioState::new(2, 48000);
    state.install_buffer(closed_buffer(vec![1, 2, 3, 4, 5, 6]), 6);
    state.set_paused(false);
    let mut out = vec![0u32; 4];
    state.write_samples(&mut out);
    assert_eq!(out, vec![1, 2, 3, 4]);
    assert_eq!(state.position, 4);
    assert!(!state.finished());
    // the next fill runs past the end: the rest is zero-filled, the
    // transport finishes and pauses, and the position still advances fully
    let mut out = vec![9u32; 4];
    state.write_samples(&mut out);
    assert_eq!(out, vec![5, 6, 0, 0]);
    assert_eq!(state.position, 8);
    assert!(state.finished());
    assert!(state.is_paused());
}

#[test]
fn position_holds_still_while_paused_and_grows_while_playing() {
    let mut state = AudioState::new(2, 48000);
    state.install_buffer(closed_buffer((0..4096u32).collect()), 4096);
    let mut out = vec![0u32; 512];
    state.write_samples(&mut out);
    assert_eq!(state.position, 0);
    state.set_paused(false);
    state.write_samples(&mut out);
    state.write_samples(&mut out);
    assert_eq!(state.position, 1024);
    state.set_paused(true);
    state.write_samples(&mut out);
    assert_eq!(state.position, 1024);
}

#[test]
fn one_second_of_cd_audio_finishes_after_188_chunks() {
    // The scenario of a 2-channel 44.1 kHz source of 44100 frames per
    // channel on a 48 kHz stereo device: 96000 interleaved output samples,
    // consumed in 512-sample fills.
    let mut state = AudioState::new(2, 48000);
    state.install_buffer(closed_buffer(vec![3u32; 96000]), 96000);
    state.set_paused(false);
    assert!(!state.finished());
    let mut fills = 0u32;
    while !state.finished() {
        let mut out = vec![0u32; 512];
        state.write_samples(&mut out);
        fills += 1;
        assert!(fills < 1000, "fill never finished");
    }
    assert_eq!(fills, 188);
    assert!(state.is_paused());
}

#[test]
fn stop_right_after_play_leaves_no_residue() {
    let mut state = AudioState::new(2, 48000);
    state.install_buffer(closed_buffer(vec![1, 2, 3, 4]), 4);
    state.stop();
    assert_eq!(state.position, 0);
    assert!(state.audio_buffer.is_none());
    // a fresh playback starts over with the new samples alone
    state.install_buffer(closed_buffer(vec![9, 8]), 2);
    state.set_paused(false);
    let mut out = vec![0u32; 2];
    state.write_samples(&mut out);
    assert_eq!(out, vec![9, 8]);
}

#[test]
fn finished_becomes_true_once_per_playback() {
    let mut state = AudioState::new(2, 48000);
    state.install_buffer(closed_buffer(vec![1, 2]), 2);
    state.set_paused(false);
    let mut out = vec![0u32; 4];
    state.write_samples(&mut out);
    assert!(state.finished());
    // while finished (hence paused), further fills change nothing
    state.write_samples(&mut out);
    assert!(state.finished());
    assert_eq!(state.position, 4);
    // a new playback clears the flag
    state.install_buffer(closed_buffer(vec![1, 2]), 2);
    assert!(!state.finished());
}

#[test]
fn seek_and_time_queries_round_to_a_sample_period() {
    let mut state = AudioState::new(2, 48000);
    // 10416 ns per interleaved sample at 2 x 48000 samples per second
    assert_eq!(state.sample_length_nanos(), 10416);
    state.set_time_nanos(1_000_000_000);
    assert_eq!(state.position, 96006);
    let reported = state.get_time_nanos();
    assert_eq!(reported, 96006 * 10416);
    assert!(reported <= 1_000_000_000);
    assert!(1_000_000_000 - reported < 10416);
    // the paused state does not change what seek and the queries do
    state.set_paused(false);
    state.set_time_nanos(1_000_000_000);
    assert_eq!(state.get_time_nanos(), reported);
    assert!(!state.is_paused());
}

#[test]
fn length_scales_the_estimate_by_the_period() {
    let mut state = AudioState::new(2, 48000);
    state.install_buffer(closed_buffer(vec![0; 96000]), 96000);
    // 96000 samples x 10416 ns: just under one second, the rounding loss
    // of the integer period
    assert_eq!(state.length_nanos(), 96000 * 10416);
}
