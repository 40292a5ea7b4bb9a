use brief::capture::{downmix_channels, downmix_pcm_frames, downmix_q15_frames};
use brief::mix::mix_streams;
use brief::resample::{resample_q15_to_16k, resample_to_16k};
use brief::sample::Q15_ONE;

#[test]
fn resample_identity_at_16k() {
    let pcm: Vec<i16> = vec![0, 16384, -16384, 0];
    let out = resample_to_16k(&pcm, 16000);
    assert_eq!(out, vec![0, 16384, -16384, 0]);
}

#[test]
fn resample_q15_identity_at_16k() {
    let q15: Vec<i32> = vec![5, -7, 40000, -40000];
    let out = resample_q15_to_16k(&q15, 16000);
    assert_eq!(out, q15);
}

#[test]
fn resample_halves_ratio_interpolates_midpoints() {
    // 8000 Hz -> 16 kHz doubles the length; even outputs are the inputs,
    // odd outputs the midpoints of neighbouring inputs.
    let pcm: Vec<i16> = vec![0, 16384, -16384, 0];
    let out = resample_to_16k(&pcm, 8000);
    assert_eq!(out, vec![0, 8192, 16384, 0, -16384, -8192, 0, 0]);
}

#[test]
fn resample_length_law() {
    let pcm: Vec<i16> = vec![1; 10];
    let out = resample_to_16k(&pcm, 44100);
    assert_eq!(out.len(), 10 * 16000 / 44100);
    let pcm2: Vec<i16> = vec![0; 48];
    let out2 = resample_to_16k(&pcm2, 48000);
    assert_eq!(out2.len(), 16);
}

#[test]
fn resample_trailing_interpolates_toward_silence() {
    // The successor of the last sample is read as silence.
    let pcm: Vec<i16> = vec![16000];
    let out = resample_to_16k(&pcm, 8000);
    assert_eq!(out, vec![16000, 8000]);
}

#[test]
fn resample_upward_rate_can_empty() {
    let pcm: Vec<i16> = vec![1000];
    let out = resample_to_16k(&pcm, 32000);
    assert!(out.is_empty());
}

#[test]
fn mix_with_empty_is_identity() {
    let mic: Vec<i32> = vec![1, -2, 3];
    let empty: Vec<i32> = Vec::new();
    assert_eq!(mix_streams(&mic, &empty), mic);
    assert_eq!(mix_streams(&empty, &mic), mic);
    let out = mix_streams(&empty, &empty);
    assert!(out.is_empty());
}

#[test]
fn mix_full_scale_clamps_to_full_scale() {
    let a: Vec<i32> = vec![Q15_ONE; 5];
    let b: Vec<i32> = vec![Q15_ONE; 5];
    assert_eq!(mix_streams(&a, &b), vec![Q15_ONE; 5]);
}

#[test]
fn mix_clamps_loud_streams() {
    let a: Vec<i32> = vec![100000, -100000];
    let b: Vec<i32> = vec![0, 0];
    assert_eq!(mix_streams(&a, &b), vec![Q15_ONE, -Q15_ONE]);
}

#[test]
fn mix_pads_shorter_with_silence() {
    let mic: Vec<i32> = vec![20000, 20000, 20000, 20000];
    let sys: Vec<i32> = vec![10000];
    let out = mix_streams(&mic, &sys);
    assert_eq!(out, vec![15000, 10000, 10000, 10000]);
}

#[test]
fn mic_only_buffer_mixes_to_itself() {
    // A full second of 16 kHz audio against an absent system-audio stream
    // comes through element-for-element.
    let mic: Vec<i16> = (0..16000).map(|i| (i % 3000) as i16).collect();
    let mic16 = resample_to_16k(&mic, 16000);
    let empty: Vec<i32> = Vec::new();
    let mixed = mix_streams(&mic16, &empty);
    assert_eq!(mixed.len(), 16000);
    for i in 0..16000usize {
        assert_eq!(mixed[i], mic[i] as i32);
    }
}

#[test]
fn downmix_pcm_averages_frames() {
    let data: Vec<i16> = vec![10, 20, 30, 41];
    assert_eq!(downmix_pcm_frames(&data, 2), vec![15, 35]);
}

#[test]
fn downmix_pcm_partial_frame_still_divides_by_channels() {
    let data: Vec<i16> = vec![10, 20, 30];
    assert_eq!(downmix_pcm_frames(&data, 2), vec![15, 15]);
}

#[test]
fn downmix_pcm_rounds_toward_zero() {
    let data: Vec<i16> = vec![-7];
    assert_eq!(downmix_pcm_frames(&data, 2), vec![-3]);
}

#[test]
fn downmix_q15_scales_full_scale_to_pcm_max() {
    let data: Vec<i32> = vec![Q15_ONE, Q15_ONE];
    assert_eq!(downmix_q15_frames(&data, 2), vec![32767]);
}

#[test]
fn downmix_q15_clamps_overdriven_input() {
    let data: Vec<i32> = vec![65536, 65536, -65536, -65536];
    assert_eq!(downmix_q15_frames(&data, 2), vec![32767, -32767]);
}

#[test]
fn downmix_q15_passes_midrange() {
    let data: Vec<i32> = vec![8192, 8192];
    // average 8192, scaled by 32767/32768
    assert_eq!(downmix_q15_frames(&data, 2), vec![8191]);
}

#[test]
fn downmix_channels_averages_across_buffers() {
    let chans: Vec<Vec<i32>> = vec![vec![100, 200], vec![300, -100]];
    assert_eq!(downmix_channels(&chans), vec![200, 50]);
}

#[test]
fn downmix_channels_short_channel_counts_as_silence() {
    let chans: Vec<Vec<i32>> = vec![vec![100, 200], vec![300]];
    assert_eq!(downmix_channels(&chans), vec![200, 100]);
}

#[test]
fn downmix_channels_empty_input() {
    let chans: Vec<Vec<i32>> = Vec::new();
    assert!(downmix_channels(&chans).is_empty());
}
