use lightwhisper::audio::{downmix, floor_sqrt, is_silent, rms_level, sum_of_squares, FULL_SCALE, WAVEFORM_WINDOW};

#[test]
fn downmix_mono_is_unchanged() {
    let block: Vec<i16> = vec![5, -7, 32767, -32768];
    assert_eq!(downmix(&block, 1), block);
}

#[test]
fn downmix_averages_stereo_frames() {
    let block: Vec<i16> = vec![100, 200, -50, 50, 32767, 32767, -32768, -32768];
    assert_eq!(downmix(&block, 2), vec![150, 0, 32767, -32768]);
}

#[test]
fn downmix_rounds_toward_zero() {
    assert_eq!(downmix(&[1, 2], 2), vec![1]);
    assert_eq!(downmix(&[-1, -2], 2), vec![-1]);
    assert_eq!(downmix(&[1, 0, 0], 3), vec![0]);
    assert_eq!(downmix(&[-1, 0, 0], 3), vec![0]);
}

#[test]
fn downmix_divides_a_short_last_frame_by_the_channel_count() {
    let block: Vec<i16> = vec![10, 20, 30, 40, 90];
    assert_eq!(downmix(&block, 2), vec![15, 35, 45]);
    assert_eq!(downmix(&[90], 4), vec![22]);
}

#[test]
fn downmix_of_nothing_is_nothing() {
    let empty: Vec<i16> = vec![];
    assert_eq!(downmix(&empty, 2), empty);
}

#[test]
fn sum_of_squares_adds_up() {
    assert_eq!(sum_of_squares(&[]), 0);
    assert_eq!(sum_of_squares(&[3, -4]), 25);
    assert_eq!(sum_of_squares(&[-32768, 32767]), 1_073_741_824 + 1_073_676_289);
}

#[test]
fn floor_sqrt_rounds_down() {
    assert_eq!(floor_sqrt(0), 0);
    assert_eq!(floor_sqrt(1), 1);
    assert_eq!(floor_sqrt(3), 1);
    assert_eq!(floor_sqrt(4), 2);
    assert_eq!(floor_sqrt(24), 4);
    assert_eq!(floor_sqrt(25), 5);
    assert_eq!(floor_sqrt(1_073_741_823), 32767);
    assert_eq!(floor_sqrt(1_073_741_824), 32768);
}

#[test]
fn silence_of_zero_buffer() {
    let zeros: Vec<i16> = vec![0; 48000];
    assert!(is_silent(&zeros));
    assert!(is_silent(&[]));
    assert!(is_silent(&[0]));
}

#[test]
fn full_scale_wave_is_far_from_silent() {
    let mut wave: Vec<i16> = Vec::new();
    for i in 0..16000 {
        wave.push(if (i / 20) % 2 == 0 { 32767 } else { -32767 });
    }
    assert!(!is_silent(&wave));
    assert_eq!(rms_level(&wave), 32767);
    assert!(rms_level(&wave) as u32 * 1000 > FULL_SCALE as u32);
}

#[test]
fn silence_threshold_is_one_millionth_of_full_scale() {
    // one unit among n samples: mean square 1/n against 2^30 / 10^12
    let mut quiet: Vec<i16> = vec![0; 1000];
    quiet[17] = 1;
    assert!(is_silent(&quiet));
    let mut audible: Vec<i16> = vec![0; 900];
    audible[17] = -1;
    assert!(!is_silent(&audible));
    assert!(!is_silent(&[1]));
}

#[test]
fn rms_level_of_constant_signal_is_its_magnitude() {
    assert_eq!(rms_level(&[1000, -1000, 1000]), 1000);
    assert_eq!(rms_level(&[-32768; 10]), FULL_SCALE);
    assert_eq!(rms_level(&[3, 4]), 3);
}

#[test]
fn waveform_window_is_eight_hundred_samples() {
    assert_eq!(WAVEFORM_WINDOW, 800);
    assert_eq!(FULL_SCALE, 32768);
}
