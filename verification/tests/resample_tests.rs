use lightwhisper::resample::{can_resample, resample, try_resample};

#[test]
fn resample_same_rate_is_identity() {
    let x: Vec<i16> = vec![1, -2, 300, 32767, -32768];
    assert_eq!(resample(&x, 16000, 16000), x);
    assert_eq!(resample(&x, 0, 0), x);
}

#[test]
fn resample_halves_length_when_downsampling_by_two() {
    let x: Vec<i16> = vec![0, 10, 20, 30, 40, 50, 60, 70];
    let y = resample(&x, 32000, 16000);
    assert_eq!(y, vec![0, 20, 40, 60]);
}

#[test]
fn resample_interpolates_when_upsampling() {
    let x: Vec<i16> = vec![0, 100, -100];
    let y = resample(&x, 8000, 16000);
    assert_eq!(y, vec![0, 50, 100, 0, -100, -100]);
}

#[test]
fn try_resample_refuses_zero_source_rate() {
    let x: Vec<i16> = vec![1, 2, 3];
    assert!(!can_resample(x.len(), 0, 16000));
    assert_eq!(try_resample(&x, 0, 16000), None);
    assert_eq!(try_resample(&x, 48000, 0), Some(vec![]));
}

#[test]
fn resample_length_is_floor_of_scaled_length() {
    let x: Vec<i16> = (0..1000).map(|i| (i % 100) as i16).collect();
    for (source, target) in [(48000u32, 16000u32), (44100, 16000), (8000, 16000), (16000, 44100), (3, 7), (7, 3)] {
        let y = resample(&x, source, target);
        let expected = (x.len() as u64 * target as u64 / source as u64) as usize;
        assert_eq!(y.len(), expected);
    }
}

#[test]
fn resample_44100_to_16000_exact_values() {
    let x: Vec<i16> = vec![0, 1000, 2000, 3000, 4000, 5000];
    let y = resample(&x, 44100, 16000);
    // positions 0, 2.75625, ... : 6 * 16000 / 44100 = 2 samples
    assert_eq!(y, vec![0, 2756]);
}

#[test]
fn resample_stays_between_neighbours() {
    let x: Vec<i16> = vec![100, -300, 32767, -32768, 0, 5, 5, -1];
    let source: u32 = 16000;
    let target: u32 = 44100;
    let y = resample(&x, source, target);
    for (i, v) in y.iter().enumerate() {
        let idx = (i as u64 * source as u64 / target as u64) as usize;
        if idx + 1 < x.len() {
            let low = x[idx].min(x[idx + 1]);
            let high = x[idx].max(x[idx + 1]);
            assert!(low <= *v && *v <= high);
        }
    }
}

#[test]
fn resample_falls_back_to_last_sample() {
    let x: Vec<i16> = vec![7, 9];
    // positions 0, 0.5, 1, 1.5: the last two have no upper neighbour
    assert_eq!(resample(&x, 1, 2), vec![7, 8, 9, 9]);
}

#[test]
fn resample_of_empty_input_is_empty() {
    let x: Vec<i16> = vec![];
    assert_eq!(resample(&x, 48000, 16000), x);
    assert_eq!(resample(&x, 0, 16000), x);
}

#[test]
fn resample_to_rate_zero_is_empty() {
    let x: Vec<i16> = vec![1, 2, 3];
    assert_eq!(resample(&x, 48000, 0), Vec::<i16>::new());
}
