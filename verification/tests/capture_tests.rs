use lightwhisper::capture::{
    append_samples, find_device, list_input_devices, wants_default_device, AudioError,
    AudioRecorder, SampleEncoding, WaveformWindow,
};

#[test]
fn start_on_active_session_is_refused_and_changes_nothing() {
    let mut recorder = AudioRecorder::new();
    assert_eq!(recorder.start("default"), Ok(()));
    assert_eq!(recorder.open_stream(48000, 1, SampleEncoding::I16), Ok(()));
    assert_eq!(recorder.accept_block(&[1, 2, 3]), None);
    assert_eq!(recorder.start("other"), Err(AudioError::AlreadyRecording));
    assert!(recorder.is_recording());
    assert_eq!(recorder.captured(), 3);
    assert_eq!(recorder.sample_rate(), 48000);
    assert_eq!(recorder.stop(), Ok((vec![1, 2, 3], 48000)));
}

#[test]
fn stop_without_samples_is_empty_recording() {
    let mut recorder = AudioRecorder::new();
    assert_eq!(recorder.start("default"), Ok(()));
    assert_eq!(recorder.stop(), Err(AudioError::EmptyRecording));
    assert!(!recorder.is_recording());
}

#[test]
fn stop_without_session_is_empty_recording() {
    let mut recorder = AudioRecorder::new();
    assert!(!recorder.is_recording());
    assert_eq!(recorder.stop(), Err(AudioError::EmptyRecording));
}

#[test]
fn start_clears_the_buffer_of_the_session_before() {
    let mut recorder = AudioRecorder::new();
    recorder.start("default").unwrap();
    recorder.open_stream(16000, 1, SampleEncoding::F32).unwrap();
    recorder.accept_block(&[9, 9, 9]);
    assert_eq!(recorder.stop(), Ok((vec![9, 9, 9], 16000)));
    recorder.start("default").unwrap();
    assert_eq!(recorder.captured(), 0);
    assert_eq!(recorder.sample_rate(), 16000);
    assert_eq!(recorder.stop(), Err(AudioError::EmptyRecording));
}

#[test]
fn blocks_are_ignored_without_a_session() {
    let mut recorder = AudioRecorder::new();
    assert_eq!(recorder.accept_block(&[1, 2, 3, 4]), None);
    assert_eq!(recorder.captured(), 0);
    recorder.start("default").unwrap();
    recorder.accept_block(&[5, 7]);
    let _ = recorder.stop();
    assert_eq!(recorder.accept_block(&[1, 2, 3, 4]), None);
    assert_eq!(recorder.captured(), 0);
}

#[test]
fn blocks_are_downmixed_and_appended() {
    let mut recorder = AudioRecorder::new();
    recorder.start("default").unwrap();
    recorder.open_stream(44100, 2, SampleEncoding::I16).unwrap();
    assert_eq!(recorder.accept_block(&[100, 300, -10, -30]), None);
    assert_eq!(recorder.accept_block(&[8, 0]), None);
    assert_eq!(recorder.stop(), Ok((vec![200, -20, 4], 44100)));
}

#[test]
fn unsupported_encoding_is_refused_but_format_is_noted() {
    let mut recorder = AudioRecorder::new();
    recorder.start("default").unwrap();
    assert_eq!(
        recorder.open_stream(22050, 1, SampleEncoding::Other),
        Err(AudioError::UnsupportedFormat)
    );
    assert_eq!(recorder.sample_rate(), 22050);
    assert_eq!(recorder.open_stream(22050, 1, SampleEncoding::F32), Ok(()));
    assert_eq!(recorder.open_stream(22050, 1, SampleEncoding::I16), Ok(()));
}

#[test]
fn level_reading_comes_when_the_window_fills() {
    let mut recorder = AudioRecorder::new();
    recorder.start("default").unwrap();
    recorder.open_stream(16000, 1, SampleEncoding::I16).unwrap();
    let block: Vec<i16> = vec![1000; 300];
    assert_eq!(recorder.accept_block(&block), None);
    assert_eq!(recorder.accept_block(&block), None);
    assert_eq!(recorder.accept_block(&block), Some(1000));
    // the window starts again empty
    assert_eq!(recorder.accept_block(&block), None);
    assert_eq!(recorder.captured(), 1200);
}

#[test]
fn waveform_window_reads_rms_over_all_gathered_samples() {
    let mut window = WaveformWindow::new();
    assert_eq!(window.len(), 0);
    assert_eq!(window.feed(&vec![0; 799]), None);
    assert_eq!(window.len(), 799);
    // 799 zeros and one full-scale sample: mean square 2^30 / 800
    assert_eq!(window.feed(&[-32768]), Some(1158));
    assert_eq!(window.len(), 0);
    let big: Vec<i16> = vec![32767; 2000];
    assert_eq!(window.feed(&big), Some(32767));
    assert_eq!(window.len(), 0);
    assert_eq!(window.feed(&[1, 2, 3]), None);
    window.reset();
    assert_eq!(window.len(), 0);
}

#[test]
fn append_samples_keeps_order() {
    let mut buffer: Vec<i16> = vec![1, 2];
    append_samples(&mut buffer, &[3, 4, 5]);
    append_samples(&mut buffer, &[]);
    assert_eq!(buffer, vec![1, 2, 3, 4, 5]);
}

#[test]
fn default_is_a_reserved_device_name() {
    assert!(wants_default_device("default"));
    assert!(!wants_default_device("Default"));
    assert!(!wants_default_device(""));
    assert!(!wants_default_device("USB Microphone"));
}

#[test]
fn find_device_takes_the_first_match() {
    let names = vec![
        Some("Built-in".to_string()),
        None,
        Some("USB Microphone".to_string()),
        Some("USB Microphone".to_string()),
    ];
    assert_eq!(find_device("USB Microphone", &names), Ok(2));
    assert_eq!(find_device("Built-in", &names), Ok(0));
    assert_eq!(
        find_device("Headset", &names),
        Err(AudioError::DeviceNotFound("Headset".to_string()))
    );
    assert_eq!(
        find_device("x", &vec![]),
        Err(AudioError::DeviceNotFound("x".to_string()))
    );
}

#[test]
fn list_input_devices_skips_unreadable_names() {
    let names = vec![
        None,
        Some("Built-in".to_string()),
        None,
        Some("USB Microphone".to_string()),
    ];
    assert_eq!(
        list_input_devices(&names),
        vec!["Built-in".to_string(), "USB Microphone".to_string()]
    );
    assert_eq!(list_input_devices(&vec![]), Vec::<String>::new());
}

#[test]
fn audio_error_messages() {
    assert_eq!(AudioError::AlreadyRecording.message(), "Already recording");
    assert_eq!(AudioError::NoDefaultDevice.message(), "No default input device");
    assert_eq!(
        AudioError::EnumerationFailed("backend gone".to_string()).message(),
        "Cannot enumerate devices: backend gone"
    );
    assert_eq!(
        AudioError::DeviceNotFound("Headset".to_string()).message(),
        "Device 'Headset' not found"
    );
    assert_eq!(
        AudioError::NoInputConfig("none".to_string()).message(),
        "No default input config: none"
    );
    assert_eq!(AudioError::UnsupportedFormat.message(), "Unsupported sample format");
    assert_eq!(
        AudioError::StreamBuildFailed("busy".to_string()).message(),
        "Failed to build stream: busy"
    );
    assert_eq!(
        AudioError::StreamStartFailed("busy".to_string()).message(),
        "Failed to start stream: busy"
    );
    assert_eq!(AudioError::EmptyRecording.message(), "No audio recorded");
}
