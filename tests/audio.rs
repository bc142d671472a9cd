use lily_ui::audio::{level_window_start, samples_per_100ms, start_recording, stop_recording};

#[test]
fn test_rms_calculation_logic() {
    // Test RMS calculation directly
    let samples = vec![0.0f32, 1.0, -1.0, 0.5, -0.5];
    let mut sum_squares = 0.0;
    let mut count = 0;

    for &sample in &samples {
        sum_squares += sample * sample;
        count += 1;
    }

    let rms = (sum_squares / count as f32).sqrt();
    let expected_rms = ((0.0 + 1.0 + 1.0 + 0.25 + 0.25) / samples.len() as f32).sqrt();

    assert!((rms - expected_rms).abs() < 0.001);
}

#[test]
fn test_rms_calculation_edge_cases() {
    // Test with single sample
    let single_sample = vec![1.0f32];
    let mut sum_squares = 0.0;
    let mut count = 0;

    for &sample in &single_sample {
        sum_squares += sample * sample;
        count += 1;
    }

    let rms = (sum_squares / count as f32).sqrt();
    assert_eq!(rms, 1.0);

    // Test with all zeros
    let zero_samples = vec![0.0f32, 0.0, 0.0];
    sum_squares = 0.0;
    count = 0;

    for &sample in &zero_samples {
        sum_squares += sample * sample;
        count += 1;
    }

    let rms = (sum_squares / count as f32).sqrt();
    assert_eq!(rms, 0.0);
}

#[test]
fn test_sample_rate_calculations() {
    // Test samples per 100ms calculation for different sample rates
    let sample_rates = vec![44100, 48000, 22050, 16000];

    for &sample_rate in &sample_rates {
        let samples_per_100ms = samples_per_100ms(sample_rate);
        let expected = sample_rate as usize / 10;

        assert_eq!(samples_per_100ms, expected);

        // Ensure it's reasonable (between 1 and reasonable upper bound)
        assert!(samples_per_100ms >= 160); // 16000 / 10
        assert!(samples_per_100ms <= 4800); // 48000 / 10
    }
}

#[test]
fn test_error_handling_strings() {
    // Test that error messages are properly formatted
    let error_msg = "Test error message";
    let formatted = format!("Failed to get input devices: {}", error_msg);
    assert!(formatted.contains("Failed to get input devices"));
    assert!(formatted.contains(error_msg));

    let stream_error = format!("Failed to build input stream: {}", error_msg);
    assert!(stream_error.contains("Failed to build input stream"));
    assert!(stream_error.contains(error_msg));
}

#[test]
fn level_window_covers_the_latest_tenth_of_a_second() {
    assert_eq!(level_window_start(4410, 44100), Some(0));
    assert_eq!(level_window_start(5000, 44100), Some(590));
    assert_eq!(level_window_start(4409, 44100), None);
    assert_eq!(level_window_start(0, 16000), None);
}

#[test]
fn level_window_needs_a_non_empty_window() {
    // Below ten samples per second a window holds nothing.
    assert_eq!(level_window_start(100, 9), None);
    assert_eq!(level_window_start(0, 0), None);
    assert_eq!(level_window_start(1, 10), Some(0));
}

#[test]
fn recording_flag_refuses_a_second_start() {
    let mut recording = false;
    assert_eq!(start_recording(&mut recording), Ok(()));
    assert!(recording);
    assert_eq!(start_recording(&mut recording), Err("Already recording".to_string()));
    assert!(recording);
    assert_eq!(stop_recording(&mut recording), Ok(()));
    assert!(!recording);
    assert_eq!(stop_recording(&mut recording), Ok(()));
    assert!(!recording);
}
