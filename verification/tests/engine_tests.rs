//! Whole-pipeline behavior, driven the way the unverified driver drives it:
//! frames out, log-magnitude rows (computed here with a plain DFT) back in.

use spectrogram::ConfigError;
use spectrogram::SpectrogramResult;
use spectrogram::StftSession;

/// One frame's log-magnitude half-spectrum: the frame is multiplied by
/// `window` (when one is given), zero-padded to `n`, transformed with a
/// direct complex DFT, and reduced to `log10` of each bin magnitude,
/// encoded as `f32` bit patterns.
fn dft_log_magnitude_row(frame: &[u32], window: Option<&[f64]>, n: usize) -> Vec<u32> {
    let mut time: Vec<f64> = vec![0.0; n];
    for i in 0..frame.len() {
        let sample = f32::from_bits(frame[i]) as f64;
        time[i] = match window {
            Some(w) => sample * w[i],
            None => sample,
        };
    }
    let bins = n / 2 + 1;
    let mut row: Vec<u32> = Vec::with_capacity(bins);
    for k in 0..bins {
        let mut re = 0.0f64;
        let mut im = 0.0f64;
        for t in 0..n {
            let angle = -2.0 * std::f64::consts::PI * (k as f64) * (t as f64) / (n as f64);
            re += time[t] * angle.cos();
            im += time[t] * angle.sin();
        }
        let magnitude = (re * re + im * im).sqrt() as f32;
        row.push(magnitude.log10().to_bits());
    }
    row
}

/// Runs a whole spectrogram computation the way the driver does.
fn run_stft(
    signal: &[f32],
    sample_rate: usize,
    window_size: usize,
    hop: isize,
    window: Option<&[f64]>,
) -> SpectrogramResult {
    let encoded: Vec<u32> = signal.iter().map(|s| s.to_bits()).collect();
    let mut session = StftSession::new(encoded, sample_rate, window_size, hop).unwrap();
    loop {
        match session.next_frame() {
            None => break,
            Some(frame) => {
                let row = dft_log_magnitude_row(&frame, window, window_size);
                session.push_row(&row);
            },
        }
    }
    session.finish()
}

fn sine_wave(freq_hz: f64, sample_rate: f64, len: usize) -> Vec<f32> {
    (0..len)
        .map(|t| (2.0 * std::f64::consts::PI * freq_hz * (t as f64) / sample_rate).sin() as f32)
        .collect()
}

#[test]
fn empty_signal_gives_empty_matrix_and_sentinel_bounds() {
    let result = run_stft(&[], 48_000, 2048, 0, None);
    assert_eq!(result.v.len(), 0);
    assert_eq!(result.magnitude_bounds[0], f32::INFINITY.to_bits());
    assert_eq!(result.magnitude_bounds[1], f32::NEG_INFINITY.to_bits());
    assert_eq!(result.x_axis_bounds_samples, [0, 0]);
    assert_eq!(result.y_axis_bounds_hz, [0, 48_000]);
}

#[test]
fn sine_peak_lands_on_its_frequency_bin() {
    // A pure 1000 Hz tone at 48 kHz with a 2048-sample window peaks at bin
    // round(1000 * 2048 / 48000) = 43, give or take one bin of leakage.
    let signal = sine_wave(1000.0, 48_000.0, 2048);
    let window: Vec<f64> = apodize::hanning_iter(2048).collect();
    let result = run_stft(&signal, 48_000, 2048, 0, Some(&window));
    assert_eq!(result.v.len(), 1);
    assert_eq!(result.v[0].len(), 1025);
    let row: Vec<f32> = result.v[0].iter().map(|b| f32::from_bits(*b)).collect();
    let mut peak: usize = 0;
    for k in 0..row.len() {
        if row[k] > row[peak] {
            peak = k;
        }
    }
    assert!(42 <= peak && peak <= 44, "peak bin {} is off", peak);
}

#[test]
fn all_ones_window_equals_no_window() {
    // The taper is applied multiplicatively, so a window of ones changes
    // nothing.
    let signal = sine_wave(440.0, 8000.0, 64);
    let ones: Vec<f64> = vec![1.0; 16];
    let with_ones = run_stft(&signal, 8000, 16, 0, Some(&ones));
    let without = run_stft(&signal, 8000, 16, 0, None);
    assert_eq!(with_ones.v, without.v);
    assert_eq!(with_ones.magnitude_bounds, without.magnitude_bounds);
}

#[test]
fn every_magnitude_is_clamped_non_negative() {
    // A quiet signal has plenty of sub-unit magnitudes; after clamping, no
    // entry is below zero.
    let signal: Vec<f32> = sine_wave(700.0, 8000.0, 100).iter().map(|s| s * 0.001).collect();
    let window: Vec<f64> = apodize::hanning_iter(16).collect();
    let result = run_stft(&signal, 8000, 16, 0, Some(&window));
    assert!(result.v.len() > 0);
    for row in &result.v {
        for bits in row {
            let value = f32::from_bits(*bits);
            assert!(value >= 0.0, "negative magnitude {}", value);
        }
    }
}

#[test]
fn bounds_enclose_every_magnitude_and_are_attained() {
    let signal = sine_wave(1200.0, 16_000.0, 200);
    let window: Vec<f64> = apodize::hanning_iter(32).collect();
    let result = run_stft(&signal, 16_000, 32, -16, Some(&window));
    assert!(result.v.len() > 0);
    let min = f32::from_bits(result.magnitude_bounds[0]);
    let max = f32::from_bits(result.magnitude_bounds[1]);
    let mut min_seen = false;
    let mut max_seen = false;
    for row in &result.v {
        for bits in row {
            let value = f32::from_bits(*bits);
            assert!(min <= value && value <= max);
            if value == min {
                min_seen = true;
            }
            if value == max {
                max_seen = true;
            }
        }
    }
    assert!(min_seen && max_seen);
}

#[test]
fn matrix_shape_follows_the_frame_count() {
    // 100 samples, window 16, hop 0: 1 + ceil((100 - 16) / 16) = 7 rows of
    // 16 / 2 + 1 = 9 bins each.
    let signal = sine_wave(500.0, 8000.0, 100);
    let result = run_stft(&signal, 8000, 16, 0, None);
    assert_eq!(result.v.len(), 7);
    for row in &result.v {
        assert_eq!(row.len(), 9);
    }
    assert_eq!(result.x_axis_bounds_samples, [0, 100]);
    assert_eq!(result.y_axis_bounds_hz, [0, 8000]);
}

#[test]
fn session_rejects_bad_configurations() {
    let r = StftSession::new(vec![0u32; 8], 8000, 4, -4);
    assert!(matches!(r, Err(ConfigError::StepNotPositive)));
    let r = StftSession::new(vec![0u32; 8], 8000, 1, 0);
    assert!(matches!(r, Err(ConfigError::WindowTooSmall)));
    let r = StftSession::new(vec![0u32; 8], 8000, 0, 5);
    assert!(matches!(r, Err(ConfigError::WindowTooSmall)));
}

#[test]
fn session_hands_out_frames_and_awaits_rows() {
    let signal: Vec<u32> = (0..6u32).collect();
    let mut session = StftSession::new(signal, 8000, 4, 0).unwrap();
    assert_eq!(session.n_bins(), 3);
    assert!(!session.awaiting_row());
    let frame = session.next_frame().unwrap();
    assert_eq!(frame, vec![0, 1, 2, 3]);
    assert!(session.awaiting_row());
    session.push_row(&vec![1u32, 2, 3]);
    assert!(!session.awaiting_row());
    let frame = session.next_frame().unwrap();
    assert_eq!(frame, vec![4, 5]);
    session.push_row(&vec![4u32, 5, 6]);
    assert_eq!(session.next_frame(), None);
    let result = session.finish();
    assert_eq!(result.v, vec![vec![1u32, 2, 3], vec![4u32, 5, 6]]);
    assert_eq!(result.magnitude_bounds, [1, 6]);
}

#[test]
fn push_row_clamps_negative_encodings() {
    let signal: Vec<u32> = vec![0; 4];
    let mut session = StftSession::new(signal, 8000, 4, 0).unwrap();
    let frame = session.next_frame().unwrap();
    assert_eq!(frame.len(), 4);
    let raw = vec![
        (-2.5f32).to_bits(),
        0.75f32.to_bits(),
        f32::NEG_INFINITY.to_bits(),
    ];
    session.push_row(&raw);
    let result = session.finish();
    assert_eq!(
        result.v,
        vec![vec![0.0f32.to_bits(), 0.75f32.to_bits(), 0.0f32.to_bits()]]
    );
    assert_eq!(result.magnitude_bounds, [0.0f32.to_bits(), 0.75f32.to_bits()]);
}
