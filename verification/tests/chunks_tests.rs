//! Frame-extractor behavior: counts, offsets, overlap, gaps, and the
//! configuration errors.

use spectrogram::ChunksWithHop;
use spectrogram::ConfigError;

fn collect_frames(mut c: ChunksWithHop<u32>) -> Vec<Vec<u32>> {
    let mut frames = Vec::new();
    while let Some(f) = c.next() {
        frames.push(f);
    }
    frames
}

#[test]
fn overlapping_frames_over_eight_samples() {
    // window_size = 4, hop = -2 (50% overlap) over an 8-sample signal:
    // 1 + ceil((8 - 4) / 2) = 3 frames, at offsets 0, 2 and 4, each 4 long.
    let signal: Vec<u32> = (0..8).collect();
    let c = ChunksWithHop::new(signal, 4, -2).unwrap();
    let frames = collect_frames(c);
    assert_eq!(frames.len(), 3);
    assert_eq!(frames[0], vec![0, 1, 2, 3]);
    assert_eq!(frames[1], vec![2, 3, 4, 5]);
    assert_eq!(frames[2], vec![4, 5, 6, 7]);
}

#[test]
fn extractor_stays_exhausted() {
    let signal: Vec<u32> = (0..8).collect();
    let mut c = ChunksWithHop::new(signal, 4, -2).unwrap();
    assert_eq!(c.next(), Some(vec![0, 1, 2, 3]));
    assert_eq!(c.next(), Some(vec![2, 3, 4, 5]));
    assert_eq!(c.next(), Some(vec![4, 5, 6, 7]));
    assert_eq!(c.next(), None);
    assert_eq!(c.next(), None);
}

#[test]
fn back_to_back_frames_with_short_tail() {
    // hop = 0 over 10 samples with a window of 4: 1 + ceil(6 / 4) = 3 frames,
    // the last holding the 10 - 2*4 = 2 leftover samples.
    let signal: Vec<u32> = (0..10).collect();
    let c = ChunksWithHop::new(signal, 4, 0).unwrap();
    let frames = collect_frames(c);
    assert_eq!(frames.len(), 3);
    assert_eq!(frames[0], vec![0, 1, 2, 3]);
    assert_eq!(frames[1], vec![4, 5, 6, 7]);
    assert_eq!(frames[2], vec![8, 9]);
}

#[test]
fn positive_hop_leaves_gaps() {
    // hop = +2 with a window of 4: the cursor advances by 6, skipping two
    // samples between frames; 1 + ceil((10 - 4) / 6) = 2 frames.
    let signal: Vec<u32> = (0..10).collect();
    let c = ChunksWithHop::new(signal, 4, 2).unwrap();
    let frames = collect_frames(c);
    assert_eq!(frames.len(), 2);
    assert_eq!(frames[0], vec![0, 1, 2, 3]);
    assert_eq!(frames[1], vec![6, 7, 8, 9]);
}

#[test]
fn signal_shorter_than_window_is_one_frame() {
    let signal: Vec<u32> = vec![7, 8, 9];
    let c = ChunksWithHop::new(signal, 4, 0).unwrap();
    let frames = collect_frames(c);
    assert_eq!(frames, vec![vec![7, 8, 9]]);
}

#[test]
fn frame_reaching_the_end_is_the_last() {
    // With 50% overlap over 8 samples, the frame at offset 4 reaches the
    // signal's end, so no frame starts at offset 6.
    let signal: Vec<u32> = (0..8).collect();
    let c = ChunksWithHop::new(signal, 4, -2).unwrap();
    let frames = collect_frames(c);
    assert_eq!(frames.last().unwrap(), &vec![4, 5, 6, 7]);
}

#[test]
fn empty_signal_yields_no_frame() {
    let c = ChunksWithHop::new(Vec::<u32>::new(), 4, 0).unwrap();
    let frames = collect_frames(c);
    assert_eq!(frames.len(), 0);
}

#[test]
fn zero_step_is_a_configuration_error() {
    // window_size = 4, hop = -4: the cursor would never advance.
    let r = ChunksWithHop::new((0..8).collect::<Vec<u32>>(), 4, -4);
    assert!(matches!(r, Err(ConfigError::StepNotPositive)));
}

#[test]
fn negative_step_is_a_configuration_error() {
    let r = ChunksWithHop::new((0..8).collect::<Vec<u32>>(), 4, -7);
    assert!(matches!(r, Err(ConfigError::StepNotPositive)));
}

#[test]
fn window_size_zero_and_one_are_rejected() {
    let r = ChunksWithHop::new((0..8).collect::<Vec<u32>>(), 0, 2);
    assert!(matches!(r, Err(ConfigError::WindowTooSmall)));
    let r = ChunksWithHop::new((0..8).collect::<Vec<u32>>(), 1, 2);
    assert!(matches!(r, Err(ConfigError::WindowTooSmall)));
}
