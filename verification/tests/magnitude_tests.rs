//! The magnitude clamp and the running bounds record, exercised on their own.

use spectrogram::magnitude::clamp_magnitude;
use spectrogram::magnitude::clamp_row;
use spectrogram::magnitude::MagnitudeBounds;
use spectrogram::magnitude::INFINITY_BITS;
use spectrogram::magnitude::NEG_INFINITY_BITS;
use spectrogram::magnitude::SIGN_BIT;

#[test]
fn sentinel_constants_are_the_float_encodings() {
    assert_eq!(INFINITY_BITS, f32::INFINITY.to_bits());
    assert_eq!(NEG_INFINITY_BITS, f32::NEG_INFINITY.to_bits());
    assert_eq!(SIGN_BIT, (-0.0f32).to_bits());
}

#[test]
fn clamp_floors_negative_values_at_zero() {
    assert_eq!(clamp_magnitude((-1.5f32).to_bits()), 0.0f32.to_bits());
    assert_eq!(clamp_magnitude(f32::NEG_INFINITY.to_bits()), 0.0f32.to_bits());
    assert_eq!(clamp_magnitude((-0.0f32).to_bits()), 0.0f32.to_bits());
    assert_eq!(clamp_magnitude(0.0f32.to_bits()), 0.0f32.to_bits());
    assert_eq!(clamp_magnitude(2.25f32.to_bits()), 2.25f32.to_bits());
    assert_eq!(clamp_magnitude(f32::INFINITY.to_bits()), f32::INFINITY.to_bits());
}

#[test]
fn clamp_row_clamps_entry_by_entry() {
    let raw = vec![
        (-3.0f32).to_bits(),
        0.5f32.to_bits(),
        (-0.25f32).to_bits(),
        4.0f32.to_bits(),
    ];
    let clamped = clamp_row(&raw);
    assert_eq!(
        clamped,
        vec![
            0.0f32.to_bits(),
            0.5f32.to_bits(),
            0.0f32.to_bits(),
            4.0f32.to_bits(),
        ]
    );
}

#[test]
fn fresh_bounds_hold_the_sentinels() {
    let b = MagnitudeBounds::new();
    assert_eq!(b.min, INFINITY_BITS);
    assert_eq!(b.max, NEG_INFINITY_BITS);
}

#[test]
fn bounds_follow_observed_values() {
    let mut b = MagnitudeBounds::new();
    b.update(1.5f32.to_bits());
    assert_eq!(b.min, 1.5f32.to_bits());
    assert_eq!(b.max, 1.5f32.to_bits());
    b.update(0.25f32.to_bits());
    assert_eq!(b.min, 0.25f32.to_bits());
    assert_eq!(b.max, 1.5f32.to_bits());
    b.update(3.75f32.to_bits());
    assert_eq!(b.min, 0.25f32.to_bits());
    assert_eq!(b.max, 3.75f32.to_bits());
    b.update(1.0f32.to_bits());
    assert_eq!(b.min, 0.25f32.to_bits());
    assert_eq!(b.max, 3.75f32.to_bits());
}

#[test]
fn unsigned_order_of_encodings_matches_float_order() {
    // The engine compares clamped magnitudes by their encodings; spot-check
    // that this is the numeric order on non-negative values.
    let values = [0.0f32, 0.0625, 0.5, 1.0, 1.5, 100.0, 1.0e30, f32::INFINITY];
    for i in 0..values.len() {
        for j in 0..values.len() {
            assert_eq!(
                values[i] < values[j],
                values[i].to_bits() < values[j].to_bits()
            );
        }
    }
}
