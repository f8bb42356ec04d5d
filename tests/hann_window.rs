use hann_rs::error::HannWindowError;
use hann_rs::window::calculate_hann_window_with;
use hann_rs::window_cache::WindowCache;
use std::f32::consts::PI;

const WINDOW_LENGTH_5: usize = 5;
const WINDOW_LENGTH_10: usize = 10;

fn hann_coefficient(i: usize, n: usize) -> f32 {
    let scaling_factor = (PI * 2.0) / ((n - 1) as f32);
    0.5 - 0.5 * (scaling_factor * (i as f32)).cos()
}

fn calculate_hann_window(window_length: usize) -> Result<Vec<f32>, HannWindowError> {
    calculate_hann_window_with(window_length, &hann_coefficient)
}

fn get_hann_window(window_length: usize) -> Result<Vec<f32>, HannWindowError> {
    WindowCache::new(hann_coefficient).get_hann_window(window_length)
}

fn relative_eq(a: f32, b: f32, epsilon: f32) -> bool {
    if a == b {
        return true;
    }
    let abs_diff = (a - b).abs();
    if abs_diff <= epsilon {
        return true;
    }
    abs_diff <= a.abs().max(b.abs()) * f32::EPSILON
}

#[test]
fn test_hann_window_length() {
    let hann_window = calculate_hann_window(WINDOW_LENGTH_10).unwrap();

    assert_eq!(hann_window.len(), WINDOW_LENGTH_10);
}

#[test]
fn test_hann_window_properties() {
    let hann_window = get_hann_window(WINDOW_LENGTH_10).unwrap();
    assert!((hann_window[0] - 0.0).abs() <= 1e-6);
    assert!((hann_window[WINDOW_LENGTH_10 - 1] - 0.0).abs() <= 1e-6);
    assert!(hann_window.iter().all(|&value| value >= 0.0));
}

#[test]
fn test_even_hann_window_values() {
    let expected_window_value = vec![
        0.0, 0.11697778, 0.41317594, 0.75, 0.96984637, 0.96984637, 0.75, 0.41317594, 0.11697778,
        0.0,
    ];

    let hann_window = calculate_hann_window(WINDOW_LENGTH_10).unwrap();

    for i in 0..WINDOW_LENGTH_10 {
        assert_eq!(hann_window[i], expected_window_value[i]);
    }
}

#[test]
fn test_odd_hann_window_values() {
    let expected_window_value = vec![0.0, 0.5, 1.0, 0.5, 0.0];

    let hann_window = calculate_hann_window(WINDOW_LENGTH_5).unwrap();

    for i in 0..WINDOW_LENGTH_5 {
        assert_eq!(hann_window[i], expected_window_value[i]);
    }
}

#[test]
fn test_hann_window_scaling_factor() {
    let hann_window = calculate_hann_window(WINDOW_LENGTH_10).unwrap();
    let scaling_factor = (PI * 2.0) / ((WINDOW_LENGTH_10 - 1) as f32);

    for i in 0..WINDOW_LENGTH_10 {
        let expected_value = 0.5 - 0.5 * (scaling_factor * (i as f32)).cos();

        assert!(relative_eq(hann_window[i], expected_value, 1e-4));
    }
}

#[test]
fn test_hann_window_length_too_small() {
    let window_length: usize = 1;

    let result = get_hann_window(window_length);

    assert!(result.is_err());
    assert_eq!(result.unwrap_err(), HannWindowError::WindowLengthTooSmall);
}

#[test]
fn test_hann_window_length_too_large() {
    let window_length: usize = 1 << 25;

    let result = get_hann_window(window_length);

    assert!(result.is_err());
    assert_eq!(result.unwrap_err(), HannWindowError::WindowLengthTooLarge);
}

#[test]
fn test_hann_window_length_too_large_to_allocate_memory() {
    let window_length: usize = usize::MAX / 2 + 1;

    let result = get_hann_window(window_length);

    assert!(result.is_err());
    assert_eq!(result.unwrap_err(), HannWindowError::MemoryAllocationError);
}

#[test]
fn cached_and_fresh_windows_agree() {
    let cache = WindowCache::new(hann_coefficient);
    for &n in &[256usize, 512, 1024, 2048, 4096] {
        let cached = cache.get_hann_window(n).unwrap();
        let fresh = calculate_hann_window(n).unwrap();
        assert_eq!(cached, fresh);
        assert_eq!(cache.get_hann_window(n).unwrap(), cached);
    }
}

#[test]
fn float_windows_are_symmetric_bounded_and_zero_at_ends() {
    for &n in &[2usize, 3, 7, 10, 256, 257, 1000] {
        let w = get_hann_window(n).unwrap();
        assert_eq!(w.len(), n);
        assert_eq!(w[0], 0.0);
        assert_eq!(w[n - 1], 0.0);
        for i in 0..n {
            assert!(w[i] >= 0.0 && w[i] <= 1.0);
            assert_eq!(w[i], w[n - 1 - i]);
        }
        if n % 2 == 1 {
            assert_eq!(w[n / 2], 1.0);
        }
    }
}

#[test]
fn repeated_requests_give_equal_windows() {
    let cache = WindowCache::new(hann_coefficient);
    assert_eq!(cache.get_hann_window(10).unwrap(), cache.get_hann_window(10).unwrap());
    assert_eq!(cache.get_hann_window(4096).unwrap(), cache.get_hann_window(4096).unwrap());
}
