use foxtrot::vector::isqrt;
use foxtrot::vector::DualAxisData;

#[test]
fn normalize_zero_vector_is_none() {
    let v = DualAxisData { x: 0, y: 0 };
    assert_eq!(v.max_normalized(), None);
}

#[test]
fn normalize_below_epsilon_is_none() {
    // |v| = sqrt(50) millionths, below the epsilon of 10 millionths.
    let v = DualAxisData { x: 5, y: 5 };
    assert_eq!(v.max_normalized(), None);
    let w = DualAxisData { x: 9, y: 0 };
    assert_eq!(w.max_normalized(), None);
}

#[test]
fn normalize_at_epsilon_passes_through() {
    // |v| is exactly the epsilon: kept as input.
    let v = DualAxisData { x: 6, y: 8 };
    assert_eq!(v.max_normalized(), Some(v));
    let w = DualAxisData { x: 10, y: 0 };
    assert_eq!(w.max_normalized(), Some(w));
}

#[test]
fn normalize_within_unit_unchanged() {
    let v = DualAxisData { x: 300_000, y: 400_000 };
    assert_eq!(v.max_normalized(), Some(v));
    // |v| is exactly one unit: still unchanged.
    let w = DualAxisData { x: 600_000, y: 800_000 };
    assert_eq!(w.max_normalized(), Some(w));
}

#[test]
fn normalize_above_unit_scales_to_unit_length() {
    // |v| = 5 units; each component is divided by 5.
    let v = DualAxisData { x: 3_000_000, y: 4_000_000 };
    assert_eq!(v.max_normalized(), Some(DualAxisData { x: 600_000, y: 800_000 }));
}

#[test]
fn normalize_keeps_component_signs() {
    let v = DualAxisData { x: -3_000_000, y: 4_000_000 };
    assert_eq!(v.max_normalized(), Some(DualAxisData { x: -600_000, y: 800_000 }));
    let w = DualAxisData { x: 0, y: -2_000_000 };
    assert_eq!(w.max_normalized(), Some(DualAxisData { x: 0, y: -1_000_000 }));
}

#[test]
fn isqrt_exact_values() {
    assert_eq!(isqrt(0), 0);
    assert_eq!(isqrt(1), 1);
    assert_eq!(isqrt(3), 1);
    assert_eq!(isqrt(4), 2);
    assert_eq!(isqrt(99), 9);
    assert_eq!(isqrt(100), 10);
    assert_eq!(isqrt(1_000_000_000_000), 1_000_000);
    assert_eq!(isqrt(u64::MAX), 4_294_967_295);
}
