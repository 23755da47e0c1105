use reload::identity::{
    derive_identity, encode, time_to_fraction, SessionIdentity, FRACTION_UNITS,
};

#[test]
fn encode_concrete_identity() {
    // 0.37 and 0.82 in ten-millionths.
    let id = SessionIdentity { time_part: 3700000, rand_part: 8200000 };
    assert_eq!(encode(&id), "37000008200000");
}

#[test]
fn encode_equal_inputs_equal_strings() {
    let a = SessionIdentity { time_part: 1234567, rand_part: 7654321 };
    let b = SessionIdentity { time_part: 1234567, rand_part: 7654321 };
    assert_eq!(encode(&a), encode(&b));
}

#[test]
fn encode_distinguishes_close_identities() {
    // Sessions keyed by (0.37, 0.82) and (0.38, 0.82) must not collide.
    let a = SessionIdentity { time_part: 3700000, rand_part: 8200000 };
    let b = SessionIdentity { time_part: 3800000, rand_part: 8200000 };
    assert_ne!(encode(&a), encode(&b));
}

#[test]
fn encode_keeps_leading_zeros() {
    let id = SessionIdentity { time_part: 1, rand_part: 2 };
    assert_eq!(encode(&id), "00000010000002");
}

#[test]
fn encode_components_never_blur_together() {
    // Without the fixed width these two would both read "123".
    let a = SessionIdentity { time_part: 1, rand_part: 23 };
    let b = SessionIdentity { time_part: 12, rand_part: 3 };
    assert_ne!(encode(&a), encode(&b));
}

#[test]
fn time_fraction_exact_values() {
    // 10^16 / 3 = 3333333333333333, of which the low seven digits remain.
    assert_eq!(time_to_fraction(3), 3333333);
    // 10^16 / 1600000000 = 6250000.
    assert_eq!(time_to_fraction(1600000000), 6250000);
    assert_eq!(time_to_fraction(0), 0);
    assert_eq!(time_to_fraction(1), 0);
}

#[test]
fn derived_identity_is_normalized() {
    let id = derive_identity();
    assert!(id.time_part < FRACTION_UNITS);
    assert!(id.rand_part < FRACTION_UNITS);
    assert_eq!(encode(&id).len(), 14);
}
