use simon_says::rng::XorShift64;

#[test]
fn xorshift_stream_from_seed_one() {
    let mut rng = XorShift64::new(1);
    assert_eq!(rng.next_u64(), 1082269761);
    assert_eq!(rng.next_u64(), 1152992998833853505);
    assert_eq!(rng.next_u64(), 11177516664432764457);
}

#[test]
fn xorshift_stream_from_seed_forty_two() {
    let mut rng = XorShift64::new(42);
    assert_eq!(rng.next_u64(), 45454805674);
    assert_eq!(rng.next_u64(), 11532217803599905471);
}

#[test]
fn zero_seed_is_remapped() {
    let mut zero = XorShift64::new(0);
    let mut remapped = XorShift64::new(0x9E37_79B9_7F4A_7C15);
    let first = zero.next_u64();
    assert_eq!(first, remapped.next_u64());
    assert_eq!(first, 15860402102123842989);
    assert_ne!(first, 0);
}
