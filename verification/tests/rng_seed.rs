use mypaint_rs::rng_seed::{
    is_odd, seed_schedule, seed_schedule_with_tail, HIGH_QUALITY_TAIL_ROUNDS, SEED_TAIL_ROUNDS,
};

#[test]
fn is_odd_reads_the_low_bit() {
    assert!(is_odd(1));
    assert!(!is_odd(0));
    assert!(is_odd(u64::MAX));
    assert!(!is_odd(1 << 40));
}

#[test]
fn schedule_lists_low_digits_first_then_the_tail() {
    // 6 = 0b110
    let rounds = seed_schedule(6);
    let mut expected = vec![false, true, true];
    expected.extend(std::iter::repeat(false).take(SEED_TAIL_ROUNDS));
    assert_eq!(rounds, expected);
}

#[test]
fn schedule_uses_only_the_low_30_bits() {
    assert_eq!(seed_schedule((1u64 << 30) + 5), seed_schedule(5));
    assert_eq!(seed_schedule(0).len(), SEED_TAIL_ROUNDS);
    assert_eq!(seed_schedule(0x3fff_ffff).len(), 30 + SEED_TAIL_ROUNDS);
    assert!(seed_schedule(0x3fff_ffff)[..30].iter().all(|&b| b));
}

#[test]
fn schedule_takes_the_configured_tail() {
    // 5 = 0b101
    let rounds = seed_schedule_with_tail(5, HIGH_QUALITY_TAIL_ROUNDS);
    assert_eq!(rounds.len(), 3 + 70);
    assert_eq!(&rounds[..3], &[true, false, true]);
    assert!(rounds[3..].iter().all(|&b| !b));
    assert_eq!(seed_schedule_with_tail(5, SEED_TAIL_ROUNDS), seed_schedule(5));
    assert_eq!(seed_schedule_with_tail(0, 0), Vec::<bool>::new());
}
