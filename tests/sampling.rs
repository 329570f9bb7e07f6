use tinyrand::lim::{next_lim_u128, next_lim_u16, next_lim_u32, next_lim_u64};
use tinyrand::mock::{counter, fixed, Next, TestMock};
use tinyrand::{cutoff_u128, Probability, Rand, RandError, RandLim, RandRange, Wyrand, Xorshift};

/// The cutoff word of probability `p`, computed as a Bernoulli draw computes it.
fn probability(p: f64) -> Probability {
    assert!(p >= 0.0 && p <= 1.0);
    Probability::from_cutoff((p * u64::MAX as f64) as u64)
}

fn random_range<R: Rand>(mut rand: R) {
    let cases: Vec<(std::ops::Range<u64>, u64, u64)> = vec![
        // from zero
        (0..0, 0, 0),
        (0..100, 0, 100 - 1),
        (0..1, 0, 0),
        (0..100, 0, 100 - 1),
        (0..100, 0, 100 - 1),
        (0..100, 0, 100 - 1),
        (0..u64::MAX, 0, u64::MAX - 1),
        // from half
        (50..100, 50, 100 - 1),
        (50..51, 50, 51 - 1),
        (50..100, 50, 100 - 1),
        (50..100, 50, 100 - 1),
        (50..100, 50, 100 - 1),
        (u64::MAX >> 1..u64::MAX, u64::MAX >> 1, u64::MAX - 1),
        // from top
        (100..100, 100, 100),
        (100..100, 100, 100),
        (100..100, 100, 100),
        (100..100, 100, 100),
        // excess
        (101..100, 101, 101),
    ];
    for (range, exp_min, exp_max) in cases {
        let d = rand.next_range(range.clone());
        assert!(d >= exp_min, "for {range:?} random was {d:?}");
        assert!(d <= exp_max, "for {range:?} random was {d:?}");
    }
}

#[test]
fn random_range_wyrand() {
    random_range(Wyrand::default());
}

#[test]
fn random_range_xorshift() {
    random_range(Xorshift::default());
}

#[test]
fn test_cutoff_u128() {
    assert_eq!(u128::MAX, cutoff_u128(1));
    assert_eq!(u128::MAX, cutoff_u128(2));
    assert_eq!(u128::MAX - 1, cutoff_u128(3));
}

#[test]
fn cutoff_u128_large_limit() {
    // 2^128 = (2^127 + 1) + (2^127 - 1): the overhang is 2^127 - 1
    let lim = (1u128 << 127) + 1;
    assert_eq!(u128::MAX - ((1u128 << 127) - 1), cutoff_u128(lim));
}

#[test]
fn tests_test_cutoff_u128() {
    assert_eq!(u128::MAX, cutoff_u128(1));
    assert_eq!(u128::MAX, cutoff_u128(2));
    assert_eq!(u128::MAX - 1, cutoff_u128(3));
}

#[test]
fn next_types_mock() {
    let mut mock = TestMock::new(fixed(0x1234_5678_9ABC_DEF0));
    assert_eq!(0xDEF0, mock.next_u16());
    assert_eq!(0x9ABC_DEF0, mock.next_u32());
    assert_eq!(0x1234_5678_9ABC_DEF0, mock.next_u64());
    assert_eq!(0x1234_5678_9ABC_DEF0_1234_5678_9ABC_DEF0, mock.next_u128());
    assert_ne!(0, mock.next_usize());
}

#[test]
fn gen_u128_from_u64() {
    let mut mock = TestMock::new(counter(1..3));
    let next = mock.next_u128();
    assert_eq!(0x0000_0000_0000_0001_0000_0000_0000_0002, next);
}

#[test]
fn lim_u16() {
    let mut mock = TestMock::new(counter(u64::from(u16::MAX >> 1)..u64::from(u16::MAX)));
    for lim in (u16::MAX >> 1)..(u16::MAX >> 1) + 100 {
        let _ = mock.next_lim(lim);
    }
}

#[test]
fn lim_u32() {
    let mut mock = TestMock::new(counter(u64::from(u32::MAX >> 1)..u64::from(u32::MAX)));
    for lim in (u32::MAX >> 1)..(u32::MAX >> 1) + 100 {
        let _ = mock.next_lim(lim);
    }
}

#[test]
fn lim_u64() {
    let mut mock = TestMock::new(counter(u64::MAX >> 1..u64::MAX));
    for lim in (u64::MAX >> 1)..(u64::MAX >> 1) + 100 {
        let _ = mock.next_lim(lim);
    }
}

#[test]
fn lim_u128_small() {
    let mut mock = TestMock::new(counter(u64::MAX - 17..u64::MAX));
    for lim in 1..13u128 {
        let _ = mock.next_lim(lim);
    }
}

#[test]
fn lim_u128_large() {
    let mut mock = TestMock::new(counter(u64::MAX - 17..u64::MAX));
    for lim in u64::MAX as u128..u64::MAX as u128 + 13u128 {
        let _ = mock.next_lim(lim);
    }
}

#[test]
fn zero_lim_64() {
    let mut mock = TestMock::new(fixed(0));
    assert_eq!(Err(RandError::ZeroLimit), mock.next_lim(0u64));
    assert_eq!(0, mock.state().next_u64_invocations());
}

#[test]
fn zero_lim_128() {
    let mut mock = TestMock::new(fixed(0));
    assert_eq!(Err(RandError::ZeroLimit), mock.next_lim(0u128));
    assert_eq!(0, mock.state().next_u64_invocations());
}

#[test]
fn zero_lim_every_width() {
    let mut mock = TestMock::new(fixed(5));
    assert_eq!(Err(RandError::ZeroLimit), next_lim_u16(&mut mock, 0));
    assert_eq!(Err(RandError::ZeroLimit), next_lim_u32(&mut mock, 0));
    assert_eq!(Err(RandError::ZeroLimit), next_lim_u64(&mut mock, 0));
    assert_eq!(Err(RandError::ZeroLimit), next_lim_u128(&mut mock, 0));
    assert_eq!(Err(RandError::ZeroLimit), mock.next_lim(0usize));
    assert_eq!(0, mock.state().next_u64_invocations());
}

#[test]
fn empty_range_returns_start() {
    let mut rand = TestMock::new(fixed(0));
    assert_eq!(0, rand.next_range(0..0u64));
    assert_eq!(7, rand.next_range(7..7u128));
    assert_eq!(9, rand.next_range(9..3u16));
    assert_eq!(0, rand.state().next_u64_invocations());
}

#[test]
fn lemire_exact_values() {
    // x = 2^63 + 1 and lim = 10: x * lim = 5 * 2^64 + 10, low half 10 is accepted, value 5
    let mut mock = TestMock::new(fixed((1 << 63) + 1));
    assert_eq!(Ok(5), next_lim_u64(&mut mock, 10));
    assert_eq!(1, mock.state().next_u64_invocations());
    // 16 bits: the low 16 bits of the word, 0x8001, times 10: 5 * 2^16 + 10, value 5
    let mut mock = TestMock::new(fixed(0x1234_5678_9ABC_8001));
    assert_eq!(Ok(5), next_lim_u16(&mut mock, 10));
    // 32 bits: 0xC000_0001 * 4 = 3 * 2^32 + 4, value 3
    let mut mock = TestMock::new(fixed(0xC000_0001));
    assert_eq!(Ok(3), next_lim_u32(&mut mock, 4));
}

#[test]
fn lemire_rejects_biased_words() {
    // lim = 3: 2^64 mod 3 = 1, so a word whose scaled low half is 0 is rejected.
    // x = 0 gives low half 0 (rejected); x = 1 gives 3 (accepted) and value 0.
    let mut mock = TestMock::new(counter(0..2));
    assert_eq!(Ok(0), next_lim_u64(&mut mock, 3));
    assert_eq!(2, mock.state().next_u64_invocations());
    // 16 bits, lim = 3: 2^16 mod 3 = 1, same shape
    let mut mock = TestMock::new(counter(0..2));
    assert_eq!(Ok(0), next_lim_u16(&mut mock, 3));
    assert_eq!(2, mock.state().next_u64_invocations());
}

#[test]
fn power_of_two_limit_draws_once() {
    let mut mock = TestMock::new(counter(0..1000));
    for _ in 0..100 {
        let _ = next_lim_u64(&mut mock, 1 << 20);
    }
    assert_eq!(100, mock.state().next_u64_invocations());
}

#[test]
fn lim_u128_modulo_method() {
    // a limit above u64::MAX draws 128-bit words: two native words each
    let lim = (1u128 << 127) + 1;
    let mut mock = TestMock::new(fixed(1));
    // the word is 2^64 + 1, below the cutoff; its remainder is itself
    assert_eq!(Ok((1u128 << 64) + 1), next_lim_u128(&mut mock, lim));
    assert_eq!(2, mock.state().next_u64_invocations());
    // a small limit draws a single 64-bit word
    let mut mock = TestMock::new(fixed((1 << 63) + 1));
    assert_eq!(Ok(5), next_lim_u128(&mut mock, 10));
    assert_eq!(1, mock.state().next_u64_invocations());
}

#[test]
fn lim_counts_are_balanced() {
    let mut rand = Wyrand::default();
    let mut counts = [0u32; 7];
    for _ in 0..70_000 {
        let v = rand.next_lim(7u64).unwrap();
        counts[v as usize] += 1;
    }
    for c in counts {
        assert!((9_500..10_500).contains(&c), "counts {counts:?}");
    }
}

#[test]
fn range_offsets_draw() {
    // span 10; the 64-bit word and its low 32 bits both scale to 5
    let mut mock = TestMock::new(fixed(0x8000_0000_8000_0001));
    assert_eq!(105, mock.next_range(100..110u64));
    assert_eq!(105, mock.next_range(100..110u32));
    assert_eq!(105, mock.next_range(100..110u128));
    assert_eq!(105, mock.next_range(100..110usize));
}

#[test]
fn next_bool() {
    // no matter what the random number, p(0.0) should always evaluate to false,
    // while p(1.0) should always evaluate to true
    let eps = f64::EPSILON;

    let mut rand = TestMock::new(fixed(0));
    assert!(!rand.next_bool(probability(0.0)));
    assert!(rand.next_bool(probability(eps)));
    assert!(rand.next_bool(probability(0.5)));
    assert!(rand.next_bool(probability(1.0)));

    let mut rand = TestMock::new(fixed(u64::MAX / 4));
    assert!(!rand.next_bool(probability(0.0)));
    assert!(!rand.next_bool(probability(0.25 - eps)));
    assert!(rand.next_bool(probability(0.25 + eps)));
    assert!(rand.next_bool(probability(1.0)));

    let mut rand = TestMock::new(fixed(u64::MAX / 2));
    assert!(!rand.next_bool(probability(0.0)));
    assert!(!rand.next_bool(probability(0.5 - eps)));
    assert!(rand.next_bool(probability(0.5 + eps)));
    assert!(rand.next_bool(probability(1.0)));

    let mut rand = TestMock::new(fixed(u64::MAX));
    assert!(!rand.next_bool(probability(0.0)));
    assert!(!rand.next_bool(probability(0.5)));
    assert!(!rand.next_bool(probability(1.0 - eps)));
    assert!(rand.next_bool(probability(1.0)));
}

#[test]
fn bernoulli_boundary_draws() {
    for w in [0, u64::MAX / 4, u64::MAX / 2, u64::MAX - 1, u64::MAX] {
        let mut rand = TestMock::new(fixed(w));
        assert!(!rand.next_bool(Probability::from_cutoff(0)));
        assert!(rand.next_bool(Probability::from_cutoff(u64::MAX)));
        assert_eq!(2, rand.state().next_u64_invocations());
    }
    assert_eq!(u64::MAX, probability(1.0).cutoff());
    assert_eq!(0, probability(0.0).cutoff());
}

#[test]
fn implements_next() {
    assert_eq!(7, 6u64.next());
    assert_eq!(7, 6u128.next());
}

#[test]
fn mock_counter() {
    let mut mock = TestMock::new(counter(5..8));
    assert_eq!(0, mock.state().next_u64_invocations());
    assert_eq!(5, mock.next_u64());
    assert_eq!(1, mock.state().next_u64_invocations());
    assert_eq!(6, mock.next_u64());
    assert_eq!(2, mock.state().next_u64_invocations());
    assert_eq!(7, mock.next_u64());
    assert_eq!(3, mock.state().next_u64_invocations());
    assert_eq!(5, mock.next_u64());
    assert_eq!(4, mock.state().next_u64_invocations());
}

#[test]
fn mock_fixed() {
    let mut mock = TestMock::new(fixed(42));
    assert_eq!(0, mock.state().next_u64_invocations());
    assert_eq!(42, mock.next_u64());
    assert_eq!(1, mock.state().next_u64_invocations());
    assert_eq!(42, mock.next_u64());
}

#[test]
fn invocation_accounting() {
    let mut mock = TestMock::new(counter(1..100));
    mock.next_u16();
    assert_eq!(1, mock.state().next_u64_invocations());
    mock.next_u32();
    assert_eq!(2, mock.state().next_u64_invocations());
    mock.next_u64();
    assert_eq!(3, mock.state().next_u64_invocations());
    mock.next_u128();
    assert_eq!(5, mock.state().next_u64_invocations());
    mock.next_usize();
    assert_eq!(6, mock.state().next_u64_invocations());
}
