use std::time::Duration;
use tinyrand::duration::NANOS_PER_SEC;
use tinyrand::mock::{fixed, TestMock};
use tinyrand::{from_nanos, RandRange, TimeSpan};

fn span(d: Duration) -> TimeSpan {
    TimeSpan::new(d.as_secs(), d.subsec_nanos())
}

#[test]
fn duration_from_nanos_reversible() {
    let cases = vec![
        Duration::ZERO,
        Duration::from_nanos(1),
        Duration::from_micros(1),
        Duration::from_millis(1),
        Duration::from_secs(1),
        Duration::MAX,
    ];

    for case in cases {
        let nanos = case.as_nanos();
        let duration = from_nanos(nanos);
        assert_eq!(span(case), duration);
        assert_eq!(nanos, duration.as_nanos());
    }
}

#[test]
fn from_nanos_splits_seconds() {
    let s = from_nanos(3 * NANOS_PER_SEC as u128 + 7);
    assert_eq!(3, s.as_secs());
    assert_eq!(7, s.subsec_nanos());
}

#[test]
fn empty_duration_range_returns_start() {
    let mut rand = TestMock::new(fixed(0));
    let start = span(Duration::from_secs(5));
    assert_eq!(start, rand.next_range(start..start));
    assert_eq!(start, rand.next_range(start..span(Duration::from_secs(1))));
    assert_eq!(0, rand.state().next_u64_invocations());
}

#[test]
fn duration_range_offsets_draw() {
    // span of 10 ns, draw 5 ns
    let mut rand = TestMock::new(fixed((1 << 63) + 1));
    let start = span(Duration::new(1, 999_999_998));
    let end = span(Duration::new(2, 8));
    let d = rand.next_range(start..end);
    assert_eq!(span(Duration::new(2, 3)), d);
}
