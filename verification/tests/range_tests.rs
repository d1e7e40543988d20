use opfs_store::range::{ByteRange, InvalidGetRange, resolve_range};

#[test]
fn bounded_inside_is_exact() {
    let r = resolve_range(&Some(ByteRange::Bounded { start: 2, end: 5 }), 10);
    assert_eq!(r, Ok((2, 5)));
}

#[test]
fn bounded_length_formula() {
    // length = min(end, len) - start for every valid bounded request
    for (start, end, len) in [(0u64, 4u64, 10u64), (3, 10, 10), (3, 17, 10), (9, 10, 10)] {
        let r = resolve_range(&Some(ByteRange::Bounded { start, end }), len).unwrap();
        assert!(r.0 == start);
        assert!(r.1 <= len);
        assert_eq!(r.1 - r.0, end.min(len) - start);
    }
}

#[test]
fn bounded_end_clamped_to_length() {
    let r = resolve_range(&Some(ByteRange::Bounded { start: 4, end: 99 }), 10);
    assert_eq!(r, Ok((4, 10)));
}

#[test]
fn bounded_start_at_length_fails() {
    let r = resolve_range(&Some(ByteRange::Bounded { start: 10, end: 12 }), 10);
    assert_eq!(
        r,
        Err(InvalidGetRange::StartTooLarge { requested: 10, length: 10 })
    );
}

#[test]
fn bounded_start_past_length_fails() {
    let r = resolve_range(&Some(ByteRange::Bounded { start: 17, end: 20 }), 10);
    assert_eq!(
        r,
        Err(InvalidGetRange::StartTooLarge { requested: 17, length: 10 })
    );
}

#[test]
fn offset_resolves_to_end() {
    let r = resolve_range(&Some(ByteRange::Offset { start: 7 }), 10);
    assert_eq!(r, Ok((7, 10)));
}

#[test]
fn offset_at_length_fails() {
    let r = resolve_range(&Some(ByteRange::Offset { start: 10 }), 10);
    assert_eq!(
        r,
        Err(InvalidGetRange::StartTooLarge { requested: 10, length: 10 })
    );
}

#[test]
fn suffix_takes_last_bytes() {
    let r = resolve_range(&Some(ByteRange::Suffix { n: 3 }), 10);
    assert_eq!(r, Ok((7, 10)));
}

#[test]
fn suffix_saturates_at_zero() {
    // n >= len resolves to the whole object, never an error
    let r = resolve_range(&Some(ByteRange::Suffix { n: 10 }), 10);
    assert_eq!(r, Ok((0, 10)));
    let r = resolve_range(&Some(ByteRange::Suffix { n: 1000 }), 10);
    assert_eq!(r, Ok((0, 10)));
}

#[test]
fn suffix_on_empty_object() {
    let r = resolve_range(&Some(ByteRange::Suffix { n: 5 }), 0);
    assert_eq!(r, Ok((0, 0)));
}

#[test]
fn no_range_is_whole_object() {
    let r = resolve_range(&None, 10);
    assert_eq!(r, Ok((0, 10)));
}

#[test]
fn inverted_bounded_is_empty_at_start() {
    // end before start: the chosen policy is a zero-length result
    let r = resolve_range(&Some(ByteRange::Bounded { start: 5, end: 3 }), 10);
    assert_eq!(r, Ok((5, 5)));
}
