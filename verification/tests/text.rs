use muxe_broker::text::{
    counter_bytes, decimal_text, is_text_le, join_all, join_texts, sort_texts, truncate_utf8,
};
use muxe_broker::textmap::TextMap;
use muxe_broker::time::{duration_millis, Duration, Instant};

#[test]
fn numbers_are_written_in_decimal() {
    assert_eq!(decimal_text(0), "0");
    assert_eq!(decimal_text(1905), "1905");
    assert_eq!(decimal_text(u64::MAX), u64::MAX.to_string());
}

#[test]
fn a_cut_never_splits_a_character() {
    let text = "a\u{e9}\u{20ac}\u{1f600}";
    for limit in 0..12 {
        let cut = truncate_utf8(text, limit);
        assert!(cut.len() <= limit);
        assert!(text.starts_with(&cut));
        let next = text[cut.len()..].chars().next();
        assert!(next.is_none() || cut.len() + next.unwrap().len_utf8() > limit);
    }
}

#[test]
fn a_counter_stands_at_the_end_of_its_bytes() {
    let mut bytes = [0u8; 16];
    bytes[8..].copy_from_slice(&0x0102_0304_0506_0708u64.to_be_bytes());
    assert_eq!(counter_bytes(0x0102_0304_0506_0708), bytes);
}

#[test]
fn texts_are_joined_and_sorted() {
    assert_eq!(join_texts("a", "b"), "ab");
    let texts = vec!["b".to_owned(), "a".to_owned(), "ab".to_owned(), "a".to_owned()];
    let sorted = sort_texts(texts);
    assert_eq!(sorted, vec!["a", "a", "ab", "b"]);
    assert_eq!(join_all(&sorted, "; "), "a; a; ab; b");
    assert_eq!(join_all(&Vec::new(), "; "), "");
    assert!(is_text_le("a", "ab") && !is_text_le("b", "ab"));
    assert_eq!(is_text_le("\u{ffff}", "\u{10000}"), "\u{ffff}" <= "\u{10000}");
}

#[test]
fn a_text_map_keeps_its_names_in_order() {
    let mut map = TextMap::new();
    for (name, value) in [("m", 1), ("a", 2), ("z", 3), ("m", 4)] {
        map.insert(name.to_owned(), value);
    }
    let entries: Vec<(&str, i32)> = (0..map.len())
        .map(|i| (map.item_at(i).0.as_str(), map.item_at(i).1))
        .collect();
    assert_eq!(entries, vec![("a", 2), ("m", 4), ("z", 3)]);
}

#[test]
fn spans_and_points_of_time() {
    let span = Duration::from_millis(1500);
    assert_eq!(span.as_millis(), 1500);
    assert_eq!(duration_millis(span), 1500);
    assert_eq!(duration_millis(Duration::from_nanos(u128::MAX)), u64::MAX);
    assert_eq!(Duration::from_secs(2).as_nanos(), 2_000_000_000);
    assert!(Duration::from_millis(0).is_zero());
    let start = Instant::from_nanos(10);
    let later = start.checked_add(Duration::from_nanos(5)).unwrap();
    assert_eq!(later, Instant::from_nanos(15));
    assert_eq!(later.until(start), Duration::from_nanos(5));
    assert_eq!(start.until(later), Duration::from_nanos(0));
    assert!(start.is_at_or_before(later) && !later.is_at_or_before(start));
    assert_eq!(
        Instant::from_nanos(u128::MAX).checked_add(Duration::from_nanos(1)),
        None
    );
}
