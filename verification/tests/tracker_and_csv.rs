use window_timer::csv_rows::{encode_row, encode_rows};
use window_timer::record::FROM_SERVER;
use window_timer::stamp::Stamp;
use window_timer::tracker::{WindowTracker, NANOS_PER_SEC};

fn at(secs: i64) -> Stamp {
    Stamp::new(secs, 0, 0).unwrap()
}

fn text(secs: i64) -> String {
    at(secs).to_rfc3339()
}

fn row(title: &str, start: i64, end: i64) -> (String, String, String) {
    (title.to_string(), text(start), text(end))
}

#[test]
fn new_tracker_starts_in_focused_window() {
    let t = WindowTracker::new(Some(b"term"), at(100), 5);
    assert_eq!(t.prev_title(), "term");
    assert_eq!(t.current_title(), "term");
    assert_eq!(t.start(), at(100));
    assert!(t.pending_rows().is_empty());
    let u = WindowTracker::new(None, at(100), 5);
    assert_eq!(u.current_title(), "<uninitialized window>");
}

#[test]
fn other_categories_change_nothing() {
    let mut t = WindowTracker::new(Some(b"a"), at(0), 0);
    let saved = t.handle_event(4, Some("b".to_string()), 100 * NANOS_PER_SEC, at(100), 0);
    assert!(saved.is_none());
    assert_eq!(t.current_title(), "a");
    assert_eq!(t.start(), at(0));
    assert!(t.pending_rows().is_empty());
}

#[test]
fn busy_window_keeps_its_stretch() {
    let mut t = WindowTracker::new(Some(b"a"), at(0), 0);
    assert!(t.handle_event(FROM_SERVER, None, 5 * NANOS_PER_SEC, at(5), 0).is_none());
    // Ten whole seconds since the last event is not yet idle.
    assert!(t.handle_event(FROM_SERVER, None, 15 * NANOS_PER_SEC + 999_999_999, at(15), 0).is_none());
    assert!(t.pending_rows().is_empty());
    assert_eq!(t.start(), at(0));
}

#[test]
fn idle_window_is_cut_ten_seconds_after_start() {
    let mut t = WindowTracker::new(Some(b"a"), at(0), 0);
    assert!(t.handle_event(FROM_SERVER, None, 11 * NANOS_PER_SEC, at(11), 0).is_none());
    assert_eq!(t.pending_rows().clone(), vec![row("a", 0, 10)]);
    assert_eq!(t.start(), at(11));
}

#[test]
fn quick_switch_rows_meet() {
    let mut t = WindowTracker::new(Some(b"a"), at(0), 0);
    t.handle_event(FROM_SERVER, Some("b".to_string()), 3 * NANOS_PER_SEC, at(3), 0);
    assert_eq!(t.pending_rows().clone(), vec![row("a", 0, 3)]);
    assert_eq!(t.prev_title(), "b");
    assert_eq!(t.current_title(), "b");
    assert_eq!(t.start(), at(3));
    t.handle_event(FROM_SERVER, Some("c".to_string()), 7 * NANOS_PER_SEC, at(7), 0);
    assert_eq!(t.pending_rows().clone(), vec![row("a", 0, 3), row("b", 3, 7)]);
}

#[test]
fn idle_switch_cuts_old_window_ten_seconds_after_start() {
    let mut t = WindowTracker::new(Some(b"a"), at(0), 0);
    t.handle_event(FROM_SERVER, Some("b".to_string()), 30 * NANOS_PER_SEC, at(30), 0);
    assert_eq!(t.pending_rows().clone(), vec![row("a", 0, 10)]);
    assert_eq!(t.prev_title(), "b");
    assert_eq!(t.start(), at(30));
}

#[test]
fn clock_going_back_counts_as_busy() {
    let mut t = WindowTracker::new(Some(b"a"), at(0), 50 * NANOS_PER_SEC);
    assert!(t.handle_event(FROM_SERVER, None, 0, at(1), 0).is_none());
    assert!(t.pending_rows().is_empty());
}

#[test]
fn full_batch_is_handed_out_and_nothing_is_lost() {
    let mut t = WindowTracker::new(Some(b"w0"), at(0), 0);
    let mut expected = Vec::new();
    for i in 1..=9i64 {
        let saved = t.handle_event(FROM_SERVER, Some(format!("w{}", i)), (i as u64) * NANOS_PER_SEC, at(i), 0);
        assert!(saved.is_none());
        expected.push(row(&format!("w{}", i - 1), i - 1, i));
    }
    assert_eq!(t.pending_rows().clone(), expected);
    let saved = t.handle_event(FROM_SERVER, Some("w10".to_string()), 10 * NANOS_PER_SEC, at(10), 0);
    expected.push(row("w9", 9, 10));
    assert_eq!(saved, Some(expected));
    assert!(t.pending_rows().is_empty());
    assert_eq!(t.current_title(), "w10");
}

#[test]
fn rows_encode_as_csv_records() {
    let rows = vec![
        ("xterm".to_string(), "s1".to_string(), "e1".to_string()),
        ("a, \"b\"".to_string(), "s2".to_string(), "e2".to_string()),
    ];
    let out = encode_rows(&rows);
    assert_eq!(String::from_utf8(out).unwrap(), "xterm,s1,e1\n\"a, \"\"b\"\"\",s2,e2\n");
}

#[test]
fn batches_concatenate() {
    let a = vec![("x".to_string(), "1".to_string(), "2".to_string())];
    let b = vec![("y".to_string(), "3".to_string(), "4".to_string())];
    let mut both = a.clone();
    both.extend(b.clone());
    let mut joined = encode_rows(&a);
    joined.extend(encode_rows(&b));
    assert_eq!(encode_rows(&both), joined);
    assert!(encode_rows(&Vec::new()).is_empty());
}

#[test]
fn line_breaks_and_quotes_are_quoted() {
    let row = ("a\rb".to_string(), "c\nd".to_string(), "say \"hi\"".to_string());
    assert_eq!(encode_row(&row), b"\"a\rb\",\"c\nd\",\"say \"\"hi\"\"\"\n".to_vec());
    let plain = ("Händer".to_string(), "".to_string(), "x y".to_string());
    assert_eq!(encode_row(&plain), "Händer,,x y\n".as_bytes().to_vec());
}

#[test]
fn idle_row_ends_at_the_offset_in_force_ten_seconds_later() {
    // 2024-03-31T00:59:55Z at +01:00; ten seconds later the zone is at +02:00.
    let start = Stamp::new(1_711_846_795, 0, 3600).unwrap();
    let mut t = WindowTracker::new(Some(b"a"), start, 0);
    let now = Stamp::new(1_711_846_830, 0, 7200).unwrap();
    t.handle_event(FROM_SERVER, None, 35 * NANOS_PER_SEC, now, 7200);
    assert_eq!(
        t.pending_rows().clone(),
        vec![(
            "a".to_string(),
            "2024-03-31T01:59:55+01:00".to_string(),
            "2024-03-31T03:00:05+02:00".to_string()
        )]
    );
    assert_eq!(t.start(), now);
}

#[test]
fn busy_switch_ignores_the_idle_end_offset() {
    let mut t = WindowTracker::new(Some(b"a"), at(0), 0);
    t.handle_event(FROM_SERVER, Some("b".to_string()), 2 * NANOS_PER_SEC, at(2), 3600);
    assert_eq!(t.pending_rows().clone(), vec![row("a", 0, 2)]);
}
