use window_timer::stamp::Stamp;
use window_timer::text::{focused_title, title_from_bytes, is_reportable, NetNameOutcome, TitleReader};

#[test]
fn rfc3339_of_epoch_in_utc() {
    let s = Stamp::new(0, 0, 0).unwrap();
    assert_eq!(s.to_rfc3339(), "1970-01-01T00:00:00+00:00");
}

#[test]
fn rfc3339_keeps_local_offset_and_fraction() {
    let s = Stamp::new(1_700_000_000, 500_000_000, 3600).unwrap();
    assert_eq!(s.to_rfc3339(), "2023-11-14T23:13:20.500+01:00");
    let w = Stamp::new(1_700_000_000, 0, -5 * 3600).unwrap();
    assert_eq!(w.to_rfc3339(), "2023-11-14T17:13:20-05:00");
}

#[test]
fn plus_seconds_moves_the_instant_only() {
    let s = Stamp::new(1_700_000_000, 7, 7200).unwrap();
    let t = s.plus_seconds(10, 7200);
    assert_eq!(t, Stamp { secs: 1_700_000_010, nanos: 7, offset: 7200 });
    assert_eq!(t.to_rfc3339(), "2023-11-15T00:13:30.000000007+02:00");
}

#[test]
fn stamp_new_rejects_out_of_range_readings() {
    assert!(Stamp::new(0, 1_000_000_000, 0).is_none());
    assert!(Stamp::new(0, 0, 86_400).is_none());
    assert!(Stamp::new(0, 0, -86_400).is_none());
    assert!(Stamp::new(i64::MAX, 0, 0).is_none());
    assert!(Stamp::new(-0x100_0000_0000, 999_999_999, 86_399).is_some());
}

#[test]
fn titles_read_as_utf8_or_with_replacement() {
    assert_eq!(title_from_bytes("Händer".as_bytes()), "Händer");
    assert_eq!(title_from_bytes(&[b'a', 0xff, b'b']), "a\u{FFFD}b");
    assert_eq!(title_from_bytes(&[]), "");
}

#[test]
fn focused_title_falls_back_to_placeholder() {
    assert_eq!(focused_title(None), "<uninitialized window>");
    assert_eq!(focused_title(Some(b"xterm")), "xterm");
}

#[test]
fn net_name_fallback_is_announced_once() {
    let mut reader = TitleReader::new();
    match reader.net_name("Firefox".as_bytes()) {
        NetNameOutcome::Title(t) => assert_eq!(t, "Firefox"),
        NetNameOutcome::Fallback { .. } => panic!("valid UTF-8 must give a title"),
    }
    match reader.net_name(&[0xc3]) {
        NetNameOutcome::Fallback { announce } => assert!(announce),
        NetNameOutcome::Title(_) => panic!("invalid UTF-8 must fall back"),
    }
    match reader.net_name(&[0xff, 0xfe]) {
        NetNameOutcome::Fallback { announce } => assert!(!announce),
        NetNameOutcome::Title(_) => panic!("invalid UTF-8 must fall back"),
    }
}

#[test]
fn legacy_name_replaces_invalid_bytes() {
    let ok = TitleReader::legacy_name(b"emacs");
    assert_eq!(ok.title, "emacs");
    assert!(!ok.replaced);
    // ISO-8859-1 "é" is not UTF-8.
    let latin = TitleReader::legacy_name(&[b'c', b'a', b'f', 0xe9]);
    assert_eq!(latin.title, "caf\u{FFFD}");
    assert!(latin.replaced);
}

#[test]
fn only_non_empty_titles_are_reported() {
    assert!(!is_reportable(&String::new()));
    assert!(is_reportable(&"a".to_string()));
}

#[test]
fn plus_seconds_takes_the_later_offset() {
    let s = Stamp::new(1_711_846_795, 0, 3600).unwrap();
    let t = s.plus_seconds(10, 7200);
    assert_eq!(t, Stamp { secs: 1_711_846_805, nanos: 0, offset: 7200 });
    assert_eq!(t.to_rfc3339(), "2024-03-31T03:00:05+02:00");
}
