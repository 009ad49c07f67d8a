use window_timer::messages::{match_event, match_protocol_error, EventKind, ProtocolErrorKind};
use window_timer::record::{classify_record_reply, report_record_reply, RecordReply, FROM_SERVER, START_OF_DATA};

#[test]
fn record_replies_are_sorted() {
    assert_eq!(classify_record_reply(true, FROM_SERVER), RecordReply::ByteSwapped);
    assert_eq!(classify_record_reply(true, START_OF_DATA), RecordReply::ByteSwapped);
    assert_eq!(classify_record_reply(false, 0), RecordReply::FromServer);
    assert_eq!(classify_record_reply(false, 4), RecordReply::StartOfData);
    assert_eq!(classify_record_reply(false, 1), RecordReply::Other);
    assert_eq!(classify_record_reply(false, 5), RecordReply::Other);
}

#[test]
fn protocol_error_lines() {
    assert_eq!(match_protocol_error(ProtocolErrorKind::Access), "AccessError");
    assert_eq!(match_protocol_error(ProtocolErrorKind::Cursor), "Cursorerror");
    assert_eq!(match_protocol_error(ProtocolErrorKind::GlxBadDrawable), "BadDamageerror");
    assert_eq!(match_protocol_error(ProtocolErrorKind::RenderGlyph), "BadContextError");
    assert_eq!(match_protocol_error(ProtocolErrorKind::XvBadPort), "BadPortError");
    assert_eq!(match_protocol_error(ProtocolErrorKind::Other), "umatched error");
}

#[test]
fn event_lines() {
    assert_eq!(match_event(EventKind::Unknown), "Unknown event");
    assert_eq!(match_event(EventKind::Error), "Error");
    assert_eq!(match_event(EventKind::ButtonPress), "Button press event");
    assert_eq!(match_event(EventKind::PropertyNotify), "PropertyNotify event");
    assert_eq!(match_event(EventKind::PresentConfigureNotify), "PresentCompleteNotify event");
    assert_eq!(match_event(EventKind::SyncAlarmNotify), "SyncAlarmNotify event");
    assert_eq!(match_event(EventKind::Other), "Some other event");
}

#[test]
fn record_replies_are_reported() {
    assert_eq!(report_record_reply(RecordReply::ByteSwapped), ("Byte swapped", true));
    assert_eq!(report_record_reply(RecordReply::FromServer), ("RECORD FROM SERver", false));
    assert_eq!(report_record_reply(RecordReply::StartOfData), ("Start of data", false));
    assert_eq!(report_record_reply(RecordReply::Other), ("Other", false));
}
