//! Sorting the replies of an enabled RECORD context.

use vstd::prelude::*;

verus! {

/// The category of intercepted data that came from the server.
pub const FROM_SERVER: u8 = 0;

/// The category of the reply that opens the recorded data.
pub const START_OF_DATA: u8 = 4;

/// What a reply of an enabled RECORD context holds.
#[derive(Clone, Copy, Debug, PartialEq, Eq, Structural)]
pub enum RecordReply {
    /// The data is in the byte order of the recorded client, not the server.
    ByteSwapped,
    /// Data that came from the server.
    FromServer,
    /// The start of the recorded data.
    StartOfData,
    /// Anything else.
    Other,
}

/// The kind of a reply with the given `client_swapped` flag and `category`;
/// byte-swapped data is told apart first.
pub open spec fn reply_kind(client_swapped: bool, category: u8) -> RecordReply {
    if client_swapped {
        RecordReply::ByteSwapped
    } else if category == FROM_SERVER {
        RecordReply::FromServer
    } else if category == START_OF_DATA {
        RecordReply::StartOfData
    } else {
        RecordReply::Other
    }
}

/// Sorts a reply of an enabled RECORD context.
pub fn classify_record_reply(client_swapped: bool, category: u8) -> (kind: RecordReply)
    ensures
        kind == reply_kind(client_swapped, category),
{
    if client_swapped {
        RecordReply::ByteSwapped
    } else if category == FROM_SERVER {
        RecordReply::FromServer
    } else if category == START_OF_DATA {
        RecordReply::StartOfData
    } else {
        RecordReply::Other
    }
}

/// How a reply is reported: the line, and whether it goes to the error
/// stream rather than to standard output.
pub open spec fn reply_report(kind: RecordReply) -> (Seq<char>, bool) {
    match kind {
        RecordReply::ByteSwapped => ("Byte swapped"@, true),
        RecordReply::FromServer => ("RECORD FROM SERver"@, false),
        RecordReply::StartOfData => ("Start of data"@, false),
        RecordReply::Other => ("Other"@, false),
    }
}

/// The line reported for a reply of kind `kind`, and whether it goes to the
/// error stream.
pub fn report_record_reply(kind: RecordReply) -> (r: (&'static str, bool))
    ensures
        (r.0@, r.1) == reply_report(kind),
{
    match kind {
        RecordReply::ByteSwapped => ("Byte swapped", true),
        RecordReply::FromServer => ("RECORD FROM SERver", false),
        RecordReply::StartOfData => ("Start of data", false),
        RecordReply::Other => ("Other", false),
    }
}

/// Byte-swapped data is told apart first; otherwise category 0 is data from
/// the server, category 4 the start of the data, and every other category
/// is something else.
pub proof fn law_reply_kinds(client_swapped: bool, category: u8)
    ensures
        client_swapped ==> reply_kind(client_swapped, category) == RecordReply::ByteSwapped,
        !client_swapped && category == 0 ==> reply_kind(client_swapped, category) == RecordReply::FromServer,
        !client_swapped && category == 4 ==> reply_kind(client_swapped, category) == RecordReply::StartOfData,
        !client_swapped && category != 0 && category != 4 ==> reply_kind(client_swapped, category) == RecordReply::Other,
{
}

/// The line and stream for each kind of reply: only byte-swapped data is
/// reported on the error stream.
pub proof fn law_reply_reports()
    ensures
        reply_report(RecordReply::ByteSwapped) == ("Byte swapped"@, true),
        reply_report(RecordReply::FromServer) == ("RECORD FROM SERver"@, false),
        reply_report(RecordReply::StartOfData) == ("Start of data"@, false),
        reply_report(RecordReply::Other) == ("Other"@, false),
{
}

} // verus!
