//! Rows as CSV bytes, ready to be appended to the log file.
//!
//! The records are those of a csv writer with its default settings and no
//! header row: fields separated by `,`, records ended by `\n`, and a field
//! put in double quotes, with each double quote in it doubled, exactly when
//! it holds a `,`, a `"`, a `\r` or a `\n`.

use vstd::prelude::*;
use vstd::utf8::encode_utf8;
use crate::tracker::{rows_view, RowView};

verus! {

/// The bytes `,`, `"`, `\r` and `\n`: a field holding one of them is quoted.
pub open spec fn is_special_byte(b: u8) -> bool {
    b == 0x2c || b == 0x22 || b == 0x0d || b == 0x0a
}

/// The field holds a byte that makes it quoted.
pub open spec fn needs_quotes(field: Seq<u8>) -> bool {
    exists|i: int| 0 <= i < field.len() && is_special_byte(#[trigger] field[i])
}

/// The field with each double quote doubled.
pub open spec fn double_quotes(field: Seq<u8>) -> Seq<u8>
    decreases field.len(),
{
    if field.len() == 0 {
        Seq::empty()
    } else {
        double_quotes(field.drop_last()) + if field.last() == 0x22 {
            seq![0x22u8, 0x22u8]
        } else {
            seq![field.last()]
        }
    }
}

/// A field as written: quoted, with its quotes doubled, when it needs
/// quotes, else as it is.
pub open spec fn csv_field(field: Seq<u8>) -> Seq<u8> {
    if needs_quotes(field) {
        seq![0x22u8] + double_quotes(field) + seq![0x22u8]
    } else {
        field
    }
}

/// A record of three fields, given as UTF-8 bytes.
pub open spec fn csv_record(a: Seq<u8>, b: Seq<u8>, c: Seq<u8>) -> Seq<u8> {
    csv_field(a) + seq![0x2cu8] + csv_field(b) + seq![0x2cu8] + csv_field(c) + seq![0x0au8]
}

/// Calls `csv::WriterBuilder::from_writer` (without headers) on an empty
/// `Vec<u8>`, then `csv::Writer::write_byte_record` with the three fields,
/// then `csv::Writer::into_inner`. Claimed, as the csv source shows it for a
/// fresh writer with default settings writing three fields into a vector:
/// neither call fails, and the bytes are `csv_record` of the fields' UTF-8
/// bytes (fields joined by `,`, ended by `\n`, quoted with doubled quotes
/// exactly when they hold `,`, `"`, `\r` or `\n`).
#[verifier::external_body]
fn encode_record(title: &str, start: &str, end: &str) -> (r: Option<Vec<u8>>)
    ensures
        r is Some,
        r matches Some(bytes) ==> bytes@ == csv_record(encode_utf8(title@), encode_utf8(start@), encode_utf8(end@)),
{
    let mut writer = csv::WriterBuilder::new().has_headers(false).from_writer(Vec::new());
    let record = csv::ByteRecord::from(vec![title, start, end]);
    if writer.write_byte_record(&record).is_err() {
        return None;
    }
    writer.into_inner().ok()
}

/// The bytes of one row: its CSV record.
pub open spec fn row_bytes(row: RowView) -> Seq<u8> {
    csv_record(encode_utf8(row.0), encode_utf8(row.1), encode_utf8(row.2))
}

/// The bytes of the rows, one record after the other, in order.
pub open spec fn encoded_rows(rows: Seq<RowView>) -> Seq<u8>
    decreases rows.len(),
{
    if rows.len() == 0 {
        Seq::empty()
    } else {
        encoded_rows(rows.drop_last()) + row_bytes(rows.last())
    }
}

/// Encodes one row `(title, start, end)` as a CSV record.
pub fn encode_row(row: &(String, String, String)) -> (bytes: Vec<u8>)
    ensures
        bytes@ == row_bytes((row.0@, row.1@, row.2@)),
        bytes@ == csv_record(encode_utf8(row.0@), encode_utf8(row.1@), encode_utf8(row.2@)),
{
    match encode_record(row.0.as_str(), row.1.as_str(), row.2.as_str()) {
        Some(bytes) => bytes,
        None => Vec::new(),
    }
}

/// Encodes rows `(title, start, end)` as CSV records without a header row.
pub fn encode_rows(rows: &Vec<(String, String, String)>) -> (bytes: Vec<u8>)
    ensures
        bytes@ == encoded_rows(rows_view(rows@)),
{
    let mut bytes: Vec<u8> = Vec::new();
    let ghost all = rows_view(rows@);
    let mut i: usize = 0;
    while i < rows.len()
        invariant
            i <= rows.len(),
            all == rows_view(rows@),
            bytes@ == encoded_rows(all.take(i as int)),
        decreases rows.len() - i,
    {
        let mut record = encode_row(&rows[i]);
        proof {
            assert(all.take(i + 1).drop_last() =~= all.take(i as int));
            assert(all.take(i + 1).last() == all[i as int]);
        }
        bytes.append(&mut record);
        i = i + 1;
    }
    proof {
        assert(all.take(rows.len() as int) =~= all);
    }
    bytes
}

/// Encoding rows in two batches, one after the other, gives the same bytes
/// as encoding them all at once: appending batch after batch to the log
/// file leaves the records of all rows in order.
pub proof fn law_batches_concatenate(first: Seq<RowView>, second: Seq<RowView>)
    ensures
        encoded_rows(first + second) == encoded_rows(first) + encoded_rows(second),
    decreases second.len(),
{
    if second.len() == 0 {
        assert(first + second =~= first);
        assert(encoded_rows(first) + encoded_rows(second) =~= encoded_rows(first));
    } else {
        law_batches_concatenate(first, second.drop_last());
        assert((first + second).drop_last() =~= first + second.drop_last());
        assert((first + second).last() == second.last());
        assert(encoded_rows(first) + encoded_rows(second) =~= encoded_rows(first)
            + encoded_rows(second.drop_last()) + row_bytes(second.last()));
    }
}

/// A record of fields that hold none of `,`, `"`, `\r`, `\n` is the three
/// fields in full, joined by `,` and ended by `\n`.
pub proof fn law_plain_record(a: Seq<u8>, b: Seq<u8>, c: Seq<u8>)
    requires
        forall|i: int| 0 <= i < a.len() ==> #[trigger] a[i] != 0x2c && a[i] != 0x22 && a[i] != 0x0d && a[i] != 0x0a,
        forall|i: int| 0 <= i < b.len() ==> #[trigger] b[i] != 0x2c && b[i] != 0x22 && b[i] != 0x0d && b[i] != 0x0a,
        forall|i: int| 0 <= i < c.len() ==> #[trigger] c[i] != 0x2c && c[i] != 0x22 && c[i] != 0x0d && c[i] != 0x0a,
    ensures
        csv_record(a, b, c) == a + seq![0x2cu8] + b + seq![0x2cu8] + c + seq![0x0au8],
{
    assert(!needs_quotes(a));
    assert(!needs_quotes(b));
    assert(!needs_quotes(c));
}

/// A field that holds a `,`, `"`, `\r` or `\n` is written between double
/// quotes, with its quotes doubled.
pub proof fn law_special_field_quoted(field: Seq<u8>, i: int)
    requires
        0 <= i < field.len(),
        field[i] == 0x2c || field[i] == 0x22 || field[i] == 0x0d || field[i] == 0x0a,
    ensures
        csv_field(field) == seq![0x22u8] + double_quotes(field) + seq![0x22u8],
{
    assert(is_special_byte(field[i]));
}

/// Doubling quotes leaves the empty field empty.
pub proof fn law_double_quotes_empty()
    ensures
        double_quotes(Seq::<u8>::empty()) == Seq::<u8>::empty(),
{
}

/// Doubling quotes turns a `"` into two and leaves any other byte alone.
pub proof fn law_double_quotes_byte(x: u8)
    ensures
        double_quotes(seq![x]) == if x == 0x22 { seq![0x22u8, 0x22u8] } else { seq![x] },
{
    assert(seq![x].drop_last() =~= Seq::<u8>::empty());
    assert(double_quotes(Seq::<u8>::empty()) + (if x == 0x22 { seq![0x22u8, 0x22u8] } else { seq![x] })
        =~= (if x == 0x22 { seq![0x22u8, 0x22u8] } else { seq![x] }));
}

/// Doubling quotes works byte by byte: it distributes over concatenation.
pub proof fn law_double_quotes_concat(a: Seq<u8>, b: Seq<u8>)
    ensures
        double_quotes(a + b) == double_quotes(a) + double_quotes(b),
    decreases b.len(),
{
    if b.len() == 0 {
        assert(a + b =~= a);
        assert(double_quotes(a) + double_quotes(b) =~= double_quotes(a));
    } else {
        law_double_quotes_concat(a, b.drop_last());
        assert((a + b).drop_last() =~= a + b.drop_last());
        assert((a + b).last() == b.last());
        let tail = if b.last() == 0x22 { seq![0x22u8, 0x22u8] } else { seq![b.last()] };
        assert(double_quotes(a) + double_quotes(b) =~= double_quotes(a) + double_quotes(b.drop_last()) + tail);
    }
}

/// The bytes of a single row are the CSV record of the UTF-8 bytes of its
/// title, start and end, in full.
pub proof fn law_single_row(row: RowView)
    ensures
        encoded_rows(seq![row]) == csv_record(encode_utf8(row.0), encode_utf8(row.1), encode_utf8(row.2)),
{
    let one = seq![row];
    assert(one.len() == 1);
    assert(one.drop_last() =~= Seq::<RowView>::empty());
    assert(one.last() == row);
    assert(encoded_rows(one.drop_last()) == Seq::<u8>::empty());
    assert(encoded_rows(one) == encoded_rows(one.drop_last()) + row_bytes(one.last()));
    assert(Seq::<u8>::empty() + row_bytes(row) =~= row_bytes(row));
}

} // verus!
