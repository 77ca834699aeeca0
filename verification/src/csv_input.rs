use crate::error::CrashTableError;
use crate::tables::{all_rows_wide_enough, output_spec, render_output};
use vstd::prelude::*;

verus! {

/// What the CSV reader makes of an input byte stream: `Some` with the data
/// rows (the first row is a header and is not among them) where the stream
/// is well formed, `None` where the reader rejects it. Parsing is a function
/// of the bytes alone.
pub uninterp spec fn parsed_csv(bytes: Seq<u8>) -> Option<Seq<Seq<Seq<char>>>>;

/// Relies on csv::Reader::from_reader with its default configuration: the
/// first row is a header and is skipped, and each later row comes back as
/// its fields in order, or as an error for a stream the reader rejects
/// (ragged row lengths, text that is not valid). The result depends on the
/// input bytes alone.
#[verifier::external_body]
fn parse_csv_bytes(bytes: &[u8]) -> (r: Result<Vec<Vec<String>>, CrashTableError>)
    ensures
        match r {
            Ok(rows) => parsed_csv(bytes@) == Some(rows.deep_view()),
            Err(e) => parsed_csv(bytes@) is None && e == CrashTableError::SourceUnavailable,
        },
{
    let mut reader = csv::Reader::from_reader(bytes);
    let mut rows: Vec<Vec<String>> = Vec::new();
    for record in reader.records() {
        match record {
            Ok(rec) => rows.push(rec.iter().map(|field| field.to_string()).collect()),
            Err(_) => return Err(CrashTableError::SourceUnavailable),
        }
    }
    Ok(rows)
}

/// The whole conversion: reads the input bytes as CSV and renders the three
/// crash tables as one output file text. Fails with `SourceUnavailable`
/// exactly where the reader rejects the stream, with `RowTooShort` exactly
/// where some data row stops short of the minimum width, and otherwise
/// returns the full output text.
pub fn crash_generate_table(csv_bytes: &[u8]) -> (r: Result<String, CrashTableError>)
    ensures
        match parsed_csv(csv_bytes@) {
            Some(rows) => match r {
                Ok(out) => all_rows_wide_enough(rows) && out@ == output_spec(rows),
                Err(e) => !all_rows_wide_enough(rows) && e == CrashTableError::RowTooShort,
            },
            None => r == Err::<String, CrashTableError>(CrashTableError::SourceUnavailable),
        },
{
    match parse_csv_bytes(csv_bytes) {
        Ok(rows) => render_output(&rows),
        Err(e) => Err(e),
    }
}

} // verus!
