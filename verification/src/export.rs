//! Export of the responses to a form.

use vstd::prelude::*;
use vstd::string::StringExecFns;
use crate::auth::AuthUser;
use crate::error::{AppError, AppErrorView};
use crate::forms::{owner_access, require_owned};
use crate::models::Form;
use crate::text::same_text;

verus! {

/// The query of an export request.
#[derive(Debug)]
pub struct ExportQuery {
    /// `csv` or `sheets`.
    pub format: String,
}

/// A format that an export can be asked in.
#[derive(Clone, Copy, Debug, PartialEq, Eq, Structural)]
pub enum ExportFormat {
    /// Comma-separated values.
    Csv,
    /// A spreadsheet service; known, and not available.
    Sheets,
}

/// One response as it is exported: its identifier, the instant at which it
/// was created and its data, each as text.
#[derive(Debug)]
pub struct ExportRow {
    pub id: String,
    pub created_at: String,
    pub response_data: String,
}

impl ExportFormat {
    /// The format that an identifier stands for, if any.
    pub open spec fn named(text: Seq<char>) -> Option<ExportFormat> {
        if text == "csv"@ {
            Some(ExportFormat::Csv)
        } else if text == "sheets"@ {
            Some(ExportFormat::Sheets)
        } else {
            None
        }
    }

    /// Reads a format identifier.
    pub fn parse(text: &str) -> (format: Option<ExportFormat>)
        ensures
            format == ExportFormat::named(text@),
    {
        if same_text(text, "csv") {
            Some(ExportFormat::Csv)
        } else if same_text(text, "sheets") {
            Some(ExportFormat::Sheets)
        } else {
            None
        }
    }
}

#[verifier::external_type_specification]
#[verifier::external_body]
pub struct ExCsvError(csv::Error);

/// A `csv::Writer` with the default settings that writes into a buffer in
/// memory. A value of this type is a writer on which no write has failed:
/// the write that fails takes the writer with it.
#[verifier::external_body]
pub struct CsvBuffer {
    writer: csv::Writer<Vec<u8>>,
}

/// The records that were written to the writer, each a sequence of fields,
/// in the order in which they were written.
pub uninterp spec fn csv_records(buffer: CsvBuffer) -> Seq<Seq<Seq<char>>>;

/// The text that a `csv::Writer` with the default settings has produced once
/// exactly these records were written to it.
pub uninterp spec fn csv_text(records: Seq<Seq<Seq<char>>>) -> Seq<char>;

/// The fields of a record as sequences of characters.
pub open spec fn fields_of(record: Seq<String>) -> Seq<Seq<char>> {
    Seq::new(record.len(), |i: int| record[i]@)
}

/// Whether a record of `length` fields goes with the records written so
/// far: the writer wants every record to have as many fields as the first.
pub open spec fn fits_records(records: Seq<Seq<Seq<char>>>, length: int) -> bool {
    records.len() == 0 || records[0].len() == length
}

/// Calls `csv::Writer::from_writer` on an empty buffer.
///
/// Trusted: nothing is written to the new writer.
#[verifier::external_body]
fn csv_writer() -> (buffer: CsvBuffer)
    ensures
        csv_records(buffer) == Seq::<Seq<Seq<char>>>::empty(),
{
    CsvBuffer { writer: csv::Writer::from_writer(Vec::new()) }
}

/// Calls `csv::Writer::write_record` and hands the writer back where the
/// write succeeded.
///
/// Trusted: where it succeeds, the record is written after those that were
/// written before. It succeeds for a record that has as many fields as the
/// first one: the writer refuses a record only for its number of fields, and
/// writing into a buffer in memory does not fail.
#[verifier::external_body]
fn csv_write(buffer: CsvBuffer, record: &Vec<String>) -> (written: Result<CsvBuffer, csv::Error>)
    ensures
        written matches Ok(after) ==> csv_records(after) == csv_records(buffer).push(
            fields_of(record@),
        ),
        fits_records(csv_records(buffer), record@.len() as int) ==> written is Ok,
{
    let mut buffer = buffer;
    buffer.writer.write_record(record)?;
    Ok(buffer)
}

/// Calls `csv::Writer::into_inner`, which flushes the writer and hands out its
/// buffer, and reads the buffer as text with `String::from_utf8`.
///
/// Trusted: there is a text, and it is [`csv_text`] of the records that were
/// written. Flushing into a buffer in memory does not fail; and the buffer
/// holds the bytes of the fields, which are text, between delimiters, quotes
/// and line ends, which are single ASCII bytes.
#[verifier::external_body]
fn csv_finish(buffer: CsvBuffer) -> (text: Option<String>)
    ensures
        text is Some,
        text matches Some(out) ==> out@ == csv_text(csv_records(buffer)),
{
    String::from_utf8(buffer.writer.into_inner().ok()?).ok()
}

/// The record that heads an export.
pub open spec fn heading() -> Seq<Seq<char>> {
    seq!["Response ID"@, "Created At"@, "Response Data"@]
}

/// The record of one response.
pub open spec fn record_of(row: ExportRow) -> Seq<Seq<char>> {
    seq![row.id@, row.created_at@, row.response_data@]
}

/// The records of an export: the heading, then one record for each response
/// in the order given.
pub open spec fn sheet(rows: Seq<ExportRow>) -> Seq<Seq<Seq<char>>> {
    seq![heading()] + Seq::new(rows.len(), |i: int| record_of(rows[i]))
}

/// Writes the responses as comma-separated values: a heading and one line
/// for each response, in the order given.
pub fn export_csv(rows: &Vec<ExportRow>) -> (text: Result<String, AppError>)
    ensures
        text matches Ok(out) && out@ == csv_text(sheet(rows@)),
{
    let mut head: Vec<String> = Vec::new();
    head.push(String::from_str("Response ID"));
    head.push(String::from_str("Created At"));
    head.push(String::from_str("Response Data"));
    assert(fields_of(head@) =~= heading());
    let mut buffer = match csv_write(csv_writer(), &head) {
        Ok(after) => after,
        Err(_) => { return Err(AppError::InternalError); },
    };
    let mut i: usize = 0;
    while i < rows.len()
        invariant
            i <= rows@.len(),
            csv_records(buffer) == sheet(rows@.subrange(0, i as int)),
        decreases rows@.len() - i,
    {
        let row = &rows[i];
        let mut record: Vec<String> = Vec::new();
        record.push(row.id.clone());
        record.push(row.created_at.clone());
        record.push(row.response_data.clone());
        assert(fields_of(record@) =~= record_of(rows@[i as int]));
        assert(csv_records(buffer)[0] == heading());
        let ghost before = csv_records(buffer);
        buffer = match csv_write(buffer, &record) {
            Ok(after) => after,
            Err(_) => { return Err(AppError::InternalError); },
        };
        assert(before.push(record_of(rows@[i as int])) =~= sheet(rows@.subrange(0, i + 1)));
        i += 1;
    }
    assert(rows@.subrange(0, i as int) =~= rows@);
    match csv_finish(buffer) {
        Some(out) => Ok(out),
        None => Err(AppError::InternalError),
    }
}

/// What an export comes to before anything is written, if it is refused:
/// first the form must be the caller's, then the format must be available.
/// An absent form and the form of another user are refused alike, whatever
/// the format; `sheets` is refused as not available yet and every format but
/// `csv` and `sheets` as invalid, both as validation failures.
pub open spec fn export_objection(form: Option<Form>, user_id: u128, format: Seq<char>) -> Option<
    AppErrorView,
> {
    match owner_access(form, user_id) {
        Err(error) => Some(error),
        Ok(_) => match ExportFormat::named(format) {
            Some(ExportFormat::Csv) => None,
            Some(ExportFormat::Sheets) => Some(
                AppErrorView::ValidationError("Sheets export not implemented yet"@),
            ),
            None => Some(AppErrorView::ValidationError("Invalid export format"@)),
        },
    }
}

/// Exports the responses to a form for `auth_user`, given the form as it
/// was found, if it was, and its responses. Only the owner of the form gets
/// an export, and only as `csv`; see [`export_objection`]. Nothing of the
/// responses is handed out with a refusal.
pub fn export_responses(
    auth_user: &AuthUser,
    form: Option<Form>,
    query: &ExportQuery,
    rows: &Vec<ExportRow>,
) -> (text: Result<String, AppError>)
    ensures
        match export_objection(form, auth_user.user_id, query.format@) {
            Some(error) => text matches Err(refusal) && refusal@ == error,
            None => text matches Ok(out) && out@ == csv_text(sheet(rows@)),
        },
{
    match require_owned(form, auth_user) {
        Ok(_) => {},
        Err(error) => { return Err(error); },
    }
    match ExportFormat::parse(query.format.as_str()) {
        Some(ExportFormat::Csv) => export_csv(rows),
        Some(ExportFormat::Sheets) => Err(
            AppError::ValidationError(String::from_str("Sheets export not implemented yet")),
        ),
        None => Err(AppError::ValidationError(String::from_str("Invalid export format"))),
    }
}

} // verus!
