//! CSV records as JSON or YAML: each record becomes an object that maps the
//! names of the header to the record's fields.

use vstd::prelude::*;

use crate::cli::csv::OutputFormat;

verus! {

/// Why a CSV text was not converted.
#[derive(Debug, Clone, Copy, PartialEq, Eq, Structural)]
pub enum CsvError {
    /// The header or a record cannot be read.
    InvalidCsv,
    /// The records cannot be written in the format.
    NotSerializable,
}

/// The fields of the header that `csv::Reader::headers` reads from `data`
/// with the reader's default settings, or nothing where it fails.
pub uninterp spec fn csv_header(data: Seq<u8>) -> Option<Seq<Seq<char>>>;

/// The records after the header that `csv::Reader::records` reads from
/// `data` with the reader's default settings, each as its fields, or nothing
/// where one of them fails.
pub uninterp spec fn csv_records(data: Seq<u8>) -> Option<Seq<Seq<Seq<char>>>>;

/// The text that `serde_json::to_string_pretty` writes for the array of the
/// objects collected from `rows`, or nothing where it fails.
pub uninterp spec fn json_pretty_text(rows: Seq<Seq<(Seq<char>, Seq<char>)>>) -> Option<Seq<char>>;

/// The text that `serde_yaml::to_string` writes for the array of the objects
/// collected from `rows`, or nothing where it fails.
pub uninterp spec fn yaml_text(rows: Seq<Seq<(Seq<char>, Seq<char>)>>) -> Option<Seq<char>>;

/// The texts of a record's fields.
pub open spec fn fields_view(fields: Seq<String>) -> Seq<Seq<char>> {
    Seq::new(fields.len(), |i: int| fields[i]@)
}

/// The texts of the fields of each record.
pub open spec fn records_view(records: Seq<Vec<String>>) -> Seq<Seq<Seq<char>>> {
    Seq::new(records.len(), |i: int| fields_view(records[i]@))
}

/// The texts of a row's names and fields.
pub open spec fn row_view(row: Seq<(String, String)>) -> Seq<(Seq<char>, Seq<char>)> {
    Seq::new(row.len(), |i: int| (row[i].0@, row[i].1@))
}

/// The texts of each row.
pub open spec fn rows_view(rows: Seq<Vec<(String, String)>>) -> Seq<Seq<(Seq<char>, Seq<char>)>> {
    Seq::new(rows.len(), |i: int| row_view(rows[i]@))
}

/// The view of fields that may be absent.
pub open spec fn fields_option(o: Option<Vec<String>>) -> Option<Seq<Seq<char>>> {
    match o {
        Some(fields) => Some(fields_view(fields@)),
        None => None,
    }
}

/// The view of records that may be absent.
pub open spec fn records_option(o: Option<Vec<Vec<String>>>) -> Option<Seq<Seq<Seq<char>>>> {
    match o {
        Some(records) => Some(records_view(records@)),
        None => None,
    }
}

/// The view of a text that may be absent.
pub open spec fn text_option(o: Option<String>) -> Option<Seq<char>> {
    match o {
        Some(text) => Some(text@),
        None => None,
    }
}

/// Builds a `csv::Reader` on the bytes and calls its `headers`. Trusted: the
/// result is the named header of the argument.
#[verifier::external_body]
fn read_header(data: &[u8]) -> (header: Option<Vec<String>>)
    ensures
        fields_option(header) == csv_header(data@),
{
    let mut reader = csv::Reader::from_reader(data);
    reader.headers().ok().map(|fields| fields.iter().map(str::to_owned).collect())
}

/// Builds a `csv::Reader` on the bytes and calls its `records`. Trusted: the
/// result is the named records of the argument.
#[verifier::external_body]
fn read_records(data: &[u8]) -> (records: Option<Vec<Vec<String>>>)
    ensures
        records_option(records) == csv_records(data@),
{
    let mut reader = csv::Reader::from_reader(data);
    reader.records().map(|r| r.ok().map(|fields| fields.iter().map(str::to_owned).collect())).collect()
}

/// Collects each row into a `serde_json::Value` and calls
/// `serde_json::to_string_pretty` on the array. Trusted: the result is the
/// named JSON text of the rows.
#[verifier::external_body]
fn json_pretty(rows: &Vec<Vec<(String, String)>>) -> (text: Option<String>)
    ensures
        text_option(text) == json_pretty_text(rows_view(rows@)),
{
    let values: Vec<serde_json::Value> = rows.iter().map(|row| row.iter().cloned().collect()).collect();
    serde_json::to_string_pretty(&values).ok()
}

/// Collects each row into a `serde_json::Value` and calls
/// `serde_yaml::to_string` on the array. Trusted: the result is the named
/// YAML text of the rows.
#[verifier::external_body]
fn yaml(rows: &Vec<Vec<(String, String)>>) -> (text: Option<String>)
    ensures
        text_option(text) == yaml_text(rows_view(rows@)),
{
    let values: Vec<serde_json::Value> = rows.iter().map(|row| row.iter().cloned().collect()).collect();
    serde_yaml::to_string(&values).ok()
}

/// The names of the header paired with the fields of a record, in order,
/// as far as both reach.
pub open spec fn zip_spec(header: Seq<Seq<char>>, record: Seq<Seq<char>>) -> Seq<
    (Seq<char>, Seq<char>),
> {
    Seq::new(
        if header.len() <= record.len() {
            header.len()
        } else {
            record.len()
        },
        |i: int| (header[i], record[i]),
    )
}

/// One row for each record.
pub open spec fn table_spec(header: Seq<Seq<char>>, records: Seq<Seq<Seq<char>>>) -> Seq<
    Seq<(Seq<char>, Seq<char>)>,
> {
    Seq::new(records.len(), |i: int| zip_spec(header, records[i]))
}

/// Pairs the names of the header with the fields of a record.
pub fn zip_fields(header: &Vec<String>, record: &Vec<String>) -> (row: Vec<(String, String)>)
    ensures
        row_view(row@) == zip_spec(fields_view(header@), fields_view(record@)),
{
    let n = if header.len() <= record.len() {
        header.len()
    } else {
        record.len()
    };
    let mut row: Vec<(String, String)> = Vec::new();
    let mut i: usize = 0;
    while i < n
        invariant
            i <= n,
            n <= header@.len(),
            n <= record@.len(),
            row@.len() == i,
            forall|j: int| 0 <= j < i ==> (#[trigger] row@[j]).0@ == header@[j]@ && row@[j].1@ == record@[j]@,
        decreases n - i,
    {
        row.push((header[i].clone(), record[i].clone()));
        i += 1;
    }
    assert(row_view(row@) =~= zip_spec(fields_view(header@), fields_view(record@)));
    row
}

/// Pairs the names of the header with the fields of each record.
pub fn table_rows(header: &Vec<String>, records: &Vec<Vec<String>>) -> (rows: Vec<
    Vec<(String, String)>,
>)
    ensures
        rows_view(rows@) == table_spec(fields_view(header@), records_view(records@)),
{
    let mut rows: Vec<Vec<(String, String)>> = Vec::new();
    let mut i: usize = 0;
    while i < records.len()
        invariant
            i <= records@.len(),
            rows@.len() == i,
            forall|j: int|
                0 <= j < i ==> row_view((#[trigger] rows@[j])@) == zip_spec(
                    fields_view(header@),
                    fields_view(records@[j]@),
                ),
        decreases records@.len() - i,
    {
        rows.push(zip_fields(header, &records[i]));
        i += 1;
    }
    assert(rows_view(rows@) =~= table_spec(fields_view(header@), records_view(records@)));
    rows
}

/// The text of the rows in the format.
pub open spec fn rendered(rows: Seq<Seq<(Seq<char>, Seq<char>)>>, format: OutputFormat) -> Option<
    Seq<char>,
> {
    match format {
        OutputFormat::JSON => json_pretty_text(rows),
        OutputFormat::YAML => yaml_text(rows),
    }
}

/// What is made of a header and records that were read, or not.
pub open spec fn converted(
    header: Option<Seq<Seq<char>>>,
    records: Option<Seq<Seq<Seq<char>>>>,
    format: OutputFormat,
) -> Result<Seq<char>, CsvError> {
    match (header, records) {
        (Some(header), Some(records)) => match rendered(table_spec(header, records), format) {
            Some(text) => Ok(text),
            None => Err(CsvError::NotSerializable),
        },
        _ => Err(CsvError::InvalidCsv),
    }
}

/// The view of a result that carries text.
pub open spec fn text_result(r: Result<String, CsvError>) -> Result<Seq<char>, CsvError> {
    match r {
        Ok(text) => Ok(text@),
        Err(e) => Err(e),
    }
}

/// Writes the records under the header in the format; a header or records
/// that could not be read are refused.
pub fn convert_table(
    header: Option<Vec<String>>,
    records: Option<Vec<Vec<String>>>,
    format: OutputFormat,
) -> (r: Result<String, CsvError>)
    ensures
        text_result(r) == converted(fields_option(header), records_option(records), format),
{
    let header = match header {
        Some(header) => header,
        None => { return Err(CsvError::InvalidCsv); },
    };
    let records = match records {
        Some(records) => records,
        None => { return Err(CsvError::InvalidCsv); },
    };
    let rows = table_rows(&header, &records);
    let text = match format {
        OutputFormat::JSON => json_pretty(&rows),
        OutputFormat::YAML => yaml(&rows),
    };
    match text {
        Some(text) => Ok(text),
        None => Err(CsvError::NotSerializable),
    }
}

/// Converts CSV text: the first record names the fields, and every other
/// record becomes an object of the array that is written in the format.
pub fn process_csv(data: &[u8], format: OutputFormat) -> (r: Result<String, CsvError>)
    ensures
        text_result(r) == converted(csv_header(data@), csv_records(data@), format),
{
    let header = read_header(data);
    let records = read_records(data);
    convert_table(header, records, format)
}

} // verus!
