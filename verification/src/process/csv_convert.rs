//! Turning a table of comma-separated values into JSON or YAML: every line
//! after the first becomes an object whose keys are the fields of the first
//! line. Reading the table is the `csv` crate's, writing the objects is
//! `serde_json`'s and `serde_yaml`'s; pairing fields with their names is
//! proved here.

use crate::cli::csv::OutputFormat;
use vstd::prelude::*;

verus! {

/// `csv::Error`, the refusal of the `csv` crate's reader. Nothing is known of
/// what is in it.
#[verifier::external_type_specification]
#[verifier::external_body]
pub struct ExCsvError(csv::Error);

/// `serde_json::Error`. Nothing is known of what is in it.
#[verifier::external_type_specification]
#[verifier::external_body]
pub struct ExJsonError(serde_json::Error);

/// `serde_yaml::Error`. Nothing is known of what is in it.
#[verifier::external_type_specification]
#[verifier::external_body]
pub struct ExYamlError(serde_yaml::Error);

/// Why a table could not be converted.
#[derive(Clone, Copy, Debug, PartialEq, Eq, Structural)]
pub enum CsvError {
    /// The input is no table of comma-separated values.
    Parse,
    /// The objects could not be written in the format asked for.
    Render,
}

/// What to tell the user of each refusal.
pub open spec fn error_text(error: CsvError) -> Seq<char> {
    match error {
        CsvError::Parse => "the input is not a table of comma-separated values"@,
        CsvError::Render => "the table could not be written in this format"@,
    }
}

impl CsvError {
    /// What to tell the user.
    pub fn message(self) -> (text: &'static str)
        ensures
            text@ == error_text(self),
    {
        match self {
            CsvError::Parse => "the input is not a table of comma-separated values",
            CsvError::Render => "the table could not be written in this format",
        }
    }
}

/// The lines of a table of comma-separated values, each as its fields, the
/// line of names first; nothing where the input is no such table. It is
/// what a `Reader` of the `csv` crate reads.
pub uninterp spec fn csv_rows(input: Seq<u8>) -> Option<Seq<Seq<Seq<char>>>>;

/// Pretty-printed JSON for an array of objects, each given as its pairs of
/// key and value: what `serde_json::to_string_pretty` writes.
pub uninterp spec fn json_pretty(records: Seq<Seq<(Seq<char>, Seq<char>)>>) -> Seq<char>;

/// YAML for an array of objects, each given as its pairs of key and value:
/// what `serde_yaml::to_string` writes.
pub uninterp spec fn yaml_text(records: Seq<Seq<(Seq<char>, Seq<char>)>>) -> Seq<char>;

/// The fields of a line.
pub open spec fn row_view(row: Vec<String>) -> Seq<Seq<char>> {
    Seq::new(row@.len(), |i: int| row@[i]@)
}

/// The lines of a table.
pub open spec fn rows_view(rows: Vec<Vec<String>>) -> Seq<Seq<Seq<char>>> {
    Seq::new(rows@.len(), |i: int| row_view(rows@[i]))
}

/// The pairs of an object.
pub open spec fn record_view(record: Vec<(String, String)>) -> Seq<(Seq<char>, Seq<char>)> {
    Seq::new(record@.len(), |i: int| (record@[i].0@, record@[i].1@))
}

/// The objects of an array.
pub open spec fn records_view(records: Vec<Vec<(String, String)>>) -> Seq<
    Seq<(Seq<char>, Seq<char>)>,
> {
    Seq::new(records@.len(), |i: int| record_view(records@[i]))
}

/// Each field of `row` with the name at the same place in `headers`, as far
/// as both reach.
pub open spec fn zipped(headers: Seq<Seq<char>>, row: Seq<Seq<char>>) -> Seq<
    (Seq<char>, Seq<char>),
> {
    Seq::new(
        if headers.len() <= row.len() {
            headers.len()
        } else {
            row.len()
        },
        |i: int| (headers[i], row[i]),
    )
}

/// The objects of a table: one for every line after the first.
pub open spec fn records_of(table: Seq<Seq<Seq<char>>>) -> Seq<Seq<(Seq<char>, Seq<char>)>> {
    if table.len() == 0 {
        Seq::empty()
    } else {
        Seq::new((table.len() - 1) as nat, |i: int| zipped(table[0], table[i + 1]))
    }
}

/// The text for an array of objects in the format asked for.
pub open spec fn rendered(format: OutputFormat, records: Seq<Seq<(Seq<char>, Seq<char>)>>) -> Seq<
    char,
> {
    match format {
        OutputFormat::Json => json_pretty(records),
        OutputFormat::Yaml => yaml_text(records),
    }
}

/// `Reader::headers` and `Reader::records` of the `csv` crate on a reader
/// over `input`. Trusted: the lines read are named `csv_rows`, the line of
/// names first, so there is one line at least; an input that the crate
/// refuses has no lines.
#[verifier::external_body]
fn read_rows(input: &[u8]) -> (rows: Result<Vec<Vec<String>>, csv::Error>)
    ensures
        match rows {
            Ok(found) => found@.len() >= 1 && csv_rows(input@) == Some(rows_view(found)),
            Err(_) => csv_rows(input@) is None,
        },
{
    let mut reader = csv::Reader::from_reader(input);
    let mut rows: Vec<Vec<String>> = vec![reader.headers()?.iter().map(String::from).collect()];
    for record in reader.records() {
        rows.push(record?.iter().map(String::from).collect());
    }
    Ok(rows)
}

/// `serde_json::to_string_pretty` on an array of `serde_json::Value`
/// objects, each collected from the pairs of one record. Trusted: the text
/// written is named `json_pretty`.
#[verifier::external_body]
fn write_json(records: &Vec<Vec<(String, String)>>) -> (text: Result<String, serde_json::Error>)
    ensures
        text matches Ok(written) ==> written@ == json_pretty(records_view(*records)),
{
    let values: Vec<serde_json::Value> =
        records.iter().map(|r| r.iter().cloned().collect()).collect();
    serde_json::to_string_pretty(&values)
}

/// `serde_yaml::to_string` on an array of `serde_json::Value` objects, each
/// collected from the pairs of one record. Trusted: the text written is
/// named `yaml_text`.
#[verifier::external_body]
fn write_yaml(records: &Vec<Vec<(String, String)>>) -> (text: Result<String, serde_yaml::Error>)
    ensures
        text matches Ok(written) ==> written@ == yaml_text(records_view(*records)),
{
    let values: Vec<serde_json::Value> =
        records.iter().map(|r| r.iter().cloned().collect()).collect();
    serde_yaml::to_string(&values)
}

/// Pairs each field of `row` with the name at the same place in `headers`.
pub fn zip_row(headers: &Vec<String>, row: &Vec<String>) -> (record: Vec<(String, String)>)
    ensures
        record_view(record) == zipped(row_view(*headers), row_view(*row)),
{
    let n = if headers.len() <= row.len() {
        headers.len()
    } else {
        row.len()
    };
    let mut record: Vec<(String, String)> = Vec::new();
    let mut i: usize = 0;
    while i < n
        invariant
            i <= n,
            n <= headers@.len(),
            n <= row@.len(),
            record@.len() == i,
            forall|j: int|
                0 <= j < i ==> (#[trigger] record@[j]).0@ == headers@[j]@ && record@[j].1@
                    == row@[j]@,
        decreases n - i,
    {
        record.push((headers[i].clone(), row[i].clone()));
        i += 1;
    }
    proof {
        assert(record_view(record) =~= zipped(row_view(*headers), row_view(*row)));
    }
    record
}

/// The objects of a table whose first line names the columns.
pub fn table_records(rows: &Vec<Vec<String>>) -> (records: Vec<Vec<(String, String)>>)
    ensures
        records_view(records) == records_of(rows_view(*rows)),
{
    let mut records: Vec<Vec<(String, String)>> = Vec::new();
    if rows.len() == 0 {
        proof {
            assert(records_view(records) =~= records_of(rows_view(*rows)));
        }
        return records;
    }
    let mut i: usize = 1;
    while i < rows.len()
        invariant
            1 <= i <= rows@.len(),
            records@.len() == i - 1,
            forall|j: int|
                0 <= j < i - 1 ==> record_view(#[trigger] records@[j]) == zipped(
                    row_view(rows@[0]),
                    row_view(rows@[j + 1]),
                ),
        decreases rows@.len() - i,
    {
        records.push(zip_row(&rows[0], &rows[i]));
        i += 1;
    }
    proof {
        assert(records_view(records) =~= records_of(rows_view(*rows)));
    }
    records
}

/// What writing JSON came to.
pub fn json_output(text: Result<String, serde_json::Error>) -> (output: Result<String, CsvError>)
    ensures
        match output {
            Ok(found) => text matches Ok(given) && found == given,
            Err(e) => text is Err && e == CsvError::Render,
        },
{
    match text {
        Ok(written) => Ok(written),
        Err(_) => Err(CsvError::Render),
    }
}

/// What writing YAML came to.
pub fn yaml_output(text: Result<String, serde_yaml::Error>) -> (output: Result<String, CsvError>)
    ensures
        match output {
            Ok(found) => text matches Ok(given) && found == given,
            Err(e) => text is Err && e == CsvError::Render,
        },
{
    match text {
        Ok(written) => Ok(written),
        Err(_) => Err(CsvError::Render),
    }
}

/// What reading the table came to.
pub fn csv_input(rows: Result<Vec<Vec<String>>, csv::Error>) -> (input: Result<
    Vec<Vec<String>>,
    CsvError,
>)
    ensures
        match input {
            Ok(found) => rows matches Ok(given) && found == given,
            Err(e) => rows is Err && e == CsvError::Parse,
        },
{
    match rows {
        Ok(found) => Ok(found),
        Err(_) => Err(CsvError::Parse),
    }
}

/// Converts the table in `input` to an array of objects in the format
/// asked for. The first line names the columns; every other line becomes
/// one object.
pub fn process_csv(input: &[u8], format: OutputFormat) -> (output: Result<String, CsvError>)
    ensures
        match output {
            Ok(text) => csv_rows(input@) matches Some(table) && text@ == rendered(
                format,
                records_of(table),
            ),
            Err(CsvError::Parse) => csv_rows(input@) is None,
            Err(CsvError::Render) => csv_rows(input@) is Some,
        },
{
    let rows = csv_input(read_rows(input))?;
    let records = table_records(&rows);
    match format {
        OutputFormat::Json => json_output(write_json(&records)),
        OutputFormat::Yaml => yaml_output(write_yaml(&records)),
    }
}

} // verus!
