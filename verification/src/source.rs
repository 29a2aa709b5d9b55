//! Source files as tab-separated records.
use crate::line::lines;
use vstd::prelude::*;

verus! {

/// The fault that the `csv` crate reports.
#[verifier::external_type_specification]
#[verifier::external_body]
pub struct ExCsvError(csv::Error);

/// What the `csv` crate reads from the bytes of a source file, taken as
/// tab-separated records without a header row: the records that it reads
/// before the end of the data or its first fault, each as the list of its
/// fields, and whether a fault stopped the reading.
pub uninterp spec fn tab_separated(data: Seq<u8>) -> (Seq<Seq<Seq<char>>>, bool);

/// Splits the bytes of a source file into records with a reader of the `csv`
/// crate (`ReaderBuilder` with `has_headers(false)` and `delimiter(b'\t')`,
/// then `Reader::records`). The result is the records read before the first
/// fault, and that fault if there was one; it depends on the bytes alone.
#[verifier::external_body]
pub(crate) fn read_records(data: &[u8]) -> (r: (Vec<Vec<String>>, Option<csv::Error>))
    ensures
        lines(r.0@) == tab_separated(data@).0,
        r.1 is Some == tab_separated(data@).1,
{
    let mut reader = csv::ReaderBuilder::new().has_headers(false).delimiter(b'\t').from_reader(data);
    let mut records: Vec<Vec<String>> = Vec::new();
    for record in reader.records() {
        match record {
            Ok(fields) => records.push(fields.iter().map(String::from).collect()),
            Err(fault) => return (records, Some(fault)),
        }
    }
    (records, None)
}

/// The message of a fault of the `csv` crate (its `Display` form). Nothing is
/// claimed of the text.
#[verifier::external_body]
pub(crate) fn fault_message(fault: &csv::Error) -> (message: String) {
    fault.to_string()
}

} // verus!
