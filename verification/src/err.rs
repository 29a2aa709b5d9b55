//! The errors of a run, and how one is reported.
use crate::line::Fault;
use crate::number::{decimal, decimal_string};
use crate::text::{chars_of, joined, push_char, trim_bounds, trimmed};
use vstd::prelude::*;
use vstd::string::StringExecFns;

verus! {

/// What can end a run. Every variant carries plain text: the message of an
/// outside fault is taken over as it was given.
#[derive(Debug)]
pub enum AppError {
    /// A setting of the configuration is missing or unusable: what is wrong,
    /// and what to do about it.
    ConfigurationError(String, String),
    /// The parameters of the database are not available.
    MissingDBParameters,
    /// A required parameter is neither configured nor given on the command
    /// line: its name.
    MissingProgramParameter(String),
    /// A file could not be read: the fault, and the path.
    IoReadErrorWithPath(String, String),
    /// A file could not be written: the fault, and the path.
    IoWriteErrorWithPath(String, String),
    /// The log could not be set up: what failed, and the fault.
    LogSetupError(String, String),
    /// The command line could not be understood: the fault.
    ClapError(String),
    /// A document could not be decoded: the fault.
    SerdeError(String),
    /// No connection pool could be had: the fault, and the database asked
    /// for.
    DBPoolError(String, String),
    /// A statement failed: the fault, and the text of the statement.
    SqlxError(String, String),
    /// Another fault of input or output.
    IoError(String),
    /// A line of a source file is malformed: the index of the record,
    /// counted from zero, and its first fault.
    MalformedRecord(usize, Fault),
    /// A source file could not be split into records: the index of the
    /// record at which reading stopped, counted from zero, and the fault.
    UnreadableSource(usize, String),
}

/// The width of a report, in characters.
pub const REPORT_WIDTH: usize = 100;

/// A row of `n` stars.
pub open spec fn stars(n: nat) -> Seq<char> {
    Seq::new(n, |i: int| '*')
}

/// The number of stars on either side of a header in a line of `star_num`
/// characters: half of what the header and the two blanks around it leave,
/// and none where they leave nothing.
pub open spec fn star_batch(star_num: int, header_len: int) -> nat {
    if header_len + 2 <= star_num {
        ((star_num - 2 - header_len) / 2) as nat
    } else {
        0
    }
}

/// The line that carries a header between two rows of stars. A header of
/// odd length is followed by one more blank, so that the two rows are of
/// one length.
pub open spec fn header_line(star_num: int, header: Seq<char>) -> Seq<char> {
    let batch = stars(star_batch(star_num, header.len() as int));
    batch + " "@ + header + (if header.len() % 2 != 0 {
        " "@
    } else {
        ""@
    }) + " "@ + batch
}

/// Writes a row of stars.
pub fn star_line(n: usize) -> (s: String)
    ensures
        s@ == stars(n as nat),
{
    let mut s = String::new();
    let mut i: usize = 0;
    while i < n
        invariant
            i <= n,
            s@ == stars(i as nat),
        decreases n - i,
    {
        push_char(&mut s, '*');
        i += 1;
    }
    s
}

/// Writes the line that carries a header between two rows of stars.
pub fn get_header_line(star_num: usize, header: &str) -> (line: String)
    ensures
        line@ == header_line(star_num as int, header@),
{
    let hdr_len = header.unicode_len();
    let star_batch_num = if hdr_len <= star_num && star_num - hdr_len >= 2 {
        (star_num - 2 - hdr_len) / 2
    } else {
        0
    };
    let star_batch = star_line(star_batch_num);
    let mut line = star_batch.clone();
    line.append(" ");
    line.append(header);
    if hdr_len % 2 != 0 {
        line.append(" ");
    } else {
        line.append("");
    }
    line.append(" ");
    line.append(star_batch.as_str());
    line
}

/// The pieces of a text between its full stops, in order.
pub open spec fn pieces(s: Seq<char>) -> Seq<Seq<char>>
    decreases s.len(),
{
    if s.len() == 0 {
        seq![Seq::<char>::empty()]
    } else {
        let before = pieces(s.drop_last());
        if s.last() == '.' {
            before.push(Seq::<char>::empty())
        } else {
            before.update(before.len() - 1, before.last().push(s.last()))
        }
    }
}

/// A piece as a sentence: without the white space at either end, and with a
/// full stop after it.
pub open spec fn sentence(piece: Seq<char>) -> Seq<char> {
    trimmed(piece).push('.')
}

/// The sentences of a message, one for each of its pieces.
pub open spec fn sentences(s: Seq<char>) -> Seq<Seq<char>> {
    Seq::new(pieces(s).len(), |i: int| sentence(pieces(s)[i]))
}

/// The texts of a list of lines.
pub open spec fn texts_of(lines: Seq<String>) -> Seq<Seq<char>> {
    Seq::new(lines.len(), |i: int| lines[i]@)
}

/// Writes a piece as a sentence.
fn write_sentence(piece: &Vec<char>) -> (s: String)
    ensures
        s@ == sentence(piece@),
{
    let (start, end) = trim_bounds(piece);
    let mut s = String::new();
    let mut i: usize = start;
    while i < end
        invariant
            start <= i <= end <= piece.len(),
            s@ == piece@.subrange(start as int, i as int),
        decreases end - i,
    {
        push_char(&mut s, piece[i]);
        i += 1;
    }
    push_char(&mut s, '.');
    s
}

/// Cuts a message into its sentences.
pub fn sentences_of(msg: &str) -> (lines: Vec<String>)
    ensures
        texts_of(lines@) == sentences(msg@),
{
    let v = chars_of(msg);
    let mut lines: Vec<String> = Vec::new();
    let mut piece: Vec<char> = Vec::new();
    let mut i: usize = 0;
    while i < v.len()
        invariant
            i <= v.len(),
            v@ == msg@,
            pieces(v@.take(i as int)).len() == lines@.len() + 1,
            pieces(v@.take(i as int)).last() == piece@,
            forall|k: int|
                0 <= k < lines@.len() ==> (#[trigger] lines@[k])@ == sentence(
                    pieces(v@.take(i as int))[k],
                ),
        decreases v.len() - i,
    {
        proof {
            assert(v@.take(i + 1).drop_last() == v@.take(i as int));
        }
        if v[i] == '.' {
            lines.push(write_sentence(&piece));
            piece = Vec::new();
        } else {
            piece.push(v[i]);
        }
        i += 1;
    }
    assert(v@.take(v.len() as int) == v@);
    lines.push(write_sentence(&piece));
    lines
}

/// What is wrong with a line, in words.
pub open spec fn fault_text(f: Fault) -> Seq<char> {
    match f {
        Fault::Missing(i) => "column "@ + decimal(i as nat) + " is missing"@,
        Fault::NotNumber(i) => "column "@ + decimal(i as nat) + " does not hold a number"@,
    }
}

/// Says in words what is wrong with a line.
pub fn describe_fault(f: Fault) -> (s: String)
    ensures
        s@ == fault_text(f),
{
    match f {
        Fault::Missing(i) => {
            let mut s = joined("column ", decimal_string(i as u64).as_str());
            s.append(" is missing");
            s
        },
        Fault::NotNumber(i) => {
            let mut s = joined("column ", decimal_string(i as u64).as_str());
            s.append(" does not hold a number");
            s
        },
    }
}

/// The header under which an error is reported.
pub open spec fn report_header(e: AppError) -> Seq<char> {
    match e {
        AppError::ConfigurationError(_, _) => "CONFIGURATION ERROR"@,
        AppError::MissingDBParameters => "DB PARAMETERS ERROR"@,
        AppError::MissingProgramParameter(_) => "MISSING PARAMETER"@,
        AppError::IoReadErrorWithPath(_, _) => "FILE READING PROBLEM"@,
        AppError::IoWriteErrorWithPath(_, _) => "FILE WRITING PROBLEM"@,
        AppError::LogSetupError(_, _) => "LOG SETUP ERROR"@,
        AppError::ClapError(_) => "CLAP ERROR"@,
        AppError::SerdeError(_) => "SERDE JSON ERROR"@,
        AppError::DBPoolError(_, _) => "DB POOL ERROR"@,
        AppError::SqlxError(_, _) => "SQLX ERROR"@,
        AppError::IoError(_) => "IO ERROR"@,
        AppError::MalformedRecord(_, _) => "MALFORMED RECORD"@,
        AppError::UnreadableSource(_, _) => "SOURCE FILE PROBLEM"@,
    }
}

/// The lines that describe an error, between the header and the closing
/// row of stars. The fault of a statement and a fault of input or output
/// are given sentence by sentence; a failed statement is followed by its
/// text.
pub open spec fn report_body(e: AppError) -> Seq<Seq<char>> {
    match e {
        AppError::ConfigurationError(p, d) => seq![p@, d@],
        AppError::MissingDBParameters => seq![
            "Unable to obtain database parameters."@,
            "The settings of the database have not been read."@,
        ],
        AppError::MissingProgramParameter(p) => seq![
            "A required parameter is neither in the config file nor the command line arguments"@,
            "Parameter is: "@ + p@,
        ],
        AppError::IoReadErrorWithPath(f, p) => seq![f@, "Path was: "@ + p@],
        AppError::IoWriteErrorWithPath(f, p) => seq![f@, "Path was: "@ + p@],
        AppError::LogSetupError(p, d) => seq![p@, d@],
        AppError::ClapError(f) => seq!["Error occurred when parsing CLI arguments"@, f@],
        AppError::SerdeError(f) => seq!["Error occurred when parsing JSON file"@, f@],
        AppError::DBPoolError(f, n) => seq![
            "An error occurred while creating the DB pool: "@ + f@,
            "Database requested was: "@ + n@,
        ],
        AppError::SqlxError(f, sql) => sentences(f@).push("Statement was: "@ + sql@),
        AppError::IoError(f) => sentences(f@),
        AppError::MalformedRecord(n, f) => seq![
            "A line of the source file is malformed"@,
            "Record "@ + decimal(n as nat) + ": "@ + fault_text(f),
        ],
        AppError::UnreadableSource(n, f) => seq![
            "The source file could not be read beyond record "@ + decimal(n as nat),
            f@,
        ],
    }
}

/// The report of an error, line by line: an empty line, the header between
/// stars, the description, a row of stars, an empty line.
pub open spec fn report(e: AppError) -> Seq<Seq<char>> {
    seq![""@, header_line(REPORT_WIDTH as int, report_header(e))] + report_body(e) + seq![
        stars(REPORT_WIDTH as nat),
        ""@,
    ]
}

/// Picks the header under which an error is reported.
pub fn header_of(e: &AppError) -> (h: &'static str)
    ensures
        h@ == report_header(*e),
{
    match e {
        AppError::ConfigurationError(_, _) => "CONFIGURATION ERROR",
        AppError::MissingDBParameters => "DB PARAMETERS ERROR",
        AppError::MissingProgramParameter(_) => "MISSING PARAMETER",
        AppError::IoReadErrorWithPath(_, _) => "FILE READING PROBLEM",
        AppError::IoWriteErrorWithPath(_, _) => "FILE WRITING PROBLEM",
        AppError::LogSetupError(_, _) => "LOG SETUP ERROR",
        AppError::ClapError(_) => "CLAP ERROR",
        AppError::SerdeError(_) => "SERDE JSON ERROR",
        AppError::DBPoolError(_, _) => "DB POOL ERROR",
        AppError::SqlxError(_, _) => "SQLX ERROR",
        AppError::IoError(_) => "IO ERROR",
        AppError::MalformedRecord(_, _) => "MALFORMED RECORD",
        AppError::UnreadableSource(_, _) => "SOURCE FILE PROBLEM",
    }
}

/// A list of two lines.
fn two(a: String, b: String) -> (lines: Vec<String>)
    ensures
        texts_of(lines@) == seq![a@, b@],
{
    let mut lines: Vec<String> = Vec::new();
    lines.push(a);
    lines.push(b);
    lines
}

/// Writes the lines that describe an error.
pub fn body_of(e: &AppError) -> (lines: Vec<String>)
    ensures
        texts_of(lines@) == report_body(*e),
{
    match e {
        AppError::ConfigurationError(p, d) => two(p.clone(), d.clone()),
        AppError::MissingDBParameters => two(
            String::from_str("Unable to obtain database parameters."),
            String::from_str("The settings of the database have not been read."),
        ),
        AppError::MissingProgramParameter(p) => two(
            String::from_str(
                "A required parameter is neither in the config file nor the command line arguments",
            ),
            joined("Parameter is: ", p.as_str()),
        ),
        AppError::IoReadErrorWithPath(f, p) => two(f.clone(), joined("Path was: ", p.as_str())),
        AppError::IoWriteErrorWithPath(f, p) => two(f.clone(), joined("Path was: ", p.as_str())),
        AppError::LogSetupError(p, d) => two(p.clone(), d.clone()),
        AppError::ClapError(f) => two(
            String::from_str("Error occurred when parsing CLI arguments"),
            f.clone(),
        ),
        AppError::SerdeError(f) => two(
            String::from_str("Error occurred when parsing JSON file"),
            f.clone(),
        ),
        AppError::DBPoolError(f, n) => two(
            joined("An error occurred while creating the DB pool: ", f.as_str()),
            joined("Database requested was: ", n.as_str()),
        ),
        AppError::SqlxError(f, sql) => {
            let mut lines = sentences_of(f.as_str());
            lines.push(joined("Statement was: ", sql.as_str()));
            lines
        },
        AppError::IoError(f) => sentences_of(f.as_str()),
        AppError::MalformedRecord(n, f) => {
            let mut second = joined("Record ", decimal_string(*n as u64).as_str());
            second.append(": ");
            second.append(describe_fault(*f).as_str());
            two(String::from_str("A line of the source file is malformed"), second)
        },
        AppError::UnreadableSource(n, f) => two(
            joined(
                "The source file could not be read beyond record ",
                decimal_string(*n as u64).as_str(),
            ),
            f.clone(),
        ),
    }
}

/// Writes the report of an error, line by line, for the error stream.
pub fn report_error(e: &AppError) -> (lines: Vec<String>)
    ensures
        texts_of(lines@) == report(*e),
{
    let mut lines: Vec<String> = Vec::new();
    lines.push(String::from_str(""));
    lines.push(get_header_line(REPORT_WIDTH, header_of(e)));
    let body = body_of(e);
    let mut i: usize = 0;
    while i < body.len()
        invariant
            i <= body.len(),
            texts_of(lines@) == seq![
                ""@,
                header_line(REPORT_WIDTH as int, report_header(*e)),
            ] + texts_of(body@).take(i as int),
        decreases body.len() - i,
    {
        let ghost before = texts_of(lines@);
        lines.push(body[i].clone());
        assert(texts_of(lines@) == before.push(body@[i as int]@));
        i += 1;
    }
    assert(texts_of(body@).take(body@.len() as int) == texts_of(body@));
    lines.push(star_line(REPORT_WIDTH));
    lines.push(String::from_str(""));
    lines
}

} // verus!
