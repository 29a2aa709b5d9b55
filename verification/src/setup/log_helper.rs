//! The lines that open the log of a run.
use crate::setup::InitParams;
use crate::text::joined;
use vstd::prelude::*;
use vstd::string::StringExecFns;

verus! {

/// The rule that sets the parameters apart in the log.
pub const RULE: &'static str = "************************************";

/// The word for a truth value.
pub open spec fn truth(b: bool) -> Seq<char> {
    if b {
        "true"@
    } else {
        "false"@
    }
}

/// The lines that record the parameters of a run.
pub open spec fn startup_lines(ip: InitParams) -> Seq<Seq<char>> {
    seq![
        "PROGRAM START"@,
        ""@,
        RULE@,
        ""@,
        "data_folder: "@ + ip.data_folder@,
        "log_folder: "@ + ip.log_folder@,
        "import_data: "@ + truth(ip.flags.import_data),
        "include non Latin: "@ + truth(ip.flags.include_nonlatin),
        ""@,
        RULE@,
        ""@,
    ]
}

/// The texts of a list of lines.
pub open spec fn line_texts(lines: Seq<String>) -> Seq<Seq<char>> {
    Seq::new(lines.len(), |i: int| lines[i]@)
}

fn truth_word(b: bool) -> (w: &'static str)
    ensures
        w@ == truth(b),
{
    if b {
        "true"
    } else {
        "false"
    }
}

/// Writes the lines that record the parameters of a run.
pub fn log_startup_params(ip: &InitParams) -> (lines: Vec<String>)
    ensures
        line_texts(lines@) == startup_lines(*ip),
{
    let mut lines: Vec<String> = Vec::new();
    lines.push(String::from_str("PROGRAM START"));
    lines.push(String::from_str(""));
    lines.push(String::from_str(RULE));
    lines.push(String::from_str(""));
    lines.push(joined("data_folder: ", ip.data_folder.as_str()));
    lines.push(joined("log_folder: ", ip.log_folder.as_str()));
    lines.push(joined("import_data: ", truth_word(ip.flags.import_data)));
    lines.push(joined("include non Latin: ", truth_word(ip.flags.include_nonlatin)));
    lines.push(String::from_str(""));
    lines.push(String::from_str(RULE));
    lines.push(String::from_str(""));
    lines
}

} // verus!
