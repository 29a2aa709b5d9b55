//! The flags of the command line, and what they make the run do.
use vstd::prelude::*;

verus! {

/// The flags as they were given on the command line: each is set or not.
#[derive(Clone, Copy, Debug, PartialEq, Eq, Structural)]
pub struct RawFlags {
    /// `-r`: import the source files.
    pub r_flag: bool,
    /// `-x`: write the outputs.
    pub x_flag: bool,
    /// `-i`: first run; stands for `-c` and `-j` together.
    pub i_flag: bool,
    /// `-c`: rebuild the context tables.
    pub c_flag: bool,
    /// `-j`: edit the configuration file.
    pub j_flag: bool,
    /// `-z`: the run is part of a test.
    pub z_flag: bool,
    /// `-n`: keep the names that are beyond Latin.
    pub n_flag: bool,
}

/// What the run is to do.
#[derive(Clone, Copy, Debug, PartialEq, Eq, Structural)]
pub struct Flags {
    pub import_data: bool,
    pub export_data: bool,
    pub initialise: bool,
    pub create_config: bool,
    pub test_run: bool,
    pub include_nonlatin: bool,
}

/// The command line as far as the run reads it.
#[derive(Debug)]
pub struct CliPars {
    pub source_file: String,
    pub flags: Flags,
}

/// What the flags make the run do. With one of `-i`, `-c`, `-j` the run
/// only sets up, and nothing else counts; `-i` stands for the other two.
/// Otherwise the run imports and exports as asked, and importing comes
/// before exporting: with both asked for, only the import is done.
pub open spec fn resolved(raw: RawFlags) -> Flags {
    if raw.i_flag || raw.c_flag || raw.j_flag {
        Flags {
            import_data: false,
            export_data: false,
            initialise: raw.i_flag || raw.c_flag,
            create_config: raw.i_flag || raw.j_flag,
            test_run: false,
            include_nonlatin: false,
        }
    } else {
        Flags {
            import_data: raw.r_flag,
            export_data: raw.x_flag && !raw.r_flag,
            initialise: false,
            create_config: false,
            test_run: raw.z_flag,
            include_nonlatin: raw.n_flag,
        }
    }
}

/// Works out what the flags make the run do.
pub fn fetch_valid_arguments(raw: RawFlags) -> (flags: Flags)
    ensures
        flags == resolved(raw),
{
    let mut x_flag = raw.x_flag;
    let mut j_flag = raw.j_flag;
    let mut c_flag = raw.c_flag;
    if raw.i_flag || c_flag || j_flag {
        if raw.i_flag {
            c_flag = true;
            j_flag = true;
        }
        Flags {
            import_data: false,
            export_data: false,
            initialise: c_flag,
            create_config: j_flag,
            test_run: false,
            include_nonlatin: false,
        }
    } else {
        if raw.r_flag && x_flag {
            x_flag = false;
        }
        Flags {
            import_data: raw.r_flag,
            export_data: x_flag,
            initialise: false,
            create_config: false,
            test_run: raw.z_flag,
            include_nonlatin: raw.n_flag,
        }
    }
}

/// A run never both sets up and works on data, and never exports what it
/// is importing.
pub proof fn lemma_flags_exclude(raw: RawFlags)
    ensures
        (resolved(raw).initialise || resolved(raw).create_config) ==> !resolved(raw).import_data
            && !resolved(raw).export_data && !resolved(raw).test_run,
        !(resolved(raw).import_data && resolved(raw).export_data),
{
}

} // verus!
