//! What a run is given: the settings of the configuration file, the flags
//! of the command line, and the parameters that come of the two.
pub mod cli_reader;
pub mod config_reader;
pub mod log_helper;

use crate::err::AppError;
use crate::setup::cli_reader::{CliPars, Flags};
use crate::setup::config_reader::FilePars;
use crate::setup::log_helper::{line_texts, log_startup_params, startup_lines};
use vstd::prelude::*;
use vstd::string::StringExecFns;

verus! {

/// The parameters of a run. A folder is held as the text of its path.
#[derive(Debug)]
pub struct InitParams {
    pub data_folder: String,
    pub log_folder: String,
    pub output_folder: String,
    pub source_file_name: String,
    pub flags: Flags,
}

/// Whether the log of the run has been set up.
#[derive(Clone, Copy, Debug, PartialEq, Eq, Structural)]
pub struct LogState {
    pub running: Option<bool>,
}

/// A folder of the configuration, or the data folder where none is given
/// and the data folder is there.
pub open spec fn folder_or_data(folder: Seq<char>, data_folder: Seq<char>, data_ok: bool) -> Seq<
    char,
> {
    if folder.len() == 0 && data_ok {
        data_folder
    } else {
        folder
    }
}

/// The name of the source file: that of the command line, or that of the
/// configuration where the command line gives none.
pub open spec fn source_name(cli: Seq<char>, configured: Seq<char>) -> Seq<char> {
    if cli.len() == 0 {
        configured
    } else {
        cli
    }
}

/// The parameter whose lack stops the run, if one does: an import needs the
/// data folder to be there, and the name of a source file.
pub open spec fn missing_parameter(
    cli: CliPars,
    files: FilePars,
    data_folder_exists: bool,
) -> Option<Seq<char>> {
    if !cli.flags.import_data {
        None
    } else if !data_folder_exists {
        Some("data_folder"@)
    } else if source_name(cli.source_file@, files.src_file_name@).len() == 0 {
        Some("src_file_name"@)
    } else {
        None
    }
}

/// Puts the command line and the configuration together. What the command
/// line gives comes before what is configured.
pub fn get_params(cli_pars: CliPars, file_pars: FilePars, data_folder_exists: bool) -> (r: Result<
    InitParams,
    AppError,
>)
    ensures
        match r {
            Ok(p) => {
                &&& missing_parameter(cli_pars, file_pars, data_folder_exists) is None
                &&& p.data_folder@ == file_pars.data_folder_path@
                &&& p.log_folder@ == folder_or_data(
                    file_pars.log_folder_path@,
                    file_pars.data_folder_path@,
                    data_folder_exists,
                )
                &&& p.output_folder@ == folder_or_data(
                    file_pars.output_folder_path@,
                    file_pars.data_folder_path@,
                    data_folder_exists,
                )
                &&& p.source_file_name@ == source_name(
                    cli_pars.source_file@,
                    file_pars.src_file_name@,
                )
                &&& p.flags == cli_pars.flags
            },
            Err(e) => {
                &&& e matches AppError::MissingProgramParameter(name)
                &&& missing_parameter(cli_pars, file_pars, data_folder_exists) == Some(name@)
            },
        },
{
    let flags = cli_pars.flags;
    if !data_folder_exists && flags.import_data {
        return Err(AppError::MissingProgramParameter(String::from_str("data_folder")));
    }
    let data_folder = file_pars.data_folder_path;
    let log_folder = if file_pars.log_folder_path.as_str().unicode_len() == 0
        && data_folder_exists {
        data_folder.clone()
    } else {
        file_pars.log_folder_path
    };
    let output_folder = if file_pars.output_folder_path.as_str().unicode_len() == 0
        && data_folder_exists {
        data_folder.clone()
    } else {
        file_pars.output_folder_path
    };
    let source_file_name = if cli_pars.source_file.as_str().unicode_len() == 0 {
        file_pars.src_file_name
    } else {
        cli_pars.source_file
    };
    if source_file_name.as_str().unicode_len() == 0 && flags.import_data {
        return Err(AppError::MissingProgramParameter(String::from_str("src_file_name")));
    }
    Ok(InitParams { data_folder, log_folder, output_folder, source_file_name, flags })
}

/// Tests whether the log has been set up.
pub fn log_set_up(state: &LogState) -> (b: bool)
    ensures
        b == state.running is Some,
{
    match state.running {
        Some(_) => true,
        None => false,
    }
}

/// Sets the log up unless that has been done: the state then records it,
/// and the lines that open the log are given. Where the log has been set up
/// before, nothing changes and no line is given.
pub fn establish_log(params: &InitParams, state: &mut LogState) -> (opening: Option<Vec<String>>)
    ensures
        match opening {
            Some(lines) => {
                &&& old(state).running is None
                &&& final(state).running == Some(true)
                &&& line_texts(lines@) == startup_lines(*params)
            },
            None => old(state).running is Some && *final(state) == *old(state),
        },
{
    if !log_set_up(state) {
        state.running = Some(true);
        Some(log_startup_params(params))
    } else {
        None
    }
}

} // verus!
