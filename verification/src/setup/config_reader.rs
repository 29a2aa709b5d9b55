//! The settings of a run as they stand in the configuration file, and as
//! the run works with them.
use crate::dedup::text_of;
use crate::err::AppError;
use crate::number::{decimal, decimal_string, parse_plain_u64, plain_u64_in};
use crate::text::{is_blank, is_blank_text, joined, same_text};
use vstd::prelude::*;
use vstd::string::StringExecFns;

verus! {

/// The configuration file as it was read: every section and every setting
/// may be absent.
#[derive(Debug)]
pub struct TomlConfig {
    pub data: Option<TomlDataPars>,
    pub files: Option<TomlFilePars>,
    pub database: Option<TomlDBPars>,
}

/// The section on the data, as it was read.
#[derive(Debug)]
pub struct TomlDataPars {
    pub data_date: Option<String>,
}

/// The section on files and folders, as it was read.
#[derive(Debug)]
pub struct TomlFilePars {
    pub data_folder_path: Option<String>,
    pub log_folder_path: Option<String>,
    pub output_folder_path: Option<String>,
    pub src_file_name: Option<String>,
}

/// The section on the database, as it was read.
#[derive(Debug)]
pub struct TomlDBPars {
    pub db_host: Option<String>,
    pub db_user: Option<String>,
    pub db_password: Option<String>,
    pub db_port: Option<String>,
    pub db_name: Option<String>,
}

/// The settings that a run works with.
#[derive(Debug)]
pub struct Config {
    pub data_details: DataPars,
    pub files: FilePars,
    pub db_pars: DBPars,
}

/// The settings on the data.
#[derive(Debug)]
pub struct DataPars {
    pub data_date: String,
}

/// The settings on files and folders. A path is held as its text.
#[derive(Debug)]
pub struct FilePars {
    pub data_folder_path: String,
    pub log_folder_path: String,
    pub output_folder_path: String,
    pub src_file_name: String,
}

/// The settings on the database.
#[derive(Debug)]
pub struct DBPars {
    pub db_host: String,
    pub db_user: String,
    pub db_password: String,
    pub db_port: usize,
    pub db_name: String,
}

/// The port of the database where none is configured.
pub const DEFAULT_PORT: usize = 5432;

/// Whether a setting counts as not given: it is absent, it is the word
/// `none`, or it is made of white space alone.
pub open spec fn is_missing(v: Option<Seq<char>>) -> bool {
    v is None || v->0 == "none"@ || is_blank(v->0)
}

/// A setting, or `default` where it counts as not given.
pub open spec fn or_default(v: Option<Seq<char>>, default: Seq<char>) -> Seq<char> {
    if is_missing(v) {
        default
    } else {
        v->0
    }
}

/// What to do about a missing setting that the run cannot do without.
pub open spec fn advice(action: Seq<char>) -> Seq<char> {
    "The program cannot continue. Please check the config file ('app_config.toml') "@ + action
}

/// The port that a setting gives: the number that it writes in base ten
/// where that fits, and [`DEFAULT_PORT`] otherwise.
pub open spec fn port_of(v: Option<Seq<char>>) -> usize {
    match plain_u64_in(or_default(v, "5432"@)) {
        Some(p) => if p <= usize::MAX {
            p as usize
        } else {
            DEFAULT_PORT
        },
        None => DEFAULT_PORT,
    }
}

/// Tests whether the text of a setting counts as not given.
pub fn text_is_missing(s: &str) -> (b: bool)
    ensures
        b == is_missing(Some(s@)),
{
    same_text(s, "none") || is_blank_text(s)
}

/// The error for a missing setting that the run cannot do without.
fn missing(problem: &str, action: &str) -> (e: AppError)
    ensures
        e matches AppError::ConfigurationError(p, a) && p@ == problem@ && a@ == advice(action@),
{
    AppError::ConfigurationError(
        String::from_str(problem),
        joined(
            "The program cannot continue. Please check the config file ('app_config.toml') ",
            action,
        ),
    )
}

/// A setting that the run cannot do without, for a path.
pub fn check_critical_pathbuf(src_name: Option<String>, problem: &str, action: &str) -> (r: Result<
    String,
    AppError,
>)
    ensures
        match r {
            Ok(s) => !is_missing(text_of(src_name)) && s@ == text_of(src_name)->0,
            Err(e) => {
                &&& is_missing(text_of(src_name))
                &&& e matches AppError::ConfigurationError(p, a)
                &&& p@ == problem@
                &&& a@ == advice(action@)
            },
        },
{
    match src_name {
        None => Err(missing(problem, action)),
        Some(s) => if text_is_missing(s.as_str()) {
            Err(missing(problem, action))
        } else {
            Ok(s)
        },
    }
}

/// A setting for a path that has a fallback.
pub fn check_pathbuf(src_name: Option<String>, alt_path: &String) -> (s: String)
    ensures
        s@ == or_default(text_of(src_name), alt_path@),
{
    match src_name {
        None => alt_path.clone(),
        Some(s) => if text_is_missing(s.as_str()) {
            alt_path.clone()
        } else {
            s
        },
    }
}

/// A setting of the database that the run cannot do without.
pub fn check_critical_db_par(src_name: Option<String>, problem: &str, action: &str) -> (r: Result<
    String,
    AppError,
>)
    ensures
        match r {
            Ok(s) => !is_missing(text_of(src_name)) && s@ == text_of(src_name)->0,
            Err(e) => {
                &&& is_missing(text_of(src_name))
                &&& e matches AppError::ConfigurationError(p, a)
                &&& p@ == problem@
                &&& a@ == advice(action@)
            },
        },
{
    check_critical_pathbuf(src_name, problem, action)
}

/// A setting of the database that has a default.
pub fn check_db_par(src_name: Option<String>, default: &str) -> (s: String)
    ensures
        s@ == or_default(text_of(src_name), default@),
{
    match src_name {
        None => String::from_str(default),
        Some(s) => if text_is_missing(s.as_str()) {
            String::from_str(default)
        } else {
            s
        },
    }
}

/// The settings on the data: a date that is absent is the empty text.
pub fn verify_data_parameters(toml_data_pars: TomlDataPars) -> (d: DataPars)
    ensures
        d.data_date@ == match toml_data_pars.data_date {
            Some(s) => s@,
            None => Seq::<char>::empty(),
        },
{
    DataPars {
        data_date: match toml_data_pars.data_date {
            Some(s) => s,
            None => String::new(),
        },
    }
}

/// The settings on files and folders. The data folder must be given; the
/// folders of the log and of the outputs fall back on it.
pub fn verify_file_parameters(toml_files: TomlFilePars) -> (r: Result<FilePars, AppError>)
    ensures
        match r {
            Ok(f) => {
                &&& !is_missing(text_of(toml_files.data_folder_path))
                &&& f.data_folder_path@ == text_of(toml_files.data_folder_path)->0
                &&& f.log_folder_path@ == or_default(
                    text_of(toml_files.log_folder_path),
                    f.data_folder_path@,
                )
                &&& f.output_folder_path@ == or_default(
                    text_of(toml_files.output_folder_path),
                    f.data_folder_path@,
                )
                &&& f.src_file_name@ == match toml_files.src_file_name {
                    Some(s) => s@,
                    None => Seq::<char>::empty(),
                }
            },
            Err(e) => {
                &&& is_missing(text_of(toml_files.data_folder_path))
                &&& e matches AppError::ConfigurationError(p, a)
                &&& p@ == "Unable to read the data folder path in config file."@
                &&& a@ == advice("has a value for the data_folder_path"@)
            },
        },
{
    let data_folder_path = match check_critical_pathbuf(
        toml_files.data_folder_path,
        "Unable to read the data folder path in config file.",
        "has a value for the data_folder_path",
    ) {
        Ok(p) => p,
        Err(e) => {
            return Err(e);
        },
    };
    let log_folder_path = check_pathbuf(toml_files.log_folder_path, &data_folder_path);
    let output_folder_path = check_pathbuf(toml_files.output_folder_path, &data_folder_path);
    let src_file_name = match toml_files.src_file_name {
        Some(s) => s,
        None => String::new(),
    };
    Ok(FilePars { data_folder_path, log_folder_path, output_folder_path, src_file_name })
}

/// Which setting of the database is missing, of those that the run cannot
/// do without: the user name first.
pub open spec fn missing_db_setting(t: TomlDBPars) -> Option<(Seq<char>, Seq<char>)> {
    if is_missing(text_of(t.db_user)) {
        Some(
            (
                "Unable to read the user name from the config file."@,
                advice("has a value for db_user"@),
            ),
        )
    } else if is_missing(text_of(t.db_password)) {
        Some(
            (
                "Unable to read the user password from the config file."@,
                advice("has a value for db_password"@),
            ),
        )
    } else {
        None
    }
}

/// The settings on the database. The user name and the password must be
/// given; the host falls back on `localhost`, the port on
/// [`DEFAULT_PORT`], the name on `geo`.
pub fn verify_db_parameters(toml_database: TomlDBPars) -> (r: Result<DBPars, AppError>)
    ensures
        match r {
            Ok(d) => {
                &&& missing_db_setting(toml_database) is None
                &&& d.db_user@ == text_of(toml_database.db_user)->0
                &&& d.db_password@ == text_of(toml_database.db_password)->0
                &&& d.db_host@ == or_default(text_of(toml_database.db_host), "localhost"@)
                &&& d.db_port == port_of(text_of(toml_database.db_port))
                &&& d.db_name@ == or_default(text_of(toml_database.db_name), "geo"@)
            },
            Err(e) => {
                &&& e matches AppError::ConfigurationError(p, a)
                &&& missing_db_setting(toml_database) == Some((p@, a@))
            },
        },
{
    let db_user = match check_critical_db_par(
        toml_database.db_user,
        "Unable to read the user name from the config file.",
        "has a value for db_user",
    ) {
        Ok(s) => s,
        Err(e) => {
            return Err(e);
        },
    };
    let db_password = match check_critical_db_par(
        toml_database.db_password,
        "Unable to read the user password from the config file.",
        "has a value for db_password",
    ) {
        Ok(s) => s,
        Err(e) => {
            return Err(e);
        },
    };
    let db_host = check_db_par(toml_database.db_host, "localhost");
    let db_port_as_string = check_db_par(toml_database.db_port, "5432");
    let db_port: usize = match parse_plain_u64(db_port_as_string.as_str()) {
        Some(p) => if p <= usize::MAX as u64 {
            p as usize
        } else {
            DEFAULT_PORT
        },
        None => DEFAULT_PORT,
    };
    let db_name = check_db_par(toml_database.db_name, "geo");
    Ok(DBPars { db_host, db_user, db_password, db_port, db_name })
}

/// What is wrong with a configuration, if anything: the section on the
/// database is looked for first, then the section on files, then the data
/// folder, then the settings of the database.
pub open spec fn config_fault(t: TomlConfig) -> Option<(Seq<char>, Seq<char>)> {
    if t.database is None {
        Some(
            (
                "Unable to read any DB parameters - the program cannot continue."@,
                "Please check the config file has a set of appropriate values listed under '[database]'"@,
            ),
        )
    } else if t.files is None {
        Some(
            (
                "Unable to read any file parameters - the program cannot continue."@,
                "Please check the config file has a set of appropriate values listed under '[files]'"@,
            ),
        )
    } else if is_missing(text_of(t.files->0.data_folder_path)) {
        Some(
            (
                "Unable to read the data folder path in config file."@,
                advice("has a value for the data_folder_path"@),
            ),
        )
    } else {
        missing_db_setting(t.database->0)
    }
}

/// Turns the configuration as it was read into the settings of a run.
pub fn populate_config_vars(toml_config: TomlConfig) -> (r: Result<Config, AppError>)
    ensures
        match r {
            Ok(c) => {
                &&& config_fault(toml_config) is None
                &&& c.data_details.data_date@ == match toml_config.data {
                    Some(d) => match d.data_date {
                        Some(s) => s@,
                        None => Seq::<char>::empty(),
                    },
                    None => Seq::<char>::empty(),
                }
                &&& c.files.data_folder_path@ == text_of(toml_config.files->0.data_folder_path)->0
                &&& c.files.log_folder_path@ == or_default(
                    text_of(toml_config.files->0.log_folder_path),
                    c.files.data_folder_path@,
                )
                &&& c.files.output_folder_path@ == or_default(
                    text_of(toml_config.files->0.output_folder_path),
                    c.files.data_folder_path@,
                )
                &&& c.files.src_file_name@ == match toml_config.files->0.src_file_name {
                    Some(s) => s@,
                    None => Seq::<char>::empty(),
                }
                &&& c.db_pars.db_user@ == text_of(toml_config.database->0.db_user)->0
                &&& c.db_pars.db_password@ == text_of(toml_config.database->0.db_password)->0
                &&& c.db_pars.db_host@ == or_default(
                    text_of(toml_config.database->0.db_host),
                    "localhost"@,
                )
                &&& c.db_pars.db_port == port_of(text_of(toml_config.database->0.db_port))
                &&& c.db_pars.db_name@ == or_default(
                    text_of(toml_config.database->0.db_name),
                    "geo"@,
                )
            },
            Err(e) => {
                &&& e matches AppError::ConfigurationError(p, a)
                &&& config_fault(toml_config) == Some((p@, a@))
            },
        },
{
    let toml_data_details = match toml_config.data {
        Some(d) => d,
        None => TomlDataPars { data_date: None },
    };
    let toml_database = match toml_config.database {
        Some(d) => d,
        None => {
            return Err(
                AppError::ConfigurationError(
                    String::from_str(
                        "Unable to read any DB parameters - the program cannot continue.",
                    ),
                    String::from_str(
                        "Please check the config file has a set of appropriate values listed under '[database]'",
                    ),
                ),
            );
        },
    };
    let toml_files = match toml_config.files {
        Some(f) => f,
        None => {
            return Err(
                AppError::ConfigurationError(
                    String::from_str(
                        "Unable to read any file parameters - the program cannot continue.",
                    ),
                    String::from_str(
                        "Please check the config file has a set of appropriate values listed under '[files]'",
                    ),
                ),
            );
        },
    };
    let files = match verify_file_parameters(toml_files) {
        Ok(f) => f,
        Err(e) => {
            return Err(e);
        },
    };
    let data_details = verify_data_parameters(toml_data_details);
    let db_pars = match verify_db_parameters(toml_database) {
        Ok(d) => d,
        Err(e) => {
            return Err(e);
        },
    };
    Ok(Config { data_details, files, db_pars })
}

/// The name of the database, where the settings of the database are there.
pub fn fetch_db_name(db_pars: Option<&DBPars>) -> (r: Result<String, AppError>)
    ensures
        match r {
            Ok(name) => db_pars is Some && name@ == db_pars->0.db_name@,
            Err(e) => db_pars is None && e is MissingDBParameters,
        },
{
    match db_pars {
        Some(dbp) => Ok(dbp.db_name.clone()),
        None => Err(AppError::MissingDBParameters),
    }
}

/// The text by which the database `db_name` is reached with the given
/// settings.
pub open spec fn conn_text(d: DBPars, db_name: Seq<char>) -> Seq<char> {
    "postgres://"@ + d.db_user@ + ":"@ + d.db_password@ + "@"@ + d.db_host@ + ":"@ + decimal(
        d.db_port as nat,
    ) + "/"@ + db_name
}

/// Writes the text by which a database is reached, where the settings of
/// the database are there.
pub fn fetch_db_conn_string(db_pars: Option<&DBPars>, db_name: &str) -> (r: Result<
    String,
    AppError,
>)
    ensures
        match r {
            Ok(s) => db_pars is Some && s@ == conn_text(*db_pars->0, db_name@),
            Err(e) => db_pars is None && e is MissingDBParameters,
        },
{
    match db_pars {
        None => Err(AppError::MissingDBParameters),
        Some(d) => {
            let mut s = String::from_str("postgres://");
            s.append(d.db_user.as_str());
            s.append(":");
            s.append(d.db_password.as_str());
            s.append("@");
            s.append(d.db_host.as_str());
            s.append(":");
            let port = decimal_string(d.db_port as u64);
            s.append(port.as_str());
            s.append("/");
            s.append(db_name);
            Ok(s)
        },
    }
}

} // verus!
