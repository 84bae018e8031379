//! The command line: its options, the formats it names, and the checks it
//! applies to file and directory arguments.
use vstd::prelude::*;

pub mod base64;
pub mod text;

use crate::cli::base64::Base64SubCommand;
use crate::cli::text::TextSubCommand;
use crate::paths::{path_exists, path_is_dir};
use crate::text_util::str_eq;

verus! {

/// What the command line rejects.
#[derive(Debug, PartialEq, Eq)]
pub enum CliError {
    /// An input file that is neither `-` nor an existing path.
    FileNotExists,
    /// An output path that is not an existing directory.
    PathNotExists(String),
    /// A name that is no Base64 format.
    InvalidBase64Format(String),
    /// A name that is no signing format.
    InvalidTextSignFormat(String),
}

/// The message that the command line prints for an error.
pub open spec fn cli_error_message(e: CliError) -> Seq<char> {
    match e {
        CliError::FileNotExists => "File does not exists"@,
        CliError::PathNotExists(p) => "Path: "@ + p@ + " does not exist"@,
        CliError::InvalidBase64Format(v) => "无法将 "@ + v@ + " 转译为 Base64Format 格式"@,
        CliError::InvalidTextSignFormat(v) => "无法将 "@ + v@ + " 转换为 TextSignFormat"@,
    }
}

impl CliError {
    /// The message of this error.
    pub fn to_string(&self) -> (res: String)
        ensures
            res@ == cli_error_message(*self),
    {
        match self {
            CliError::FileNotExists => "File does not exists".to_owned(),
            CliError::PathNotExists(p) => {
                let mut s = "Path: ".to_owned();
                s.append(p.as_str());
                s.append(" does not exist");
                s
            },
            CliError::InvalidBase64Format(v) => {
                let mut s = "无法将 ".to_owned();
                s.append(v.as_str());
                s.append(" 转译为 Base64Format 格式");
                s
            },
            CliError::InvalidTextSignFormat(v) => {
                let mut s = "无法将 ".to_owned();
                s.append(v.as_str());
                s.append(" 转换为 TextSignFormat");
                s
            },
        }
    }
}

/// The parsed command line.
pub struct Opts {
    pub cmd: SubCommand,
}

/// The commands of the tool.
pub enum SubCommand {
    Base64(Base64SubCommand),
    Text(TextSubCommand),
}

/// Whether `filename` names standard input.
pub open spec fn is_stdin_name(filename: Seq<char>) -> bool {
    filename == "-"@
}

/// Decides on an input file argument, given whether a path of that name
/// exists: `-` (standard input) and existing paths are accepted.
pub fn check_input_file(filename: &str, exists: bool) -> (res: Result<String, CliError>)
    ensures
        is_stdin_name(filename@) || exists ==> (res matches Ok(s) && s@ == filename@),
        !(is_stdin_name(filename@) || exists) ==> res == Err::<String, CliError>(CliError::FileNotExists),
{
    if str_eq(filename, "-") || exists {
        Ok(filename.to_owned())
    } else {
        Err(CliError::FileNotExists)
    }
}

/// Checks an input file argument: `-` (standard input) is always accepted,
/// another name only when a path of that name exists.
pub fn verify_file(filename: &str) -> (res: Result<String, CliError>)
    ensures
        is_stdin_name(filename@) ==> (res matches Ok(s) && s@ == filename@),
        res matches Ok(s) ==> s@ == filename@,
        res matches Err(e) ==> e == CliError::FileNotExists,
{
    if str_eq(filename, "-") {
        check_input_file(filename, false)
    } else {
        let exists = path_exists(filename);
        check_input_file(filename, exists)
    }
}

/// Decides on an output directory argument, given whether the path exists
/// and whether it is a directory.
pub fn check_output_dir(filepath: &str, exists: bool, is_dir: bool) -> (res: Result<String, CliError>)
    ensures
        exists && is_dir ==> (res matches Ok(s) && s@ == filepath@),
        !(exists && is_dir) ==> (res matches Err(CliError::PathNotExists(p)) && p@ == filepath@),
{
    if exists && is_dir {
        Ok(filepath.to_owned())
    } else {
        Err(CliError::PathNotExists(filepath.to_owned()))
    }
}

/// Checks an output directory argument: it must name an existing directory.
pub fn verify_path(filepath: &str) -> (res: Result<String, CliError>)
    ensures
        res matches Ok(s) ==> s@ == filepath@,
        res matches Err(e) ==> (e matches CliError::PathNotExists(p) && p@ == filepath@),
{
    let exists = path_exists(filepath);
    let is_dir = if exists { path_is_dir(filepath) } else { false };
    check_output_dir(filepath, exists, is_dir)
}

} // verus!
