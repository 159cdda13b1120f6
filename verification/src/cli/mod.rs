//! Plain option types of the command-line front end, with the pure part of
//! each command.

pub mod base64;
pub mod csv;
pub mod genpass;
pub mod text;

pub use self::base64::{Base64DecodeArgs, Base64EncodeArgs, Base64Format};
pub use self::csv::{CsvArgs, OutputFormat};
pub use self::genpass::GenPassArgs;
pub use self::text::{
    KeyGenerateArgs, TextDecryptArgs, TextEncryptArgs, TextSignArgs, TextSignFormat,
    TextVerifyArgs,
};

use vstd::prelude::*;

use crate::utils::str_equal;

verus! {

/// Why a word was not taken for a format.
#[derive(Debug, Clone, Copy, PartialEq, Eq, Structural)]
pub enum FormatError {
    /// The word names no format.
    InvalidFormat,
}

/// Asks `std::path::Path::exists` whether something stands at `path`.
/// Nothing is known of the answer: it depends on the file system.
#[verifier::external_body]
fn path_exists(path: &str) -> bool {
    std::path::Path::new(path).exists()
}

/// Asks `std::path::Path::is_dir` whether a directory stands at `path`.
/// Nothing is known of the answer: it depends on the file system.
#[verifier::external_body]
fn path_is_dir(path: &str) -> bool {
    std::path::Path::new(path).is_dir()
}

/// What is made of a file name once it is known whether the file exists:
/// `-`, which stands for the standard input, and the name of a file that
/// exists are handed back; every other name is refused.
pub fn file_checked(filename: &str, found: bool) -> (r: Result<String, &'static str>)
    ensures
        r is Ok <==> filename@ == "-"@ || found,
        r matches Ok(name) ==> name@ == filename@,
        r matches Err(why) ==> why@ == "File does not exist"@,
{
    if found || str_equal(filename, "-") {
        Ok(filename.to_owned())
    } else {
        Err("File does not exist")
    }
}

/// Accepts `-` and the name of a file that exists, and hands it back.
pub fn verify_file(filename: &str) -> (r: Result<String, &'static str>)
    ensures
        filename@ == "-"@ ==> r is Ok,
        r matches Ok(name) ==> name@ == filename@,
        r matches Err(why) ==> why@ == "File does not exist"@,
{
    if str_equal(filename, "-") {
        file_checked(filename, false)
    } else {
        file_checked(filename, path_exists(filename))
    }
}

/// What is made of a path once it is known whether it exists and whether it
/// is a directory: a directory that exists is handed back, every other path
/// is refused.
pub fn path_checked(path: &str, found: bool, is_dir: bool) -> (r: Result<String, &'static str>)
    ensures
        r is Ok <==> found && is_dir,
        r matches Ok(dir) ==> dir@ == path@,
        r matches Err(why) ==> why@ == "directory does not exist"@,
{
    if found && is_dir {
        Ok(path.to_owned())
    } else {
        Err("directory does not exist")
    }
}

/// Accepts the path of a directory that exists, and hands it back.
pub fn verify_path(path: &str) -> (r: Result<String, &'static str>)
    ensures
        r matches Ok(dir) ==> dir@ == path@,
        r matches Err(why) ==> why@ == "directory does not exist"@,
{
    path_checked(path, path_exists(path), path_is_dir(path))
}

} // verus!
