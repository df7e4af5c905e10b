//! Which file an operation reads and which it writes.

use std::path::Path;
use vstd::prelude::*;
use vstd::string::StrSliceExecFns;
use vstd::string::StringExecFns;

use crate::text::ends_with;
use crate::text::replace_all;
use crate::text::replaced;
use crate::text::str_eq;

verus! {

/// The output path that belongs to an input path.
///
/// Encryption appends `.encrypted`, unless the path ends in it already.
/// Decryption turns each `.env.encrypted` of a path that ends in it into
/// `.env`, strips a final `.encrypted` from any other path that has one, and
/// leaves the rest as they are.
pub open spec fn derived_output_path(input: Seq<char>, is_encrypt: bool) -> Seq<char> {
    if is_encrypt {
        if ".encrypted"@.is_suffix_of(input) {
            input
        } else {
            input + ".encrypted"@
        }
    } else if ".env.encrypted"@.is_suffix_of(input) {
        replaced(input, ".env.encrypted"@, ".env"@)
    } else if ".encrypted"@.is_suffix_of(input) {
        input.take(input.len() - ".encrypted"@.len())
    } else {
        input
    }
}

/// The name of the encrypted file of an environment: `.env.`, the
/// environment's name, `.encrypted`.
pub open spec fn env_output_name_of(env_name: Seq<char>) -> Seq<char> {
    ".env."@ + env_name + ".encrypted"@
}

/// The input path of an encryption: the path given; else `.env.` and the
/// environment's name; else `.env`.
pub open spec fn encrypt_input_path_of(input: Option<String>, env: Option<String>) -> Seq<char> {
    match input {
        Some(path) => path@,
        None => match env {
            Some(env_name) => ".env."@ + env_name@,
            None => ".env"@,
        },
    }
}

/// Derives the output path from the input path, for encryption or for
/// decryption.
pub fn derive_output_path(input_path: &str, is_encrypt: bool) -> (out: String)
    ensures
        out@ == derived_output_path(input_path@, is_encrypt),
{
    if is_encrypt {
        if ends_with(input_path, ".encrypted") {
            input_path.to_owned()
        } else if str_eq(input_path, ".env") {
            proof {
                reveal_strlit(".env");
                reveal_strlit(".encrypted");
                reveal_strlit(".env.encrypted");
                assert(".env"@ + ".encrypted"@ =~= ".env.encrypted"@);
            }
            ".env.encrypted".to_owned()
        } else {
            let mut out = input_path.to_owned();
            out.append(".encrypted");
            out
        }
    } else if ends_with(input_path, ".env.encrypted") {
        replace_all(input_path, ".env.encrypted", ".env")
    } else if ends_with(input_path, ".encrypted") {
        let n: usize = input_path.unicode_len();
        let m: usize = ".encrypted".unicode_len();
        input_path.substring_char(0, n - m).to_owned()
    } else {
        input_path.to_owned()
    }
}

/// The input path of an encryption, from the `--input` and `--env` options.
pub fn resolve_encrypt_input_path(input: &Option<String>, env: &Option<String>) -> (path: String)
    ensures
        path@ == encrypt_input_path_of(*input, *env),
{
    if let Some(input) = input {
        return input.clone();
    }
    if let Some(env_name) = env {
        let mut path = ".env.".to_owned();
        path.append(env_name.as_str());
        return path;
    }
    ".env".to_owned()
}

/// The name of the encrypted file of an environment.
pub fn env_output_name(env_name: &str) -> (name: String)
    ensures
        name@ == env_output_name_of(env_name@),
{
    let mut name = ".env.".to_owned();
    name.append(env_name);
    name.append(".encrypted");
    name
}

/// The parent directory of a path, by the path syntax of the platform that
/// the library is built for, or `None` where the path has none: where it is
/// empty or ends in a root.
pub uninterp spec fn path_parent(path: Seq<char>) -> Option<Seq<char>>;

/// A file name adjoined to a directory, by the path syntax of the platform
/// that the library is built for.
pub uninterp spec fn path_join(dir: Seq<char>, file_name: Seq<char>) -> Seq<char>;

/// The output path of an encryption. With an environment name, the file
/// `.env.{name}.encrypted` beside the input file: in the input path's parent
/// directory, or by itself where the input path has none. Without one, the
/// path derived from the input path.
pub open spec fn encrypt_output_path_of(input_path: Seq<char>, env: Option<String>) -> Seq<char> {
    match env {
        Some(env_name) => match path_parent(input_path) {
            Some(dir) => path_join(dir, env_output_name_of(env_name@)),
            None => env_output_name_of(env_name@),
        },
        None => derived_output_path(input_path, true),
    }
}

/// Calls `Path::parent` of std on a path given as text. The parent is a part
/// of the path, so it is text again.
#[verifier::external_body]
fn parent_dir(path: &str) -> (parent: Option<String>)
    ensures
        match parent {
            Some(dir) => path_parent(path@) == Some(dir@),
            None => path_parent(path@) is None,
        },
{
    match Path::new(path).parent() {
        Some(dir) => Some(dir.to_string_lossy().into_owned()),
        None => None,
    }
}

/// Calls `Path::join` of std on a directory and a file name given as text.
#[verifier::external_body]
fn join_path(dir: &str, file_name: &str) -> (path: String)
    ensures
        path@ == path_join(dir@, file_name@),
{
    Path::new(dir).join(file_name).to_string_lossy().into_owned()
}

/// Puts a file name beside a file whose parent directory is given: into that
/// directory where there is one, else by itself.
pub fn place_beside(parent: Option<String>, file_name: String) -> (path: String)
    ensures
        path@ == match parent {
            Some(dir) => path_join(dir@, file_name@),
            None => file_name@,
        },
{
    match parent {
        Some(dir) => join_path(dir.as_str(), file_name.as_str()),
        None => file_name,
    }
}

/// The output path of an encryption, from the input path and the `--env`
/// option.
pub fn resolve_encrypt_output_path(input_path: &str, env: &Option<String>) -> (path: String)
    ensures
        path@ == encrypt_output_path_of(input_path@, *env),
{
    if let Some(env_name) = env {
        let file_name = env_output_name(env_name.as_str());
        return place_beside(parent_dir(input_path), file_name);
    }
    derive_output_path(input_path, true)
}

/// The input path of a decryption: the path given.
pub fn resolve_decrypt_input(input: String) -> (path: String)
    ensures
        path == input,
{
    input
}

/// Checks the two files of an operation before anything is read: the input
/// file has to exist, and an output file that exists is overwritten only
/// with `--force`. A missing input file is reported first.
pub fn check_files(
    input_path: &str,
    input_exists: bool,
    output_path: &str,
    output_exists: bool,
    force: bool,
) -> (res: Result<(), String>)
    ensures
        !input_exists ==> (res matches Err(message) && message@ == input_path@
            + " file not found"@),
        input_exists && output_exists && !force ==> (res matches Err(message) && message@
            == "Output file "@ + output_path@ + " already exists. Use --force to overwrite."@),
        input_exists && (!output_exists || force) ==> res is Ok,
{
    if !input_exists {
        let mut message = input_path.to_owned();
        message.append(" file not found");
        return Err(message);
    }
    if output_exists && !force {
        let mut message = "Output file ".to_owned();
        message.append(output_path);
        message.append(" already exists. Use --force to overwrite.");
        return Err(message);
    }
    Ok(())
}

} // verus!
