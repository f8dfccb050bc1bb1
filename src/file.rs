use vstd::prelude::*;
use crate::error::Error;
use vstd::string::StrSliceExecFns;

verus! {

/// Relies on dirs' `home_dir`: the current user's home directory, where one
/// is known. Nothing is known of its value.
#[verifier::external_body]
fn home_dir() -> (r: Option<String>) {
    dirs::home_dir().map(|p| p.to_string_lossy().into_owned())
}

/// A relative path appended to a base path, with one separator between them.
pub open spec fn joined(base: Seq<char>, rel: Seq<char>) -> Seq<char> {
    if base.len() == 0 || base.last() == '/' {
        base + rel
    } else {
        base + "/"@ + rel
    }
}

/// Appends a relative path to a base path, with one separator between them.
pub fn join_path(base: &str, rel: &str) -> (r: String)
    ensures
        r@ == joined(base@, rel@),
{
    let mut r = String::from_str(base);
    let n = base.unicode_len();
    if n > 0 && base.get_char(n - 1) != '/' {
        r.append("/");
    }
    r.append(rel);
    r
}

/// The path of a file in the `.aws` directory under a home directory.
pub open spec fn aws_path_of(home: Seq<char>, file: Seq<char>) -> Seq<char> {
    joined(joined(home, ".aws/"@), file)
}

/// The path of a file in the `.aws` directory under a home directory.
pub fn aws_path(home: &str, file: &str) -> (r: String)
    ensures
        r@ == aws_path_of(home@, file@),
{
    let dir = join_path(home, ".aws/");
    join_path(dir.as_str(), file)
}

fn home_file(file: &str) -> (r: Result<String, Error>)
    ensures
        match r {
            Ok(p) => exists|home: Seq<char>| #[trigger] aws_path_of(home, file@) == p@,
            Err(e) => e is UserHomeNotFoundError,
        },
{
    match home_dir() {
        Some(home) => Ok(aws_path(home.as_str(), file)),
        None => Err(Error::UserHomeNotFoundError),
    }
}

/// The primary config source: `.aws/config` under the home directory.
pub fn aws_config_file() -> (r: Result<String, Error>)
    ensures
        match r {
            Ok(p) => exists|home: Seq<char>| #[trigger] aws_path_of(home, "config"@) == p@,
            Err(e) => e is UserHomeNotFoundError,
        },
{
    home_file("config")
}

/// The credentials source: `.aws/credentials` under the home directory.
pub fn aws_credential_file() -> (r: Result<String, Error>)
    ensures
        match r {
            Ok(p) => exists|home: Seq<char>| #[trigger] aws_path_of(home, "credentials"@) == p@,
            Err(e) => e is UserHomeNotFoundError,
        },
{
    home_file("credentials")
}

/// The override source: `.aws/ngydv` under the home directory.
pub fn ngydv_config_file() -> (r: Result<String, Error>)
    ensures
        match r {
            Ok(p) => exists|home: Seq<char>| #[trigger] aws_path_of(home, "ngydv"@) == p@,
            Err(e) => e is UserHomeNotFoundError,
        },
{
    home_file("ngydv")
}

/// The credential cache: `.aws/ngydv_credentials.yaml` under the home directory.
pub fn credentials_path() -> (r: Result<String, Error>)
    ensures
        match r {
            Ok(p) => exists|home: Seq<char>| #[trigger] aws_path_of(home, "ngydv_credentials.yaml"@) == p@,
            Err(e) => e is UserHomeNotFoundError,
        },
{
    home_file("ngydv_credentials.yaml")
}

} // verus!
