//! Failure kinds reported by the removal engines, and their diagnostic text.

use vstd::prelude::*;
use vstd::string::StringExecFns;

verus! {

/// Every way one entity's removal can fail. Each variant that concerns a
/// particular entity carries its display name; `Io` carries the text of the
/// underlying operating-system error.
#[derive(Debug, PartialEq, Eq)]
pub enum Error {
    PermissionDenied(String),
    OperationNotPermitted(String),
    IsDirectory(String),
    DirectoryNotEmpty(String),
    NoSuchFile(String),
    UnknownEntity(String),
    TrashBin,
    Usage,
    Io(String),
}

/// The view of an optional string slice.
pub open spec fn opt_str_view(o: Option<&str>) -> Option<Seq<char>> {
    match o {
        Option::Some(s) => Option::Some(s@),
        Option::None => Option::None,
    }
}

/// The "cannot remove" diagnostic: the program name, the quoted entity name
/// when one is given, and the cause.
pub open spec fn fmt_error_spec(cause: Seq<char>, maybe_name: Option<Seq<char>>) -> Seq<char> {
    match maybe_name {
        Option::Some(name) => "rmx: cannot remove '"@ + name + "': "@ + cause,
        Option::None => "rmx: cannot remove: "@ + cause,
    }
}

/// Formats a removal failure for the user.
pub fn fmt_error(cause: &str, maybe_name: Option<&str>) -> (r: String)
    ensures
        r@ == fmt_error_spec(cause@, opt_str_view(maybe_name)),
{
    let mut s = String::new();
    match maybe_name {
        Option::Some(name) => {
            s.append("rmx: cannot remove '");
            s.append(name);
            s.append("': ");
            s.append(cause);
            proof {
                assert(s@ =~= fmt_error_spec(cause@, opt_str_view(maybe_name)));
            }
        },
        Option::None => {
            s.append("rmx: cannot remove: ");
            s.append(cause);
        },
    }
    s
}

/// The full diagnostic text of each error, as the program prints it.
pub open spec fn error_message_spec(e: Error) -> Seq<char> {
    match e {
        Error::PermissionDenied(name) => fmt_error_spec("Permission denied"@, Option::Some(name@)),
        Error::OperationNotPermitted(name) => fmt_error_spec(
            "Operation not permitted"@,
            Option::Some(name@),
        ),
        Error::IsDirectory(name) => fmt_error_spec("Is a directory"@, Option::Some(name@)),
        Error::DirectoryNotEmpty(name) => fmt_error_spec(
            "Directory not empty"@,
            Option::Some(name@),
        ),
        Error::NoSuchFile(name) => fmt_error_spec(
            "No such file or directory"@,
            Option::Some(name@),
        ),
        Error::UnknownEntity(name) => fmt_error_spec(
            "Unknown file system entity"@,
            Option::Some(name@),
        ),
        Error::TrashBin => "rmx: failed to access system trash bin"@,
        Error::Usage => "rmx: missing operand\nTry 'rmx --help' for more information."@,
        Error::Io(text) => fmt_error_spec(text@, Option::None),
    }
}

impl Error {
    /// The diagnostic text of this error; the unverified binary prints it in
    /// place of a `Display` implementation.
    pub fn message(&self) -> (r: String)
        ensures
            r@ == error_message_spec(*self),
    {
        match self {
            Error::PermissionDenied(name) => fmt_error("Permission denied", Option::Some(name.as_str())),
            Error::OperationNotPermitted(name) => fmt_error(
                "Operation not permitted",
                Option::Some(name.as_str()),
            ),
            Error::IsDirectory(name) => fmt_error("Is a directory", Option::Some(name.as_str())),
            Error::DirectoryNotEmpty(name) => fmt_error(
                "Directory not empty",
                Option::Some(name.as_str()),
            ),
            Error::NoSuchFile(name) => fmt_error(
                "No such file or directory",
                Option::Some(name.as_str()),
            ),
            Error::UnknownEntity(name) => fmt_error(
                "Unknown file system entity",
                Option::Some(name.as_str()),
            ),
            Error::TrashBin => {
                let mut s = String::new();
                s.append("rmx: failed to access system trash bin");
                s
            },
            Error::Usage => {
                let mut s = String::new();
                s.append("rmx: missing operand\nTry 'rmx --help' for more information.");
                s
            },
            Error::Io(text) => fmt_error(text.as_str(), Option::None),
        }
    }
}

} // verus!
