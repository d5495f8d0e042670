//! Unlink planning: the precheck a directory removal must pass, the mapping
//! of operating-system removal failures onto this library's errors, and the
//! verbose confirmation lines.

use vstd::prelude::*;
use vstd::string::StringExecFns;

use crate::entity::{is_write_protected, Meta};
use crate::error::Error;
use crate::text::{concat_relative_root, concat_relative_root_spec};

verus! {

/// What a directory removal attempt must do: wait for the children to be
/// processed first, refuse outright, or remove now.
#[derive(Debug, PartialEq, Eq)]
pub enum DirUnlinkPlan {
    NotYet,
    Refuse(Error),
    Remove,
}

/// Everything the directory precheck promises: a non-empty directory not
/// yet revisited waits; a write-protected directory is refused as
/// "operation not permitted" under its display path, unless the user has
/// just confirmed this very removal at a prompt — a yes to the
/// write-protected question authorizes the attempt, and only a permission
/// failure of the removal itself (mapped by `unlink_dir_error`) then
/// reports "operation not permitted"; anything else is removed now.
pub open spec fn unlink_dir_post(
    is_empty_dir: bool,
    visited: bool,
    metadata: Meta,
    proc_uid: u64,
    name: Seq<char>,
    rel_root: Seq<char>,
    confirmed: bool,
    r: DirUnlinkPlan,
) -> bool {
    if !is_empty_dir && !visited {
        r == DirUnlinkPlan::NotYet
    } else if (metadata.readonly || metadata.uid != proc_uid) && !confirmed {
        r matches DirUnlinkPlan::Refuse(Error::OperationNotPermitted(n)) && n@
            == concat_relative_root_spec(rel_root, name)
    } else {
        r == DirUnlinkPlan::Remove
    }
}

/// The precheck before a directory is removed: defer a non-empty directory
/// until its post-children revisit, and refuse a write-protected one that
/// nobody confirmed. `confirmed` says whether the caller's accept came from
/// an answered prompt rather than a silent accept; the metadata is a fresh
/// snapshot of the directory itself.
pub fn unlink_dir(
    is_empty_dir: bool,
    visited: bool,
    metadata: &Meta,
    proc_uid: u64,
    name: &str,
    rel_root: &str,
    confirmed: bool,
) -> (r: DirUnlinkPlan)
    ensures
        unlink_dir_post(is_empty_dir, visited, *metadata, proc_uid, name@, rel_root@, confirmed, r),
{
    if !is_empty_dir && !visited {
        return DirUnlinkPlan::NotYet;
    }
    if is_write_protected(metadata, proc_uid) && !confirmed {
        let relative_name = concat_relative_root(rel_root, name);
        return DirUnlinkPlan::Refuse(Error::OperationNotPermitted(relative_name));
    }
    DirUnlinkPlan::Remove
}

/// Maps a failed directory removal onto this library's errors: a permission
/// error during removal becomes "operation not permitted" under the display
/// path, anything else is reported as the underlying I/O failure.
pub fn unlink_dir_error(
    permission_denied: bool,
    err_text: String,
    name: &str,
    rel_root: &str,
) -> (r: Error)
    ensures
        if permission_denied {
            r matches Error::OperationNotPermitted(n) && n@ == concat_relative_root_spec(
                rel_root@,
                name@,
            )
        } else {
            r == Error::Io(err_text)
        },
{
    if permission_denied {
        let relative_name = concat_relative_root(rel_root, name);
        Error::OperationNotPermitted(relative_name)
    } else {
        Error::Io(err_text)
    }
}

/// Maps a failed file removal onto this library's errors: a permission
/// error becomes "permission denied" under the display path, anything else
/// is reported as the underlying I/O failure.
pub fn unlink_file_error(
    permission_denied: bool,
    err_text: String,
    name: &str,
    rel_root: &str,
) -> (r: Error)
    ensures
        if permission_denied {
            r matches Error::PermissionDenied(n) && n@ == concat_relative_root_spec(
                rel_root@,
                name@,
            )
        } else {
            r == Error::Io(err_text)
        },
{
    if permission_denied {
        let relative_name = concat_relative_root(rel_root, name);
        Error::PermissionDenied(relative_name)
    } else {
        Error::Io(err_text)
    }
}

/// Maps a failed symlink removal: the symlink path reports every failure,
/// permission errors included, as the underlying I/O failure.
pub fn unlink_symlink_error(err_text: String) -> (r: Error)
    ensures
        r == Error::Io(err_text),
{
    Error::Io(err_text)
}

/// The verbose line printed after a directory was removed.
pub open spec fn dir_removed_message_spec(relative_name: Seq<char>) -> Seq<char> {
    "directory '"@ + relative_name + "' was removed"@
}

/// Builds the verbose confirmation for a removed directory.
pub fn dir_removed_message(name: &str, rel_root: &str) -> (r: String)
    ensures
        r@ == dir_removed_message_spec(concat_relative_root_spec(rel_root@, name@)),
{
    let relative_name = concat_relative_root(rel_root, name);
    let mut s = String::new();
    s.append("directory '");
    s.append(relative_name.as_str());
    s.append("' was removed");
    proof {
        assert(s@ =~= dir_removed_message_spec(concat_relative_root_spec(rel_root@, name@)));
    }
    s
}

/// The verbose line printed after a file or symlink was removed.
pub open spec fn removed_message_spec(relative_name: Seq<char>) -> Seq<char> {
    "removed '"@ + relative_name + "'"@
}

/// Builds the verbose confirmation for a removed file or symlink.
pub fn removed_message(name: &str, rel_root: &str) -> (r: String)
    ensures
        r@ == removed_message_spec(concat_relative_root_spec(rel_root@, name@)),
{
    let relative_name = concat_relative_root(rel_root, name);
    let mut s = String::new();
    s.append("removed '");
    s.append(relative_name.as_str());
    s.append("'");
    proof {
        assert(s@ =~= removed_message_spec(concat_relative_root_spec(rel_root@, name@)));
    }
    s
}

} // verus!
