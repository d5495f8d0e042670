//! The directory confirmation procedure: combines the policy, the
//! interactive level, write-protection and the directory's state into a
//! tri-state outcome or a hard failure, without touching the filesystem.

use vstd::prelude::*;
use vstd::string::StringExecFns;

use crate::decision::{PromptPlan, RmStatus};
use crate::entity::{is_write_protected, Meta};
use crate::error::Error;
use crate::options::{InteractiveMode, RmOptions};
use crate::text::{concat_relative_root, concat_relative_root_spec};

verus! {

/// Whether the engine must recurse into the directory before its own
/// removal is attempted: only recursive runs descend, only into non-empty
/// directories, and never on the second, post-children visit.
pub open spec fn would_descend(opt: RmOptions, is_empty_dir: bool, visited: bool) -> bool {
    opt.recursive && !is_empty_dir && !visited
}

/// The question asked about a directory: the implied action, a
/// write-protected qualifier, and the accumulated display path.
pub open spec fn dir_prompt_message_spec(
    descend: bool,
    write_protected: bool,
    relative_name: Seq<char>,
) -> Seq<char> {
    "rm: "@ + (if descend {
        "descend into"@
    } else {
        "remove"@
    }) + (if write_protected {
        " write-protected "@
    } else {
        " "@
    }) + "directory '"@ + relative_name + "'?"@
}

/// Whether the procedure consults the user at all. At the `Always` level a
/// prompt is owed whenever an actual removal or descent is imminent (an
/// empty directory under directory-only mode, or any recursive run); the
/// `Once` level never prompts per entity; the `Never` level prompts only
/// for a write-protected directory.
pub open spec fn dir_prompt_asks(
    opt: RmOptions,
    mode: InteractiveMode,
    is_empty_dir: bool,
    write_protected: bool,
) -> bool {
    match mode {
        InteractiveMode::Always => (is_empty_dir && opt.dir) || opt.recursive,
        InteractiveMode::Once => false,
        InteractiveMode::Never => write_protected,
    }
}

/// Everything the directory procedure promises of its plan, for every
/// combination of policy, level and directory state.
pub open spec fn dir_prompt_post(
    opt: RmOptions,
    path: Seq<char>,
    rel_root: Seq<char>,
    metadata: Meta,
    proc_uid: u64,
    name: Seq<char>,
    mode: InteractiveMode,
    visited: bool,
    is_empty_dir: bool,
    r: PromptPlan,
) -> bool {
    let write_protected = metadata.readonly || metadata.uid != proc_uid;
    let descend = would_descend(opt, is_empty_dir, visited);
    let message = dir_prompt_message_spec(
        descend,
        write_protected,
        concat_relative_root_spec(rel_root, name),
    );
    if !opt.recursive && !opt.dir {
        r matches PromptPlan::Done(RmStatus::Failed(Error::IsDirectory(n))) && n@ == name
    } else if !opt.recursive && !is_empty_dir {
        r matches PromptPlan::Done(RmStatus::Failed(Error::DirectoryNotEmpty(n))) && n@ == name
    } else if dir_prompt_asks(opt, mode, is_empty_dir, write_protected) {
        r matches PromptPlan::Ask { message: m, descend_path } && m@ == message && (if descend {
            descend_path matches Option::Some(p) && p@ == path
        } else {
            descend_path is None
        })
    } else {
        r == PromptPlan::Done(RmStatus::Accept)
    }
}

/// Decides a directory. A non-recursive run fails with `IsDirectory` unless
/// directory-only mode is on, and with `DirectoryNotEmpty` when
/// directory-only mode meets a non-empty directory; otherwise the
/// interactive level decides whether the user is asked, and a planned yes
/// answer descends exactly when children must go first.
pub fn prompt(
    opt: &RmOptions,
    path: &str,
    rel_root: &str,
    metadata: &Meta,
    name: &str,
    mode: InteractiveMode,
    visited: bool,
    is_empty_dir: bool,
    proc_uid: u64,
) -> (r: PromptPlan)
    ensures
        dir_prompt_post(
            *opt,
            path@,
            rel_root@,
            *metadata,
            proc_uid,
            name@,
            mode,
            visited,
            is_empty_dir,
            r,
        ),
{
    if !opt.recursive {
        if !opt.dir {
            return PromptPlan::Done(RmStatus::Failed(Error::IsDirectory(name.to_owned())));
        }
        if !is_empty_dir {
            return PromptPlan::Done(RmStatus::Failed(Error::DirectoryNotEmpty(name.to_owned())));
        }
    }

    let write_protected = is_write_protected(metadata, proc_uid);
    let descend = opt.recursive && !is_empty_dir && !visited;

    let asks = match mode {
        InteractiveMode::Always => (is_empty_dir && opt.dir) || opt.recursive,
        InteractiveMode::Once => false,
        InteractiveMode::Never => write_protected,
    };
    if !asks {
        return PromptPlan::Done(RmStatus::Accept);
    }

    let relative_name = concat_relative_root(rel_root, name);
    let mut message = String::new();
    message.append("rm: ");
    if descend {
        message.append("descend into");
    } else {
        message.append("remove");
    }
    if write_protected {
        message.append(" write-protected ");
    } else {
        message.append(" ");
    }
    message.append("directory '");
    message.append(relative_name.as_str());
    message.append("'?");
    proof {
        assert(message@ =~= dir_prompt_message_spec(
            descend,
            write_protected,
            concat_relative_root_spec(rel_root@, name@),
        ));
    }

    let descend_path = if descend {
        Option::Some(path.to_owned())
    } else {
        Option::None
    };
    PromptPlan::Ask { message, descend_path }
}

} // verus!
