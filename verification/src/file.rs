//! The regular-file confirmation procedure. The `Once` level is treated
//! like `Never` here on purpose: it gates bulk top-level confirmation, not
//! per-file confirmation.

use vstd::prelude::*;
use vstd::string::StringExecFns;

use crate::decision::{PromptPlan, RmStatus};
use crate::entity::{is_write_protected, Meta};
use crate::options::InteractiveMode;
use crate::text::{concat_relative_root, concat_relative_root_spec};

verus! {

/// The question asked about a regular file: a write-protected qualifier, an
/// empty-file qualifier, and the accumulated display path.
pub open spec fn file_prompt_message_spec(
    write_protected: bool,
    empty: bool,
    relative_name: Seq<char>,
) -> Seq<char> {
    "rm: remove"@ + (if write_protected {
        " write-protected "@
    } else {
        " "@
    }) + "regular"@ + (if empty {
        " empty "@
    } else {
        " "@
    }) + "file '"@ + relative_name + "'?"@
}

/// Whether the file procedure consults the user: always at the `Always`
/// level, and otherwise only for a write-protected file.
pub open spec fn file_prompt_asks(
    mode: InteractiveMode,
    write_protected: bool,
) -> bool {
    match mode {
        InteractiveMode::Always => true,
        InteractiveMode::Once => write_protected,
        InteractiveMode::Never => write_protected,
    }
}

/// Everything the file procedure promises of its plan.
pub open spec fn file_prompt_post(
    metadata: Meta,
    proc_uid: u64,
    name: Seq<char>,
    rel_root: Seq<char>,
    mode: InteractiveMode,
    r: PromptPlan,
) -> bool {
    let write_protected = metadata.readonly || metadata.uid != proc_uid;
    let empty = metadata.len == 0;
    let message = file_prompt_message_spec(
        write_protected,
        empty,
        concat_relative_root_spec(rel_root, name),
    );
    if file_prompt_asks(mode, write_protected) {
        r matches PromptPlan::Ask { message: m, descend_path } && m@ == message && descend_path
            is None
    } else {
        r == PromptPlan::Done(RmStatus::Accept)
    }
}

/// Decides a regular file: accept silently unless the interactive level and
/// write-protection demand a prompt.
pub fn prompt(
    metadata: &Meta,
    name: &str,
    rel_root: &str,
    mode: InteractiveMode,
    proc_uid: u64,
) -> (r: PromptPlan)
    ensures
        file_prompt_post(*metadata, proc_uid, name@, rel_root@, mode, r),
{
    let write_protected = is_write_protected(metadata, proc_uid);
    let empty = metadata.len == 0;

    let asks = match mode {
        InteractiveMode::Always => true,
        InteractiveMode::Once => write_protected,
        InteractiveMode::Never => write_protected,
    };
    if !asks {
        return PromptPlan::Done(RmStatus::Accept);
    }

    let relative_name = concat_relative_root(rel_root, name);
    let mut message = String::new();
    message.append("rm: remove");
    if write_protected {
        message.append(" write-protected ");
    } else {
        message.append(" ");
    }
    message.append("regular");
    if empty {
        message.append(" empty ");
    } else {
        message.append(" ");
    }
    message.append("file '");
    message.append(relative_name.as_str());
    message.append("'?");
    proof {
        assert(message@ =~= file_prompt_message_spec(
            write_protected,
            empty,
            concat_relative_root_spec(rel_root@, name@),
        ));
    }

    PromptPlan::Ask { message, descend_path: Option::None }
}

} // verus!
