//! The symlink confirmation procedure: removing a symlink itself is treated
//! as low-risk regardless of what it points to, so only the `Always` level
//! asks.

use vstd::prelude::*;
use vstd::string::StringExecFns;

use crate::decision::{PromptPlan, RmStatus};
use crate::options::InteractiveMode;
use crate::text::{concat_relative_root, concat_relative_root_spec};

verus! {

/// The question asked about a symbolic link.
pub open spec fn link_prompt_message_spec(relative_name: Seq<char>) -> Seq<char> {
    "rmx: remove symbolic link '"@ + relative_name + "'?"@
}

/// Everything the symlink procedure promises of its plan.
pub open spec fn link_prompt_post(
    name: Seq<char>,
    rel_root: Seq<char>,
    mode: InteractiveMode,
    r: PromptPlan,
) -> bool {
    let message = link_prompt_message_spec(concat_relative_root_spec(rel_root, name));
    if mode == InteractiveMode::Always {
        r matches PromptPlan::Ask { message: m, descend_path } && m@ == message && descend_path
            is None
    } else {
        r == PromptPlan::Done(RmStatus::Accept)
    }
}

/// Decides a symbolic link: accept silently except at the `Always` level.
pub fn prompt(name: &str, rel_root: &str, mode: InteractiveMode) -> (r: PromptPlan)
    ensures
        link_prompt_post(name@, rel_root@, mode, r),
{
    match mode {
        InteractiveMode::Once | InteractiveMode::Never => PromptPlan::Done(RmStatus::Accept),
        InteractiveMode::Always => {
            let relative_name = concat_relative_root(rel_root, name);
            let mut message = String::new();
            message.append("rmx: remove symbolic link '");
            message.append(relative_name.as_str());
            message.append("'?");
            proof {
                assert(message@ =~= link_prompt_message_spec(
                    concat_relative_root_spec(rel_root@, name@),
                ));
            }
            PromptPlan::Ask { message, descend_path: Option::None }
        },
    }
}

} // verus!
