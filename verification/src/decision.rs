//! The tri-state outcome of a confirmation procedure, the plan such a
//! procedure hands its caller, and the translation of a prompt answer into
//! the final outcome.

use vstd::prelude::*;

use crate::error::Error;

verus! {

/// The outcome of deciding one entity: perform the destructive action now,
/// skip silently, recurse into the named directory before attempting its
/// own removal, or abort this argument's processing.
#[derive(Debug, PartialEq, Eq)]
pub enum RmStatus {
    Accept,
    Declined,
    Descend(String),
    Failed(Error),
}

/// What a confirmation procedure asks of its caller: either the outcome is
/// already decided, or the user must first answer the given question. When
/// a yes answer means "recurse first", `descend_path` carries the directory
/// to recurse into.
#[derive(Debug, PartialEq, Eq)]
pub enum PromptPlan {
    Done(RmStatus),
    Ask { message: String, descend_path: Option<String> },
}

/// Translates the yes/no collaborator's answer into the outcome of an
/// `Ask` plan: yes proceeds (descending where a descend path was planned),
/// no declines silently, and a failure of the prompt itself aborts with the
/// underlying I/O error's text.
pub fn resolve_prompt(descend_path: Option<String>, answer: Result<bool, String>) -> (r: RmStatus)
    ensures
        match answer {
            Result::Ok(true) => match descend_path {
                Option::Some(p) => r == RmStatus::Descend(p),
                Option::None => r == RmStatus::Accept,
            },
            Result::Ok(false) => r == RmStatus::Declined,
            Result::Err(text) => r == RmStatus::Failed(Error::Io(text)),
        },
{
    match answer {
        Result::Ok(yes) => {
            if yes {
                match descend_path {
                    Option::Some(p) => RmStatus::Descend(p),
                    Option::None => RmStatus::Accept,
                }
            } else {
                RmStatus::Declined
            }
        },
        Result::Err(text) => RmStatus::Failed(Error::Io(text)),
    }
}

} // verus!
