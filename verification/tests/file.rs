//! The regular-file suite: prompts and outcomes for files, write-protected
//! or not, empty or not, across the interactive levels.

use rmx::decision::PromptPlan;
use rmx::engine::{model_dfs, Node};
use rmx::entity::Meta;
use rmx::error::Error;
use rmx::options::{needs_once_prompt, once_prompt_message, InteractiveMode, RmOptions};

const UID: u64 = 1000;

fn meta(len: u64, readonly: bool) -> Meta {
    Meta { len, readonly, uid: UID }
}

fn run(mode: InteractiveMode, m: Meta) -> (Option<Node>, Result<(), Error>) {
    let opt = RmOptions::default();
    model_dfs(&opt, mode, true, UID, "file", "", Node::File { metadata: m, dev: 1 }, false, false, 0)
}

fn file_prompt_message(mode: InteractiveMode, m: Meta) -> String {
    match rmx::file::prompt(&m, "file", "", mode, UID) {
        PromptPlan::Ask { message, .. } => message,
        PromptPlan::Done(_) => panic!("expected a prompt"),
    }
}

#[test]
fn file_remove_empty_file() {
    let plan = rmx::file::prompt(&meta(0, false), "file", "", InteractiveMode::Never, UID);
    assert!(matches!(plan, PromptPlan::Done(_)));
    let r = run(InteractiveMode::Never, meta(0, false));
    assert_eq!(r.0, None);
    assert!(r.1.is_ok());
}

#[test]
fn file_remove_file() {
    let r = run(InteractiveMode::Never, meta(19, false));
    assert_eq!(r.0, None);
    assert!(r.1.is_ok());
}

#[test]
fn file_remove_write_protected_empty_file() {
    let message = file_prompt_message(InteractiveMode::Never, meta(0, true));
    assert!(message.contains("remove write-protected regular empty file"));
}

#[test]
fn file_remove_write_protected_file() {
    let message = file_prompt_message(InteractiveMode::Never, meta(19, true));
    assert!(message.contains("remove write-protected regular file"));
}

#[test]
fn file_interactive_remove_empty_file() {
    let message = file_prompt_message(InteractiveMode::Always, meta(0, false));
    assert!(message.contains("remove regular empty file"));
}

#[test]
fn file_interactive_remove_file() {
    let message = file_prompt_message(InteractiveMode::Always, meta(19, false));
    assert!(message.contains("remove regular file"));
}

#[test]
fn file_interactive_remove_write_protected_empty_file() {
    let message = file_prompt_message(InteractiveMode::Always, meta(0, true));
    assert!(message.contains("remove write-protected regular empty file"));
}

#[test]
fn file_interactive_remove_write_protected_file() {
    let message = file_prompt_message(InteractiveMode::Always, meta(19, true));
    assert!(message.contains("remove write-protected regular file"));
}

#[test]
fn file_interactive_once_remove_four_empty_files() {
    assert!(needs_once_prompt(InteractiveMode::Once, 4, false));
    assert!(!needs_once_prompt(InteractiveMode::Once, 3, false));
    let message = once_prompt_message(4, false);
    assert!(message.contains("remove 4 arguments?"));
}
