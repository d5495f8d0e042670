//! The symlink suite: the link prompt, and the file prompt the engine
//! raises for a link's target when the follow-symlinks policy is on.

use rmx::decision::PromptPlan;
use rmx::engine::{model_dfs, Node};
use rmx::entity::Meta;
use rmx::options::{InteractiveMode, RmOptions};

const UID: u64 = 1000;

#[test]
fn links_interactive_remove_symlink() {
    let plan = rmx::link::prompt("link", "", InteractiveMode::Always);
    match plan {
        PromptPlan::Ask { message, .. } => {
            assert!(message.contains("remove symbolic link"));
        },
        PromptPlan::Done(_) => panic!("expected a prompt"),
    }
    let opt = RmOptions::default();
    let m = Meta { len: 0, readonly: false, uid: UID };
    let r = model_dfs(&opt, InteractiveMode::Never, true, UID, "link", "", Node::Link { metadata: m, dev: 1 }, false, false, 0);
    assert_eq!(r.0, None);
    assert!(r.1.is_ok());
}

#[test]
fn links_interactive_follow_symlink_remove_symlink() {
    // Following the link makes the target file, not the link, the entity
    // the file procedure evaluates.
    let m = Meta { len: 0, readonly: false, uid: UID };
    match rmx::file::prompt(&m, "file", "", InteractiveMode::Always, UID) {
        PromptPlan::Ask { message, .. } => {
            assert!(message.contains("remove regular empty file"));
        },
        PromptPlan::Done(_) => panic!("expected a prompt"),
    }
}
