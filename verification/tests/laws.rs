//! Concrete checks of the library's stated laws and exact formats: one
//! test per law on chosen values, the exact diagnostic texts, and the
//! behavior of every error kind and guard.

use rmx::decision::{resolve_prompt, RmStatus};
use rmx::engine::{model_dfs, Node};
use rmx::entity::{fs_entity, is_write_protected, FsEntity, Meta, Stat};
use rmx::error::{fmt_error, Error};
use rmx::guard::{one_file_system, preserve_root, preserve_root_target, skip_device_message};
use rmx::options::{
    elect_interact_level, last_flag_occurence, once_prompt_message, InteractiveMode, RmOptions,
};
use rmx::rip::RipPlanner;
use rmx::text::concat_relative_root;
use rmx::unlink::{
    dir_removed_message, removed_message, unlink_dir, unlink_dir_error, unlink_symlink_error,
    DirUnlinkPlan,
};

const UID: u64 = 1000;

fn meta(len: u64, readonly: bool, uid: u64) -> Meta {
    Meta { len, readonly, uid }
}

fn stat(is_dir: bool, is_symlink: bool, is_file: bool) -> Stat {
    Stat { is_dir, is_symlink, is_file, metadata: meta(7, false, UID), dev: 3 }
}

#[test]
fn law_classification_idempotent() {
    // Classifying the same unchanged path twice yields the same entity.
    let a = fs_entity(Some(stat(false, false, true)), String::from("f"));
    let b = fs_entity(Some(stat(false, false, true)), String::from("f"));
    assert_eq!(a, b);
    let a = fs_entity(None, String::from("f"));
    let b = fs_entity(None, String::from("f"));
    assert_eq!(a, b);
}

#[test]
fn law_classification_cases() {
    match fs_entity(Some(stat(true, false, false)), String::from("d")) {
        Ok(FsEntity::Dir { name, inode_id, .. }) => {
            assert_eq!(name, "d");
            assert_eq!(inode_id, 3);
        },
        other => panic!("expected a directory, got {:?}", other),
    }
    match fs_entity(Some(stat(false, true, false)), String::from("l")) {
        Ok(FsEntity::Symlink { .. }) => {},
        other => panic!("expected a symlink, got {:?}", other),
    }
    match fs_entity(Some(stat(false, false, false)), String::from("x")) {
        Err(Error::UnknownEntity(name)) => assert_eq!(name, "x"),
        other => panic!("expected an unknown entity, got {:?}", other),
    }
    match fs_entity(None, String::from("gone")) {
        Err(Error::NoSuchFile(name)) => assert_eq!(name, "gone"),
        other => panic!("expected a vanished path, got {:?}", other),
    }
}

#[test]
fn law_subtree_removed_by_recursive_run() {
    // A successful recursive run leaves nothing of the argument's subtree.
    let mut opt = RmOptions::default();
    opt.recursive = true;
    let inner = vec![
        (String::from("f1"), Node::File { metadata: meta(4, false, UID), dev: 1 }),
        (String::from("l1"), Node::Link { metadata: meta(0, false, UID), dev: 1 }),
    ];
    let sub = Node::Dir { metadata: meta(0, false, UID), dev: 1, children: inner };
    let top = vec![
        (String::from("sub"), sub),
        (String::from("f0"), Node::File { metadata: meta(9, false, UID), dev: 1 }),
    ];
    let tree = Node::Dir { metadata: meta(0, false, UID), dev: 1, children: top };
    let r = model_dfs(&opt, InteractiveMode::Never, true, UID, "root", "", tree, false, false, 0);
    assert!(r.1.is_ok());
    assert_eq!(r.0, None);
}

#[test]
fn law_cross_device_child_is_kept() {
    // With one-file-system on, a child on another device survives the run
    // and the run still succeeds; the parent then fails only its own
    // removal, reported as non-empty.
    let mut opt = RmOptions::default();
    opt.recursive = true;
    opt.one_file_system = true;
    let top = vec![(String::from("other"), Node::File { metadata: meta(1, false, UID), dev: 2 })];
    let tree = Node::Dir { metadata: meta(0, false, UID), dev: 1, children: top };
    let r = model_dfs(&opt, InteractiveMode::Never, true, UID, "root", "", tree, false, false, 0);
    match (r.0, r.1) {
        (Some(Node::Dir { children, .. }), Err(Error::Io(_))) => {
            assert_eq!(children.len(), 1);
        },
        other => panic!("expected the child to survive, got {:?}", other),
    }
}

#[test]
fn law_rip_order_deepest_first() {
    let mut planner = RipPlanner::new();
    assert!(planner.record(String::from("a/f"), 1, false));
    assert!(!planner.record(String::from("a"), 0, true));
    assert!(!planner.record(String::from("a/b"), 1, true));
    assert!(!planner.record(String::from("a/b/c"), 2, true));
    assert!(!planner.record(String::from("a/d"), 1, true));
    let order = planner.removal_order();
    let depths: Vec<usize> = order.iter().map(|e| e.1).collect();
    assert_eq!(depths, vec![2, 1, 1, 0]);
    assert_eq!(order[0].0, "a/b/c");
    assert_eq!(order[3].0, "a");
    // Within one depth, sibling order is unspecified; both siblings stand
    // between the deepest entry and the root.
    let mids: Vec<&str> = vec![&order[1].0, &order[2].0];
    assert!(mids.contains(&"a/b"));
    assert!(mids.contains(&"a/d"));
}

#[test]
fn law_flag_precedence_last_wins() {
    // `-i -I --interactive=always`: the long form stands last, Always wins.
    let mut opt = RmOptions::default();
    opt.interactive = InteractiveMode::Always;
    let mode = elect_interact_level(&opt, 1, 2, 3);
    assert_eq!(mode, InteractiveMode::Always);
    // `--interactive=never -i -I`: -I stands last, Once wins.
    let mut opt = RmOptions::default();
    opt.interactive = InteractiveMode::Never;
    let mode = elect_interact_level(&opt, 2, 3, 1);
    assert_eq!(mode, InteractiveMode::Once);
    // With no interactivity flag at all, the level stays Never.
    let opt = RmOptions::default();
    assert_eq!(elect_interact_level(&opt, 0, 0, 0), InteractiveMode::Never);
}

#[test]
fn law_write_protected_prompt_and_answers() {
    // A write-protected empty directory under -d in Never mode prompts
    // with a write-protected qualifier; a no answer leaves it intact, and
    // a yes answer confirms exactly this removal, so the directory goes.
    let mut opt = RmOptions::default();
    opt.dir = true;
    let m = meta(0, true, UID);
    let plan = rmx::dir::prompt(&opt, "d", "", &m, "d", InteractiveMode::Never, false, true, UID);
    let descend_path = match plan {
        rmx::decision::PromptPlan::Ask { message, descend_path } => {
            assert!(message.contains("write-protected"));
            descend_path
        },
        other => panic!("expected a prompt, got {:?}", other),
    };
    assert_eq!(resolve_prompt(descend_path.clone(), Ok(false)), RmStatus::Declined);
    assert_eq!(resolve_prompt(descend_path, Ok(true)), RmStatus::Accept);
    // Confirmed at the prompt: the attempt proceeds.
    assert_eq!(unlink_dir(true, false, &m, UID, "d", "", true), DirUnlinkPlan::Remove);
    // Accepted silently, with nobody asked: the precheck still refuses.
    match unlink_dir(true, false, &m, UID, "d", "", false) {
        DirUnlinkPlan::Refuse(Error::OperationNotPermitted(name)) => assert_eq!(name, "d"),
        other => panic!("expected a refusal, got {:?}", other),
    }
    // The whole run under yes: prompted, confirmed, removed.
    let node = Node::Dir { metadata: m, dev: 1, children: Vec::new() };
    let r = model_dfs(&opt, InteractiveMode::Never, true, UID, "d", "", node, false, false, 0);
    assert_eq!(r.0, None);
    assert!(r.1.is_ok());
    // The Once level never asks per entity, so nothing confirms the
    // removal and the precheck's refusal stands.
    let node = Node::Dir { metadata: m, dev: 1, children: Vec::new() };
    let r = model_dfs(&opt, InteractiveMode::Once, true, UID, "d", "", node, false, false, 0);
    match r.1 {
        Err(Error::OperationNotPermitted(name)) => assert_eq!(name, "d"),
        other => panic!("expected an unconfirmed refusal, got {:?}", other),
    }
    assert!(r.0.is_some());
}

#[test]
fn law_protected_root_refusal_is_a_skip() {
    // A directory the protected-root guard names is skipped exactly like a
    // declined prompt: no removal, no error, the directory still exists.
    let mut opt = RmOptions::default();
    opt.dir = true;
    let node = Node::Dir { metadata: meta(0, false, UID), dev: 1, children: Vec::new() };
    let r = model_dfs(&opt, InteractiveMode::Never, true, UID, "d", "", node, false, true, 0);
    assert_eq!(
        r.0,
        Some(Node::Dir { metadata: meta(0, false, UID), dev: 1, children: Vec::new() })
    );
    assert!(r.1.is_ok());
}

#[test]
fn law_declined_run_leaves_directory_intact() {
    // The same write-protected empty directory under -d in Never mode,
    // played through the whole run with the collaborator answering no:
    // the directory survives untouched and the run still succeeds.
    let mut opt = RmOptions::default();
    opt.dir = true;
    let node = Node::Dir { metadata: meta(0, true, UID), dev: 1, children: Vec::new() };
    let r = model_dfs(&opt, InteractiveMode::Never, false, UID, "d", "", node, false, false, 0);
    assert_eq!(
        r.0,
        Some(Node::Dir { metadata: meta(0, true, UID), dev: 1, children: Vec::new() })
    );
    assert!(r.1.is_ok());
}

#[test]
fn law_once_prompt_exact() {
    assert_eq!(once_prompt_message(4, false), "rmx: remove 4 arguments?");
    assert_eq!(once_prompt_message(1, false), "rmx: remove 1 argument?");
    assert_eq!(once_prompt_message(2, true), "rmx: remove 2 arguments recursively?");
    assert_eq!(once_prompt_message(120, true), "rmx: remove 120 arguments recursively?");
}

#[test]
fn law_preserve_root_decision() {
    let opt = RmOptions::default();
    let target = preserve_root_target(&opt).expect("protection defaults to on");
    assert_eq!(target, "/");
    let mut opt = RmOptions::default();
    opt.no_preserve_root = true;
    assert!(preserve_root_target(&opt).is_none());
    let a = String::from("/same");
    let b = String::from("/same");
    let c = String::from("/elsewhere");
    assert!(preserve_root(Some(&a), Some(&b)));
    assert!(!preserve_root(Some(&a), Some(&c)));
    assert!(!preserve_root(None, Some(&b)));
    assert!(!preserve_root(Some(&a), None));
}

#[test]
fn law_cross_device_guard() {
    let mut opt = RmOptions::default();
    opt.one_file_system = true;
    assert!(!one_file_system(&opt, 0, 5));
    assert!(!one_file_system(&opt, 4, 4));
    assert!(one_file_system(&opt, 4, 5));
    let opt = RmOptions::default();
    assert!(!one_file_system(&opt, 4, 5));
    assert_eq!(
        skip_device_message("a/b"),
        "rm: skipping 'a/b', since it's on a different device"
    );
}

#[test]
fn msg_error_texts_exact() {
    assert_eq!(
        Error::PermissionDenied(String::from("x")).message(),
        "rmx: cannot remove 'x': Permission denied"
    );
    assert_eq!(
        Error::OperationNotPermitted(String::from("x")).message(),
        "rmx: cannot remove 'x': Operation not permitted"
    );
    assert_eq!(
        Error::IsDirectory(String::from("d")).message(),
        "rmx: cannot remove 'd': Is a directory"
    );
    assert_eq!(
        Error::DirectoryNotEmpty(String::from("d")).message(),
        "rmx: cannot remove 'd': Directory not empty"
    );
    assert_eq!(
        Error::NoSuchFile(String::from("f")).message(),
        "rmx: cannot remove 'f': No such file or directory"
    );
    assert_eq!(
        Error::UnknownEntity(String::from("f")).message(),
        "rmx: cannot remove 'f': Unknown file system entity"
    );
    assert_eq!(Error::TrashBin.message(), "rmx: failed to access system trash bin");
    assert_eq!(
        Error::Usage.message(),
        "rmx: missing operand\nTry 'rmx --help' for more information."
    );
    assert_eq!(
        Error::Io(String::from("disk fell over")).message(),
        "rmx: cannot remove: disk fell over"
    );
    assert_eq!(fmt_error("Busy", None), "rmx: cannot remove: Busy");
}

#[test]
fn msg_prompt_texts_exact() {
    let opt = {
        let mut o = RmOptions::default();
        o.recursive = true;
        o
    };
    let m = meta(0, false, UID);
    match rmx::dir::prompt(&opt, "p", "root", &m, "d", InteractiveMode::Always, false, false, UID) {
        rmx::decision::PromptPlan::Ask { message, descend_path } => {
            assert_eq!(message, "rm: descend into directory 'root/d'?");
            assert_eq!(descend_path, Some(String::from("p")));
        },
        other => panic!("expected a prompt, got {:?}", other),
    }
    match rmx::file::prompt(&meta(0, false, UID), "f", "root", InteractiveMode::Always, UID) {
        rmx::decision::PromptPlan::Ask { message, descend_path } => {
            assert_eq!(message, "rm: remove regular empty file 'root/f'?");
            assert_eq!(descend_path, None);
        },
        other => panic!("expected a prompt, got {:?}", other),
    }
    match rmx::link::prompt("l", "root", InteractiveMode::Always) {
        rmx::decision::PromptPlan::Ask { message, .. } => {
            assert_eq!(message, "rmx: remove symbolic link 'root/l'?");
        },
        other => panic!("expected a prompt, got {:?}", other),
    }
}

#[test]
fn msg_verbose_and_paths_exact() {
    assert_eq!(concat_relative_root("", "a"), "a");
    assert_eq!(concat_relative_root("a", "b"), "a/b");
    assert_eq!(concat_relative_root("a/b", "c"), "a/b/c");
    assert_eq!(removed_message("b", "a"), "removed 'a/b'");
    assert_eq!(dir_removed_message("d", ""), "directory 'd' was removed");
}

#[test]
fn law_resolve_prompt() {
    assert_eq!(resolve_prompt(None, Ok(true)), RmStatus::Accept);
    assert_eq!(
        resolve_prompt(Some(String::from("p")), Ok(true)),
        RmStatus::Descend(String::from("p"))
    );
    assert_eq!(resolve_prompt(Some(String::from("p")), Ok(false)), RmStatus::Declined);
    assert_eq!(
        resolve_prompt(None, Err(String::from("tty gone"))),
        RmStatus::Failed(Error::Io(String::from("tty gone")))
    );
}

#[test]
fn law_unlink_error_mapping() {
    match unlink_dir_error(true, String::from("ignored"), "d", "r") {
        Error::OperationNotPermitted(name) => assert_eq!(name, "r/d"),
        other => panic!("expected not-permitted, got {:?}", other),
    }
    match unlink_dir_error(false, String::from("os text"), "d", "r") {
        Error::Io(text) => assert_eq!(text, "os text"),
        other => panic!("expected an I/O error, got {:?}", other),
    }
    match unlink_symlink_error(String::from("os text")) {
        Error::Io(text) => assert_eq!(text, "os text"),
        other => panic!("expected an I/O error, got {:?}", other),
    }
}

#[test]
fn law_unlink_dir_plans() {
    let m = meta(0, false, UID);
    assert_eq!(unlink_dir(false, false, &m, UID, "d", "", false), DirUnlinkPlan::NotYet);
    assert_eq!(unlink_dir(false, true, &m, UID, "d", "", false), DirUnlinkPlan::Remove);
    assert_eq!(unlink_dir(true, false, &m, UID, "d", "", false), DirUnlinkPlan::Remove);
    let foreign = meta(0, false, UID + 1);
    match unlink_dir(true, false, &foreign, UID, "d", "", false) {
        DirUnlinkPlan::Refuse(Error::OperationNotPermitted(_)) => {},
        other => panic!("expected a refusal for a foreign owner, got {:?}", other),
    }
    // A prompt's yes waives the precheck for a foreign owner too.
    assert_eq!(unlink_dir(true, false, &foreign, UID, "d", "", true), DirUnlinkPlan::Remove);
}

#[test]
fn law_write_protection() {
    assert!(is_write_protected(&meta(0, true, UID), UID));
    assert!(is_write_protected(&meta(0, false, UID + 1), UID));
    assert!(!is_write_protected(&meta(0, false, UID), UID));
}

#[test]
fn law_last_flag_occurence() {
    assert_eq!(last_flag_occurence(Some(&vec![1, 5]), true), 5);
    assert_eq!(last_flag_occurence(Some(&vec![1, 5]), false), 0);
    assert_eq!(last_flag_occurence(Some(&vec![]), true), 0);
    assert_eq!(last_flag_occurence(None, true), 0);
}

#[test]
fn law_defaults_and_usage() {
    assert_eq!(InteractiveMode::default(), InteractiveMode::Never);
    let opt = RmOptions::default();
    assert!(opt.is_default());
    assert!(rmx::options::is_usage_error(&opt));
    let mut forced = RmOptions::default();
    forced.force = true;
    assert!(!rmx::options::is_usage_error(&forced));
    let mut with_file = RmOptions::default();
    with_file.file.push(String::from("a"));
    assert!(!with_file.is_default());
    assert!(!rmx::options::is_usage_error(&with_file));
    // A missing operand is a usage error whatever other flags stand.
    let mut verbose_only = RmOptions::default();
    verbose_only.verbose = true;
    assert!(rmx::options::is_usage_error(&verbose_only));
}

#[test]
fn law_shredder_ops_respect_their_mode() {
    let mut sh = rmx::shred::Shredder::new("work", "file", 16);
    let mut seen: usize = 0;
    let mut expected_target = String::from("work/file");
    loop {
        let before = sh.target_path();
        assert_eq!(before, expected_target);
        let mut op = match sh.next_op() {
            None => break,
            Some(op) => op,
        };
        match &op {
            rmx::shred::ShredOp::Noise { name, bytes } => {
                assert_eq!(name.len(), 30);
                assert!(8 <= bytes.len() && bytes.len() < 25);
            },
            rmx::shred::ShredOp::Overwrite { path, bytes } => {
                assert_eq!(*path, expected_target);
                assert!(8 <= bytes.len() && bytes.len() < 25);
            },
            rmx::shred::ShredOp::Rename { from, to } => {
                assert_eq!(*from, expected_target);
                assert!(to.starts_with("work/"));
                assert_eq!(to.len(), "work/".len() + 30);
                expected_target = to.clone();
            },
        }
        op.scrub();
        match &op {
            rmx::shred::ShredOp::Noise { bytes, .. } => assert_eq!(bytes.len(), 0),
            rmx::shred::ShredOp::Overwrite { bytes, .. } => assert_eq!(bytes.len(), 0),
            rmx::shred::ShredOp::Rename { .. } => {},
        }
        seen += 1;
    }
    assert_eq!(seen, rmx::shred::DEFAULT_SHRED_ITERATIONS);
    assert_eq!(sh.target_path(), expected_target);
}
