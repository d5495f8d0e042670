//! The sequential deletion engine, played against a model of one argument's
//! subtree. The traversal composes the classifier, the guards, the
//! confirmation procedures and the unlink planner exactly as the live run
//! does, with the yes/no collaborator giving one canned answer throughout
//! (the unattended run answers yes); the filesystem is the model tree
//! itself, on which a directory removal succeeds exactly when the directory
//! is empty. Because the engine only ever transforms the subtree it was
//! given, nothing outside the argument's original subtree is touched, by
//! construction.

use vstd::prelude::*;
use vstd::string::StringExecFns;

use crate::decision::{resolve_prompt, PromptPlan, RmStatus};
use crate::dir;
use crate::dir::dir_prompt_asks;
use crate::entity::Meta;
use crate::error::Error;
use crate::file;
use crate::file::file_prompt_asks;
use crate::guard::one_file_system;
use crate::link;
use crate::options::{InteractiveMode, RmOptions};
use crate::text::concat_relative_root;
use crate::unlink::{unlink_dir, DirUnlinkPlan};

verus! {

/// One entity of the model subtree: its metadata snapshot, the device
/// holding it, and for a directory its children with their display names.
/// A symlink is the link entry itself; where the target of a followed link
/// lies is outside the subtree, so following is the live driver's step and
/// the model accounts only for the link's own removal.
#[derive(Debug, PartialEq, Eq)]
pub enum Node {
    File { metadata: Meta, dev: u64 },
    Link { metadata: Meta, dev: u64 },
    Dir { metadata: Meta, dev: u64, children: Vec<(String, Node)> },
}

/// The number of entities in a subtree.
pub open spec fn node_size(n: Node) -> nat
    decreases n,
{
    match n {
        Node::Dir { children, .. } => 1 + nodes_size(children@),
        _ => 1,
    }
}

/// The number of entities under a sequence of children.
pub open spec fn nodes_size(cs: Seq<(String, Node)>) -> nat
    decreases cs,
{
    if cs.len() == 0 {
        0
    } else {
        node_size(cs[0].1) + nodes_size(cs.subrange(1, cs.len() as int))
    }
}

/// The device holding a node.
pub open spec fn spec_node_dev(n: Node) -> u64 {
    match n {
        Node::File { dev, .. } => dev,
        Node::Link { dev, .. } => dev,
        Node::Dir { dev, .. } => dev,
    }
}

/// Whether every entity of the subtree lies on device `d`: the situation in
/// which the cross-device guard can never fire below the argument.
pub open spec fn uniform_device(n: Node, d: u64) -> bool
    decreases n,
{
    match n {
        Node::File { dev, .. } => dev == d,
        Node::Link { dev, .. } => dev == d,
        Node::Dir { dev, children, .. } => dev == d && nodes_uniform(children@, d),
    }
}

/// Whether every entity under a sequence of children lies on device `d`.
pub open spec fn nodes_uniform(cs: Seq<(String, Node)>, d: u64) -> bool
    decreases cs,
{
    cs.len() == 0 || (uniform_device(cs[0].1, d) && nodes_uniform(
        cs.subrange(1, cs.len() as int),
        d,
    ))
}

/// Reads the device identifier off a node.
fn node_dev(n: &Node) -> (r: u64)
    ensures
        r == spec_node_dev(*n),
{
    match n {
        Node::File { dev, .. } => *dev,
        Node::Link { dev, .. } => *dev,
        Node::Dir { dev, .. } => *dev,
    }
}

/// Laws of one traversal, stated over the whole run on a model subtree.
/// `answer` is the collaborator's canned reply to every prompt, and
/// `protected` the protected-root guard's verdict on the argument itself
/// (the canonical comparison needs the live filesystem, so its outcome is
/// an input here):
///
/// - under a yes, a regular file or a symlink whose device the
///   cross-device guard does not reject is removed and the run succeeds;
/// - a directory met without the recursive or directory-only option fails
///   with `IsDirectory` and still exists, untouched, whatever the answer;
/// - a non-empty directory met with directory-only but not recursive fails
///   with `DirectoryNotEmpty` and still exists, untouched, whatever the
///   answer;
/// - under a yes, an unprotected empty directory met with directory-only
///   but not recursive is removed — a write-protected one too where the
///   level prompts per entity, since the yes confirmed exactly that
///   removal;
/// - under a yes, a recursive run that ends successfully leaves nothing of
///   the subtree, provided the argument is not the protected root and the
///   cross-device guard cannot fire (the flag is off, or every entity
///   shares the argument's device and the argument its parent's);
/// - a directory the protected-root guard names is never removed: the
///   refusal is treated exactly like a declined prompt, and in the
///   directory-only scenario the run succeeds with the directory intact;
/// - under a no, whatever the confirmation procedures asked about stays
///   exactly as it was and the run still succeeds: declining is a normal
///   outcome, never an error.
pub open spec fn traversal_post(
    opt: RmOptions,
    proc_uid: u64,
    name: Seq<char>,
    node: Node,
    parent_dev: u64,
    mode: InteractiveMode,
    answer: bool,
    protected: bool,
    r: (Option<Node>, Result<(), Error>),
) -> bool {
    &&& (node matches Node::File { dev, .. } && answer && !(parent_dev != 0
        && opt.one_file_system && parent_dev != dev) ==> r.0 is None && r.1 is Ok)
    &&& (node matches Node::Link { dev, .. } && answer && !(parent_dev != 0
        && opt.one_file_system && parent_dev != dev) ==> r.0 is None && r.1 is Ok)
    &&& (node matches Node::Dir { .. } && !opt.recursive && !opt.dir ==> r.0 == Option::Some(node)
        && (r.1 matches Result::Err(Error::IsDirectory(nm)) && nm@ == name))
    &&& (node matches Node::Dir { children, .. } && !opt.recursive && opt.dir && children@.len()
        > 0 ==> r.0 == Option::Some(node) && (r.1 matches Result::Err(
        Error::DirectoryNotEmpty(nm),
    ) && nm@ == name))
    &&& (node matches Node::Dir { metadata, children, .. } && answer && !protected
        && !opt.recursive && opt.dir && children@.len() == 0 && (!(metadata.readonly
        || metadata.uid != proc_uid) || mode != InteractiveMode::Once) ==> r.0 is None && r.1
        is Ok)
    &&& (answer && opt.recursive && !protected && (!opt.one_file_system || (uniform_device(
        node,
        spec_node_dev(node),
    ) && (parent_dev == 0 || parent_dev == spec_node_dev(node)))) && r.1 is Ok ==> r.0 is None)
    &&& (node matches Node::Dir { .. } && protected ==> r.0 is Some)
    &&& (node matches Node::Dir { children, .. } && protected && !opt.recursive && opt.dir
        && children@.len() == 0 ==> r.0 == Option::Some(node) && r.1 is Ok)
    &&& (node matches Node::File { metadata, .. } && !answer && file_prompt_asks(
        mode,
        metadata.readonly || metadata.uid != proc_uid,
    ) ==> r.0 == Option::Some(node) && r.1 is Ok)
    &&& (node matches Node::Link { .. } && !answer && mode == InteractiveMode::Always ==> r.0
        == Option::Some(node) && r.1 is Ok)
    &&& (node matches Node::Dir { metadata, children, .. } && !answer && (opt.recursive || (
    opt.dir && children@.len() == 0)) && dir_prompt_asks(
        opt,
        mode,
        children@.len() == 0,
        metadata.readonly || metadata.uid != proc_uid,
    ) ==> r.0 == Option::Some(node) && r.1 is Ok)
}

/// Walks one argument's subtree depth-first, deciding every entity as the
/// live engine does and removing what the decisions authorize. `protected`
/// is the protected-root guard's verdict on this directory; a canonical
/// path names one entity, so the verdict cannot also hold of a child, and
/// the guard's per-directory re-check below the argument is the live
/// driver's step. Returns what remains of the subtree (`None` when all of
/// it was removed) and the outcome of this argument's processing.
pub fn model_dfs(
    opt: &RmOptions,
    mode: InteractiveMode,
    answer: bool,
    proc_uid: u64,
    name: &str,
    rel_root: &str,
    node: Node,
    visited: bool,
    protected: bool,
    parent_dev: u64,
) -> (r: (Option<Node>, Result<(), Error>))
    ensures
        traversal_post(*opt, proc_uid, name@, node, parent_dev, mode, answer, protected, r),
    decreases node_size(node), 0int,
{
    match node {
        Node::File { metadata, dev } => {
            let plan = file::prompt(&metadata, name, rel_root, mode, proc_uid);
            let status = match plan {
                PromptPlan::Done(s) => s,
                PromptPlan::Ask { descend_path, .. } => resolve_prompt(
                    descend_path,
                    Result::Ok(answer),
                ),
            };
            match status {
                RmStatus::Accept => {
                    if one_file_system(opt, parent_dev, dev) {
                        (Option::Some(Node::File { metadata, dev }), Result::Ok(()))
                    } else {
                        (Option::None, Result::Ok(()))
                    }
                },
                RmStatus::Declined => (Option::Some(Node::File { metadata, dev }), Result::Ok(())),
                RmStatus::Descend(_) => (
                    Option::Some(Node::File { metadata, dev }),
                    Result::Ok(()),
                ),
                RmStatus::Failed(e) => (Option::Some(Node::File { metadata, dev }), Result::Err(e)),
            }
        },
        Node::Link { metadata, dev } => {
            let plan = link::prompt(name, rel_root, mode);
            let status = match plan {
                PromptPlan::Done(s) => s,
                PromptPlan::Ask { descend_path, .. } => resolve_prompt(
                    descend_path,
                    Result::Ok(answer),
                ),
            };
            match status {
                RmStatus::Accept => {
                    if one_file_system(opt, parent_dev, dev) {
                        (Option::Some(Node::Link { metadata, dev }), Result::Ok(()))
                    } else {
                        (Option::None, Result::Ok(()))
                    }
                },
                RmStatus::Declined => (Option::Some(Node::Link { metadata, dev }), Result::Ok(())),
                RmStatus::Descend(_) => (
                    Option::Some(Node::Link { metadata, dev }),
                    Result::Ok(()),
                ),
                RmStatus::Failed(e) => (Option::Some(Node::Link { metadata, dev }), Result::Err(e)),
            }
        },
        Node::Dir { metadata, dev, children } => {
            let is_empty_dir = children.len() == 0;
            let plan = dir::prompt(
                opt,
                name,
                rel_root,
                &metadata,
                name,
                mode,
                visited,
                is_empty_dir,
                proc_uid,
            );
            let mut asked = false;
            let status = match plan {
                PromptPlan::Done(s) => s,
                PromptPlan::Ask { descend_path, .. } => {
                    asked = true;
                    resolve_prompt(descend_path, Result::Ok(answer))
                },
            };
            match status {
                RmStatus::Failed(e) => (
                    Option::Some(Node::Dir { metadata, dev, children }),
                    Result::Err(e),
                ),
                RmStatus::Declined => (
                    Option::Some(Node::Dir { metadata, dev, children }),
                    Result::Ok(()),
                ),
                RmStatus::Accept => {
                    if protected {
                        // The guard's refusal is treated exactly like a
                        // declined prompt: skip, no removal, no error.
                        return (
                            Option::Some(Node::Dir { metadata, dev, children }),
                            Result::Ok(()),
                        );
                    }
                    match unlink_dir(
                        is_empty_dir,
                        visited,
                        &metadata,
                        proc_uid,
                        name,
                        rel_root,
                        asked,
                    ) {
                        DirUnlinkPlan::Refuse(e) => (
                            Option::Some(Node::Dir { metadata, dev, children }),
                            Result::Err(e),
                        ),
                        DirUnlinkPlan::Remove => {
                            if is_empty_dir {
                                (Option::None, Result::Ok(()))
                            } else {
                                (
                                    Option::Some(Node::Dir { metadata, dev, children }),
                                    Result::Err(
                                        Error::Io(String::from_str("Directory not empty")),
                                    ),
                                )
                            }
                        },
                        DirUnlinkPlan::NotYet => {
                            model_descend(
                                opt,
                                mode,
                                answer,
                                proc_uid,
                                name,
                                rel_root,
                                metadata,
                                dev,
                                children,
                                protected,
                            )
                        },
                    }
                },
                RmStatus::Descend(_) => {
                    model_descend(
                        opt,
                        mode,
                        answer,
                        proc_uid,
                        name,
                        rel_root,
                        metadata,
                        dev,
                        children,
                        protected,
                    )
                },
            }
        },
    }
}

/// The descend phase of one directory: recurse into each child against the
/// parent's device, then revisit the directory itself so the deferred
/// removal is attempted now that the children are gone.
fn model_descend(
    opt: &RmOptions,
    mode: InteractiveMode,
    answer: bool,
    proc_uid: u64,
    name: &str,
    rel_root: &str,
    metadata: Meta,
    dev: u64,
    children: Vec<(String, Node)>,
    protected: bool,
) -> (r: (Option<Node>, Result<(), Error>))
    ensures
        answer && opt.recursive && !protected && (!opt.one_file_system || nodes_uniform(
            children@,
            dev,
        )) && r.1 is Ok ==> r.0 is None,
        protected ==> r.0 is Some,
    decreases nodes_size(children@), 1int,
{
    let ghost c0 = children@;
    let mut kids = children;
    let mut survivors: Vec<(String, Node)> = Vec::new();
    let child_root = concat_relative_root(rel_root, name);
    #[verifier::loop_isolation(false)]
    while kids.len() > 0
        invariant
            nodes_size(kids@) <= nodes_size(c0),
            nodes_uniform(c0, dev) ==> nodes_uniform(kids@, dev),
            answer && opt.recursive && (!opt.one_file_system || nodes_uniform(c0, dev))
                ==> survivors@.len() == 0,
        decreases kids.len(),
    {
        let ghost kids_pre = kids@;
        let pair = kids.remove(0);
        let child_name = pair.0;
        let child = pair.1;
        proof {
            assert(kids@ =~= kids_pre.subrange(1, kids_pre.len() as int));
            assert(nodes_size(kids_pre) == node_size(kids_pre[0].1) + nodes_size(kids@));
            assert(child == kids_pre[0].1);
        }
        let child_dev = node_dev(&child);
        proof {
            if nodes_uniform(c0, dev) {
                assert(uniform_device(child, dev));
                assert(spec_node_dev(child) == dev) by {
                    match child {
                        Node::File { .. } => {},
                        Node::Link { .. } => {},
                        Node::Dir { .. } => {},
                    }
                }
            }
        }
        if one_file_system(opt, dev, child_dev) {
            survivors.push((child_name, child));
        } else {
            proof {
                assert(node_size(child) <= nodes_size(kids_pre));
            }
            let outcome = model_dfs(
                opt,
                mode,
                answer,
                proc_uid,
                child_name.as_str(),
                child_root.as_str(),
                child,
                false,
                false,
                dev,
            );
            let remnant = outcome.0;
            let res = outcome.1;
            match res {
                Result::Err(e) => {
                    match remnant {
                        Option::Some(n) => {
                            survivors.push((child_name, n));
                        },
                        Option::None => {},
                    }
                    survivors.append(&mut kids);
                    return (
                        Option::Some(Node::Dir { metadata, dev, children: survivors }),
                        Result::Err(e),
                    );
                },
                Result::Ok(_) => {
                    match remnant {
                        Option::Some(n) => {
                            survivors.push((child_name, n));
                        },
                        Option::None => {},
                    }
                },
            }
        }
    }
    let is_empty_now = survivors.len() == 0;
    let plan = dir::prompt(
        opt,
        name,
        rel_root,
        &metadata,
        name,
        mode,
        true,
        is_empty_now,
        proc_uid,
    );
    let mut asked = false;
    let status = match plan {
        PromptPlan::Done(s) => s,
        PromptPlan::Ask { descend_path, .. } => {
            asked = true;
            resolve_prompt(descend_path, Result::Ok(answer))
        },
    };
    match status {
        RmStatus::Failed(e) => (
            Option::Some(Node::Dir { metadata, dev, children: survivors }),
            Result::Err(e),
        ),
        RmStatus::Declined => (
            Option::Some(Node::Dir { metadata, dev, children: survivors }),
            Result::Ok(()),
        ),
        RmStatus::Descend(_) => (
            Option::Some(Node::Dir { metadata, dev, children: survivors }),
            Result::Ok(()),
        ),
        RmStatus::Accept => {
            if protected {
                return (
                    Option::Some(Node::Dir { metadata, dev, children: survivors }),
                    Result::Ok(()),
                );
            }
            match unlink_dir(is_empty_now, true, &metadata, proc_uid, name, rel_root, asked) {
                DirUnlinkPlan::Refuse(e) => (
                    Option::Some(Node::Dir { metadata, dev, children: survivors }),
                    Result::Err(e),
                ),
                DirUnlinkPlan::NotYet => (
                    Option::Some(Node::Dir { metadata, dev, children: survivors }),
                    Result::Ok(()),
                ),
                DirUnlinkPlan::Remove => {
                    if is_empty_now {
                        (Option::None, Result::Ok(()))
                    } else {
                        (
                            Option::Some(Node::Dir { metadata, dev, children: survivors }),
                            Result::Err(Error::Io(String::from_str("Directory not empty"))),
                        )
                    }
                },
            }
        },
    }
}

} // verus!
