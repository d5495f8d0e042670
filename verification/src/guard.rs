//! The two independent safety guards consulted before a destructive action:
//! the cross-device boundary check and the protected-root check.

use vstd::prelude::*;
use vstd::string::StringExecFns;

use crate::options::RmOptions;

verus! {

/// The cross-device guard: skip (return true) only when one-file-system
/// mode is on, the parent device is non-sentinel, and the child lies on a
/// different device. A parent device of zero is the sentinel meaning "no
/// parent": top-level arguments are never skipped by this guard.
pub fn one_file_system(opt: &RmOptions, parent: u64, child: u64) -> (r: bool)
    ensures
        r == (parent != 0 && opt.one_file_system && parent != child),
{
    if parent == 0 {
        false
    } else {
        opt.one_file_system && parent != child
    }
}

/// The diagnostic naming a path the cross-device guard skipped.
pub open spec fn skip_device_message_spec(fullname: Seq<char>) -> Seq<char> {
    "rm: skipping '"@ + fullname + "', since it's on a different device"@
}

/// Builds the cross-device skip diagnostic.
pub fn skip_device_message(fullname: &str) -> (r: String)
    ensures
        r@ == skip_device_message_spec(fullname@),
{
    let mut s = String::new();
    s.append("rm: skipping '");
    s.append(fullname);
    s.append("', since it's on a different device");
    proof {
        assert(s@ =~= skip_device_message_spec(fullname@));
    }
    s
}

/// The path the policy protects: none when protection is switched off, the
/// filesystem root where the option holds the word `all` (its default), and
/// otherwise the named path itself.
pub fn preserve_root_target(opt: &RmOptions) -> (r: Option<String>)
    ensures
        match r {
            Option::Some(t) => !opt.no_preserve_root && (if opt.preserve_root@ == "all"@ {
                t@ == "/"@
            } else {
                t@ == opt.preserve_root@
            }),
            Option::None => opt.no_preserve_root,
        },
{
    if opt.no_preserve_root {
        Option::None
    } else if opt.preserve_root == String::from_str("all") {
        Option::Some(String::from_str("/"))
    } else {
        Option::Some(opt.preserve_root.clone())
    }
}

/// The protected-root guard proper: refuse (return true) exactly when both
/// the candidate path and the protected path could be canonicalized and the
/// two canonical forms are equal. Comparison is by canonical form, never
/// lexical, so distinct literal paths resolving to the same entity are still
/// protected. The caller treats a refusal exactly like a declined prompt.
pub fn preserve_root(canon_path: Option<&String>, canon_target: Option<&String>) -> (r: bool)
    ensures
        r == match (canon_path, canon_target) {
            (Option::Some(p), Option::Some(t)) => p@ == t@,
            _ => false,
        },
{
    match (canon_path, canon_target) {
        (Option::Some(p), Option::Some(t)) => p.eq(t),
        _ => false,
    }
}

/// The diagnostic printed when the protected-root guard refuses a path.
pub open spec fn refuse_root_message_spec(path: Seq<char>, target: Seq<char>) -> Seq<char> {
    "rm: refusing to remove '"@ + path + "': skipping (preserve-root='"@ + target + "')"@
}

/// Builds the protected-root refusal diagnostic.
pub fn refuse_root_message(path: &str, target: &str) -> (r: String)
    ensures
        r@ == refuse_root_message_spec(path@, target@),
{
    let mut s = String::new();
    s.append("rm: refusing to remove '");
    s.append(path);
    s.append("': skipping (preserve-root='");
    s.append(target);
    s.append("')");
    proof {
        assert(s@ =~= refuse_root_message_spec(path@, target@));
    }
    s
}

} // verus!
