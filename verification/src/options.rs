//! The resolved removal policy: one immutable set of flags per invocation,
//! the election of the interactive level from the raw flag positions, and
//! the top-level gating decisions taken before any traversal starts.

use vstd::prelude::*;
use vstd::string::StringExecFns;

use crate::text::{dec_str, push_decimal};

verus! {

/// How often the user is asked before a destructive action: never, once per
/// invocation, or before every removal.
#[derive(Debug, Copy, Clone, PartialEq, Eq, Structural)]
pub enum InteractiveMode {
    Never,
    Once,
    Always,
}

impl Default for InteractiveMode {
    fn default() -> (r: Self)
        ensures
            r == InteractiveMode::Never,
    {
        InteractiveMode::Never
    }
}

/// The policy for one invocation, immutable once resolved. `preserve_root`
/// holds the protected path, where the word `all` stands for the filesystem
/// root; `file` holds the positional arguments in command-line order.
pub struct RmOptions {
    pub force: bool,
    pub interactive_always: bool,
    pub interactive_once: bool,
    pub interactive: InteractiveMode,
    pub one_file_system: bool,
    pub no_preserve_root: bool,
    pub preserve_root: String,
    pub recursive: bool,
    pub dir: bool,
    pub verbose: bool,
    pub file: Vec<String>,
    pub follow_symlinks: bool,
    pub rip: bool,
    pub shred: bool,
}

/// Whether `opt` holds exactly the values that `RmOptions::default` gives:
/// every switch off, the `Never` level, the protected root at its default,
/// and no file arguments.
pub open spec fn is_default_options(opt: RmOptions) -> bool {
    &&& !opt.force
    &&& !opt.interactive_always
    &&& !opt.interactive_once
    &&& opt.interactive == InteractiveMode::Never
    &&& !opt.one_file_system
    &&& !opt.no_preserve_root
    &&& opt.preserve_root@ == "all"@
    &&& !opt.recursive
    &&& !opt.dir
    &&& !opt.verbose
    &&& opt.file@.len() == 0
    &&& !opt.follow_symlinks
    &&& !opt.rip
    &&& !opt.shred
}

impl Default for RmOptions {
    fn default() -> (r: Self)
        ensures
            is_default_options(r),
    {
        RmOptions {
            force: false,
            interactive_always: false,
            interactive_once: false,
            interactive: InteractiveMode::Never,
            one_file_system: false,
            no_preserve_root: false,
            preserve_root: String::from_str("all"),
            recursive: false,
            dir: false,
            verbose: false,
            file: Vec::new(),
            follow_symlinks: false,
            rip: false,
            shred: false,
        }
    }
}

impl RmOptions {
    /// Whether this policy is exactly the default one.
    pub fn is_default(&self) -> (r: bool)
        ensures
            r == is_default_options(*self),
    {
        let all = String::from_str("all");
        !self.force && !self.interactive_always && !self.interactive_once
            && matches!(self.interactive, InteractiveMode::Never) && !self.one_file_system
            && !self.no_preserve_root && self.preserve_root == all && !self.recursive && !self.dir
            && !self.verbose && self.file.len() == 0 && !self.follow_symlinks && !self.rip
            && !self.shred
    }
}

/// The command-line position that one flag contributes to the election: the
/// last position at which it occurs, or zero when it is absent.
pub open spec fn last_flag_occurence_spec(indices: Option<Seq<usize>>, is_present: bool) -> usize {
    if is_present {
        match indices {
            Option::Some(s) => if s.len() == 0 {
                0
            } else {
                s[s.len() - 1]
            },
            Option::None => 0,
        }
    } else {
        0
    }
}

/// Get the last occurence of a flag and return its index.
pub fn last_flag_occurence(indices_of: Option<&Vec<usize>>, is_present: bool) -> (r: usize)
    ensures
        r == last_flag_occurence_spec(
            match indices_of {
                Option::Some(v) => Option::Some(v@),
                Option::None => Option::None,
            },
            is_present,
        ),
{
    if is_present {
        match indices_of {
            Option::Some(v) => if v.len() == 0 {
                0
            } else {
                v[v.len() - 1]
            },
            Option::None => 0,
        }
    } else {
        0
    }
}

/// The elected interactive level, given the last command-line position of
/// each of the three competing flags: whichever flag stands strictly last
/// wins, `--interactive=WHEN` contributing the level it names; with no
/// strict winner the level is `Never`.
pub open spec fn elect_spec(
    opt_interactive: InteractiveMode,
    flag_always: int,
    flag_once: int,
    flag_mode: int,
) -> InteractiveMode {
    if flag_always > flag_once && flag_always > flag_mode {
        InteractiveMode::Always
    } else if flag_once > flag_always && flag_once > flag_mode {
        InteractiveMode::Once
    } else if flag_mode > flag_always && flag_mode > flag_once {
        opt_interactive
    } else {
        InteractiveMode::Never
    }
}

/// Elects the effective interactive level by flag position: conflicting
/// flags resolve by their order on the command line, not by a fixed
/// priority.
pub fn elect_interact_level(
    opt: &RmOptions,
    flag_always: usize,
    flag_once: usize,
    flag_mode: usize,
) -> (r: InteractiveMode)
    ensures
        r == elect_spec(opt.interactive, flag_always as int, flag_once as int, flag_mode as int),
{
    if flag_always > flag_once && flag_always > flag_mode {
        InteractiveMode::Always
    } else if flag_once > flag_always && flag_once > flag_mode {
        InteractiveMode::Once
    } else if flag_mode > flag_always && flag_mode > flag_once {
        opt.interactive
    } else {
        InteractiveMode::Never
    }
}

/// An invocation with no file operands is a usage error unless it is
/// forced; no other flag excuses a missing operand.
pub fn is_usage_error(opt: &RmOptions) -> (r: bool)
    ensures
        r == (opt.file@.len() == 0 && !opt.force),
{
    opt.file.len() == 0 && !opt.force
}

/// Whether the single aggregate prompt is owed before traversal: only at the
/// `Once` level, and only for more than three arguments or a recursive run.
pub fn needs_once_prompt(mode: InteractiveMode, file_count: usize, recursive: bool) -> (r: bool)
    ensures
        r == (mode == InteractiveMode::Once && (file_count > 3 || recursive)),
{
    matches!(mode, InteractiveMode::Once) && (file_count > 3 || recursive)
}

/// The text of the aggregate `Once` prompt: the argument count, the right
/// plural, and a recursive qualifier when the run is recursive.
pub open spec fn once_prompt_message_spec(count: nat, recursive: bool) -> Seq<char> {
    "rmx: remove "@ + dec_str(count) + " "@ + (if count == 1 {
        "argument"@
    } else {
        "arguments"@
    }) + (if recursive {
        " recursively"@
    } else {
        Seq::<char>::empty()
    }) + "?"@
}

/// Builds the aggregate prompt shown once before a bulk or recursive run.
pub fn once_prompt_message(count: usize, recursive: bool) -> (r: String)
    ensures
        r@ == once_prompt_message_spec(count as nat, recursive),
{
    let mut s = String::new();
    s.append("rmx: remove ");
    push_decimal(count as u64, &mut s);
    s.append(" ");
    if count == 1 {
        s.append("argument");
    } else {
        s.append("arguments");
    }
    if recursive {
        s.append(" recursively");
    }
    s.append("?");
    proof {
        assert(s@ =~= once_prompt_message_spec(count as nat, recursive));
    }
    s
}

} // verus!
