//! The secure-shred engine: make a regular file's content and on-disk
//! presence difficult to recover, then remove it. One pseudo-random
//! instruction is picked once per run — so a run is mostly noise, mostly
//! overwrite, or mostly rename, a deliberate randomized-strategy choice —
//! and a fixed number of iterations of that action precede the final
//! unlink. Directories are never shredded.

use vstd::prelude::*;
use vstd::string::StringExecFns;

use crate::entropy::{random_alnum_name, random_bytes, random_in_range, wipe};
use crate::text::{concat_relative_root, concat_relative_root_spec};

verus! {

/// How many iterations of the chosen action one shred run performs.
pub const DEFAULT_SHRED_ITERATIONS: usize = 1000;

/// The action a shred run repeats, decided by the instruction drawn once
/// from `[1, 3000]`: the lower third writes decoy noise, the middle third
/// overwrites the target, the upper third renames it in place.
#[derive(Debug, Copy, Clone, PartialEq, Eq, Structural)]
pub enum ShredMode {
    Noise,
    Overwrite,
    Rename,
}

/// The mode a drawn instruction selects.
pub open spec fn instruction_mode(instruction: u64) -> ShredMode {
    if instruction <= 1000 {
        ShredMode::Noise
    } else if instruction <= 2000 {
        ShredMode::Overwrite
    } else {
        ShredMode::Rename
    }
}

/// One step the shred engine asks its caller to perform against the
/// filesystem. A `Noise` decoy is written elsewhere and removed again
/// within the same step; `Overwrite` replaces the tracked file's content;
/// `Rename` moves the tracked file within its parent directory.
#[derive(Debug, PartialEq, Eq)]
pub enum ShredOp {
    Noise { name: String, bytes: Vec<u8> },
    Overwrite { path: String, bytes: Vec<u8> },
    Rename { from: String, to: String },
}

/// The shred engine's state: the parent directory and current name of the
/// tracked file (renames update the name), the randomized size range for
/// overwrite and noise buffers, the instruction drawn for this run, and
/// how many iterations are left.
pub struct Shredder {
    pub dir: String,
    pub name: String,
    pub lo: u64,
    pub hi: u64,
    pub instruction: u64,
    pub remaining: usize,
}

/// The path of the tracked file: its parent directory joined with its
/// current name.
pub open spec fn tracked_path(s: Shredder) -> Seq<char> {
    concat_relative_root_spec(s.dir@, s.name@)
}

/// A well-formed engine has a non-empty size range (so a buffer size can be
/// drawn from it) and an instruction within the drawn interval.
pub open spec fn shredder_wf(s: Shredder) -> bool {
    &&& s.lo < s.hi
    &&& s.hi <= usize::MAX
    &&& 1 <= s.instruction <= 3000
}

/// What one engine step promises: the countdown falls by one, the parent
/// directory and size range never change, and the step matches the mode
/// drawn for the run — noise and overwrite leave the tracked name alone and
/// carry a buffer sized from the range, while a rename moves the tracked
/// file from its old path to a fresh 30-character name under the same
/// parent.
pub open spec fn next_op_post(pre: Shredder, post: Shredder, r: Option<ShredOp>) -> bool {
    &&& post.dir == pre.dir
    &&& post.lo == pre.lo
    &&& post.hi == pre.hi
    &&& post.instruction == pre.instruction
    &&& post.remaining == if pre.remaining > 0 {
        pre.remaining - 1
    } else {
        0
    }
    &&& r is Some <==> pre.remaining > 0
    &&& match r {
        Option::None => post == pre,
        Option::Some(op) => match instruction_mode(pre.instruction) {
            ShredMode::Noise => op matches ShredOp::Noise { name, bytes } && name@.len() == 30
                && pre.lo <= bytes@.len() < pre.hi && post.name == pre.name,
            ShredMode::Overwrite => op matches ShredOp::Overwrite { path, bytes } && path@
                == tracked_path(pre) && pre.lo <= bytes@.len() < pre.hi && post.name == pre.name,
            ShredMode::Rename => op matches ShredOp::Rename { from, to } && from@ == tracked_path(
                pre,
            ) && to@ == tracked_path(post) && post.name@.len() == 30,
        },
    }
}

impl Shredder {
    /// Prepares a shred run for a non-empty file of `size` bytes standing
    /// under `dir` with final component `name`. The buffer size range runs
    /// from half the file's size to roughly one and a half times it — never
    /// empty, whatever the size, so every non-empty file can be shredded;
    /// the run-wide instruction is drawn here.
    pub fn new(dir: &str, name: &str, size: u64) -> (r: Shredder)
        requires
            1 <= size,
            size <= usize::MAX as u64 / 2,
        ensures
            shredder_wf(r),
            r.dir@ == dir@,
            r.name@ == name@,
            r.lo == size - size / 2,
            r.hi == size + size / 2 + 1,
            r.remaining == DEFAULT_SHRED_ITERATIONS,
    {
        let instruction = random_in_range(1, 3001);
        Shredder {
            dir: dir.to_owned(),
            name: name.to_owned(),
            lo: size - size / 2,
            hi: size + size / 2 + 1,
            instruction,
            remaining: DEFAULT_SHRED_ITERATIONS,
        }
    }

    /// The path the engine is currently tracking; the final unlink targets
    /// it once the iterations are spent.
    pub fn target_path(&self) -> (r: String)
        ensures
            r@ == tracked_path(*self),
    {
        concat_relative_root(self.dir.as_str(), self.name.as_str())
    }

    /// Performs one iteration's bookkeeping and hands back the filesystem
    /// step to perform, or nothing once the iterations are spent.
    pub fn next_op(&mut self) -> (r: Option<ShredOp>)
        requires
            shredder_wf(*old(self)),
        ensures
            shredder_wf(*final(self)),
            next_op_post(*old(self), *final(self), r),
    {
        if self.remaining == 0 {
            return Option::None;
        }
        self.remaining = self.remaining - 1;
        if self.instruction <= 1000 {
            let size = random_in_range(self.lo, self.hi);
            let name = random_alnum_name();
            let bytes = random_bytes(size);
            Option::Some(ShredOp::Noise { name, bytes })
        } else if self.instruction <= 2000 {
            let size = random_in_range(self.lo, self.hi);
            let bytes = random_bytes(size);
            let path = self.target_path();
            Option::Some(ShredOp::Overwrite { path, bytes })
        } else {
            let from = self.target_path();
            let new_name = random_alnum_name();
            let to = concat_relative_root(self.dir.as_str(), new_name.as_str());
            self.name = new_name;
            Option::Some(ShredOp::Rename { from, to })
        }
    }
}

/// What scrubbing a step leaves: a step that carried a buffer keeps its
/// name but the buffer is zeroed and emptied; a rename carried none and is
/// untouched.
pub open spec fn scrubbed(pre: ShredOp, post: ShredOp) -> bool {
    match pre {
        ShredOp::Noise { name, .. } => post matches ShredOp::Noise { name: n, bytes } && n == name
            && bytes@.len() == 0,
        ShredOp::Overwrite { path, .. } => post matches ShredOp::Overwrite { path: p, bytes } && p
            == path && bytes@.len() == 0,
        ShredOp::Rename { .. } => post == pre,
    }
}

impl ShredOp {
    /// Zeroes and empties the buffer this step carried, to be called as
    /// soon as the buffer has been written out: no overwrite pattern stays
    /// in memory longer than necessary, on any exit path.
    pub fn scrub(&mut self)
        ensures
            scrubbed(*old(self), *final(self)),
    {
        match self {
            ShredOp::Noise { bytes, .. } => wipe(bytes),
            ShredOp::Overwrite { bytes, .. } => wipe(bytes),
            ShredOp::Rename { .. } => (),
        }
    }
}

/// The names present in the portion of the filesystem a shred run touches:
/// the abstract store against which the engine's steps are played to show
/// what a completed run leaves behind.
pub struct ModelStore {
    pub paths: Vec<String>,
}

/// Whether a name is present in the store.
pub open spec fn store_has(paths: Seq<String>, p: Seq<char>) -> bool {
    exists|i: int| 0 <= i < paths.len() && paths[i]@ == p
}

/// Appending one name to the store makes present exactly that name and
/// whatever was present before.
proof fn lemma_store_has_push(paths: Seq<String>, x: String, q: Seq<char>)
    ensures
        store_has(paths.push(x), q) <==> (store_has(paths, q) || x@ == q),
{
    if store_has(paths, q) {
        let i = choose|i: int| 0 <= i < paths.len() && paths[i]@ == q;
        assert(paths.push(x)[i]@ == q);
    }
    if x@ == q {
        assert(paths.push(x)[paths.len() as int]@ == q);
    }
    if store_has(paths.push(x), q) {
        let i = choose|i: int| 0 <= i < paths.push(x).len() && paths.push(x)[i]@ == q;
        if i < paths.len() {
            assert(paths[i]@ == q);
        }
    }
}

impl ModelStore {
    /// A store holding the given names.
    pub fn new(paths: Vec<String>) -> (r: ModelStore)
        ensures
            r.paths@ == paths@,
    {
        ModelStore { paths }
    }

    /// Whether the store holds `p`.
    pub fn contains(&self, p: &String) -> (r: bool)
        ensures
            r == store_has(self.paths@, p@),
    {
        let mut i: usize = 0;
        while i < self.paths.len()
            invariant
                i <= self.paths@.len(),
                forall|k: int| 0 <= k < i ==> self.paths@[k]@ != p@,
            decreases self.paths@.len() - i,
        {
            if self.paths[i].eq(p) {
                return true;
            }
            i = i + 1;
        }
        false
    }

    /// Makes `p` present.
    pub fn insert(&mut self, p: String)
        ensures
            forall|q: Seq<char>|
                #[trigger] store_has(final(self).paths@, q) <==> (store_has(old(self).paths@, q)
                    || q == p@),
    {
        let ghost pre = self.paths@;
        let ghost pv = p@;
        self.paths.push(p);
        proof {
            assert forall|q: Seq<char>|
                #[trigger] store_has(self.paths@, q) <==> (store_has(pre, q) || q == pv) by {
                lemma_store_has_push(pre, self.paths@.last(), q);
            }
        }
    }

    /// Makes `p` absent, leaving everything else present.
    pub fn remove_all(&mut self, p: &String)
        ensures
            forall|q: Seq<char>|
                #[trigger] store_has(final(self).paths@, q) <==> (store_has(old(self).paths@, q)
                    && q != p@),
    {
        let ghost pre = self.paths@;
        let mut kept: Vec<String> = Vec::new();
        let mut i: usize = 0;
        while i < self.paths.len()
            invariant
                i <= pre.len(),
                self.paths@ == pre,
                forall|q: Seq<char>|
                    #[trigger] store_has(kept@, q) <==> (store_has(pre.take(i as int), q) && q
                        != p@),
            decreases pre.len() - i,
        {
            let ghost kept_pre = kept@;
            let keep = !self.paths[i].eq(p);
            if keep {
                let item = self.paths[i].clone();
                kept.push(item);
            }
            proof {
                assert(pre.take(i + 1) =~= pre.take(i as int).push(pre[i as int]));
                assert forall|q: Seq<char>|
                    #[trigger] store_has(kept@, q) <==> (store_has(pre.take(i + 1), q) && q != p@) by {
                    lemma_store_has_push(pre.take(i as int), pre[i as int], q);
                    if keep {
                        lemma_store_has_push(kept_pre, kept@.last(), q);
                    }
                }
            }
            i = i + 1;
        }
        proof {
            assert(pre.take(pre.len() as int) =~= pre);
        }
        self.paths = kept;
    }
}

/// Plays one engine step against the store: a noise step writes its decoy
/// and removes it again, an overwrite keeps the target present, a rename
/// moves the tracked name.
pub fn model_apply(store: &mut ModelStore, op: &ShredOp)
    ensures
        forall|q: Seq<char>|
            #[trigger] store_has(final(store).paths@, q) <==> match op {
                ShredOp::Noise { name, .. } => store_has(old(store).paths@, q) && q != name@,
                ShredOp::Overwrite { path, .. } => store_has(old(store).paths@, q) || q == path@,
                ShredOp::Rename { from, to } => (store_has(old(store).paths@, q) && q != from@)
                    || q == to@,
            },
{
    match op {
        ShredOp::Noise { name, .. } => {
            store.remove_all(name);
        },
        ShredOp::Overwrite { path, .. } => {
            store.insert(path.clone());
        },
        ShredOp::Rename { from, to } => {
            store.remove_all(from);
            store.insert(to.clone());
        },
    }
}

/// Law (shred): played to completion against the store model, a shred run
/// leaves no name that was not present before it started — every noise
/// decoy is removed within its own step, and no rename target survives the
/// final unlink — and the file's original path no longer exists under its
/// original name. For a zero-length file the run is equivalent to plain
/// removal.
pub fn model_shred(store: &mut ModelStore, dir: &str, name: &str, size: u64)
    requires
        size <= usize::MAX as u64 / 2,
    ensures
        forall|q: Seq<char>|
            #[trigger] store_has(final(store).paths@, q) ==> store_has(old(store).paths@, q),
        !store_has(final(store).paths@, concat_relative_root_spec(dir@, name@)),
        size == 0 ==> forall|q: Seq<char>|
            #[trigger] store_has(final(store).paths@, q) <==> (store_has(old(store).paths@, q) && q
                != concat_relative_root_spec(dir@, name@)),
{
    let ghost init = store.paths@;
    let path = concat_relative_root(dir, name);
    if size == 0 {
        store.remove_all(&path);
        return ;
    }
    let mut sh = Shredder::new(dir, name, size);
    let ghost orig = tracked_path(sh);
    while sh.remaining > 0
        invariant
            shredder_wf(sh),
            orig == concat_relative_root_spec(dir@, name@),
            forall|q: Seq<char>|
                #[trigger] store_has(store.paths@, q) ==> store_has(init, q) || q == tracked_path(
                    sh,
                ),
            store_has(store.paths@, orig) ==> tracked_path(sh) == orig,
        decreases sh.remaining,
    {
        let ghost sh_pre = sh;
        let ghost store_pre = store.paths@;
        let op = sh.next_op();
        match &op {
            Option::Some(o) => {
                model_apply(store, o);
            },
            Option::None => {},
        }
    }
    let target = sh.target_path();
    store.remove_all(&target);
}

} // verus!
