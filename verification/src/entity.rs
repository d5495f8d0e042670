//! Entity classification: the metadata snapshot a no-follow stat yields, the
//! tagged entity it is classified into, and the write-protection predicate.

use vstd::prelude::*;

use crate::error::Error;

verus! {

/// The immutable metadata snapshot of one entity: its size, its read-only
/// permission bit, and its owning user. Taken fresh on every traversal step,
/// never cached.
#[derive(Debug, Copy, Clone, PartialEq, Eq, Structural)]
pub struct Meta {
    pub len: u64,
    pub readonly: bool,
    pub uid: u64,
}

/// What a no-follow stat reports of a path: the kind bits exactly as the
/// operating system answers them, the metadata snapshot, and the identifier
/// of the device holding the entity. A symlink is described by its own
/// attributes, never its target's.
#[derive(Debug, Copy, Clone, PartialEq, Eq, Structural)]
pub struct Stat {
    pub is_dir: bool,
    pub is_symlink: bool,
    pub is_file: bool,
    pub metadata: Meta,
    pub dev: u64,
}

/// A classified filesystem entity: the snapshot, the display name (final
/// path component), and the containing device's identifier.
#[derive(Debug, PartialEq, Eq)]
pub enum FsEntity {
    Symlink { metadata: Meta, name: String, inode_id: u64 },
    Dir { metadata: Meta, name: String, inode_id: u64 },
    File { metadata: Meta, name: String, inode_id: u64 },
}

/// What classification returns for a given snapshot: no snapshot at all is a
/// vanished path; otherwise the kind bits decide, directories first, then
/// symlinks, then regular files, and anything else is unknown.
pub open spec fn classify_spec(stat: Option<Stat>, name: String) -> Result<FsEntity, Error> {
    match stat {
        Option::None => Result::Err(Error::NoSuchFile(name)),
        Option::Some(st) => if st.is_dir {
            Result::Ok((FsEntity::Dir { metadata: st.metadata, name: name, inode_id: st.dev }))
        } else if st.is_symlink {
            Result::Ok((FsEntity::Symlink { metadata: st.metadata, name: name, inode_id: st.dev }))
        } else if st.is_file {
            Result::Ok((FsEntity::File { metadata: st.metadata, name: name, inode_id: st.dev }))
        } else {
            Result::Err(Error::UnknownEntity(name))
        },
    }
}

/// Classifies one path from its no-follow stat snapshot. A path that could
/// not be stat'ed (`stat` is `None`, including races where it vanished
/// between enumeration and visit) fails with `NoSuchFile`; the caller must
/// treat that as non-fatal.
pub fn fs_entity(stat: Option<Stat>, name: String) -> (r: Result<FsEntity, Error>)
    ensures
        r == classify_spec(stat, name),
{
    match stat {
        Option::None => Result::Err(Error::NoSuchFile(name)),
        Option::Some(st) => if st.is_dir {
            Result::Ok(FsEntity::Dir { metadata: st.metadata, name: name, inode_id: st.dev })
        } else if st.is_symlink {
            Result::Ok(FsEntity::Symlink { metadata: st.metadata, name: name, inode_id: st.dev })
        } else if st.is_file {
            Result::Ok(FsEntity::File { metadata: st.metadata, name: name, inode_id: st.dev })
        } else {
            Result::Err(Error::UnknownEntity(name))
        },
    }
}

/// Law: classification is a function of the snapshot alone, so classifying
/// the same unchanged path twice yields the same entity kind and metadata.
pub proof fn lemma_classification_idempotent(
    s1: Option<Stat>,
    s2: Option<Stat>,
    n1: String,
    n2: String,
)
    requires
        s1 == s2,
        n1 == n2,
    ensures
        classify_spec(s1, n1) == classify_spec(s2, n2),
{
}

/// An entity is write-protected when its read-only permission bit is set or
/// when it is owned by someone other than the acting user. The acting user
/// is injected by the caller rather than read from process-global state.
pub fn is_write_protected(metadata: &Meta, proc_uid: u64) -> (r: bool)
    ensures
        r == (metadata.readonly || metadata.uid != proc_uid),
{
    metadata.readonly || metadata.uid != proc_uid
}

} // verus!
