//! Mounting of the file system below a virtual file system.

use std::sync::Arc;

use vstd::prelude::*;

use crate::abi::{ROOT_ID, VFS_MAX_INO};
use crate::calls::DoLookup;
use crate::fs::PassthroughFs;

verus! {

/// The name of a directory within itself: a single dot.
pub open spec fn dot() -> Seq<u8> {
    seq![0x2eu8]
}

/// A file system that can be mounted below a virtual file system.
pub trait BackendFileSystem {
    /// The lookup that mounts the file system: that of the root directory. The result of
    /// mounting is made by [`mounted`].
    fn mount(&self) -> (call: DoLookup)
        ensures
            call.parent == ROOT_ID,
            call.name@ == dot(),
            call.name@ == seq![0x2eu8],
    ;
}

impl<B> BackendFileSystem for PassthroughFs<B> {
    fn mount(&self) -> (call: DoLookup) {
        let mut name: Vec<u8> = Vec::new();
        name.push(0x2e);
        assert(name@ =~= dot());
        DoLookup { parent: ROOT_ID, name }
    }
}

impl<B> BackendFileSystem for Arc<PassthroughFs<B>> {
    fn mount(&self) -> (call: DoLookup) {
        (**self).mount()
    }
}

/// The result of mounting, of what the lookup of the root directory returned: its entry and the
/// bound on inode numbers.
pub open spec fn mount_answer<Entry, E>(looked_up: Result<Entry, E>) -> Result<(Entry, u64), E> {
    match looked_up {
        Ok(entry) => Ok((entry, VFS_MAX_INO)),
        Err(error) => Err(error),
    }
}

/// Makes the result of mounting of what the lookup of the root directory returned: the entry of
/// the root directory and the constant [`VFS_MAX_INO`], the largest inode number that the file
/// system may use, whichever are in use.
pub fn mounted<Entry, E>(looked_up: Result<Entry, E>) -> (mounted: Result<(Entry, u64), E>)
    ensures
        mounted == mount_answer(looked_up),
        looked_up matches Ok(entry) ==> mounted == Ok::<_, E>((entry, VFS_MAX_INO)),
        looked_up matches Err(error) ==> mounted == Err::<(Entry, u64), E>(error),
{
    match looked_up {
        Ok(entry) => Ok((entry, VFS_MAX_INO)),
        Err(error) => Err(error),
    }
}

} // verus!
