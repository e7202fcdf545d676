//! The synchronous handlers of a file system, which execute blocking syscalls.
//!
//! What a handler does to the files is its own affair: the traits promise nothing of the results.
//! Names are the bytes of a C string without the terminator.

use vstd::prelude::*;

use crate::abi::{Context, CreateIn, Handle, Inode, OpenOptions, SetattrValid};

verus! {

/// The handlers that can run on any thread, of a file system that names its files by `I`.
pub trait FileSystem<I = Inode>: Sized {
    /// What a lookup finds.
    type Entry;

    /// The attributes that a request sets.
    type Attr;

    /// The attributes that a request is answered.
    type Attributes;

    /// What opening a file gives besides the handle and the options.
    type Backing;

    /// Why a handler failed.
    type Error;

    /// Looks up `name` in the directory `parent` on behalf of the file system itself.
    fn do_lookup(&self, parent: I, name: &[u8]) -> Result<Self::Entry, Self::Error>;

    /// Looks up `name` in the directory `parent`.
    fn lookup(&self, ctx: &Context, parent: I, name: &[u8]) -> Result<
        Self::Entry,
        Self::Error,
    >;

    /// Reads the attributes of `inode`.
    fn getattr(&self, ctx: &Context, inode: I, handle: Option<Handle>) -> Result<
        Self::Attributes,
        Self::Error,
    >;

    /// Changes the attributes of `inode` that `valid` names to those of `attr`.
    fn setattr(
        &self,
        ctx: &Context,
        inode: I,
        attr: Self::Attr,
        handle: Option<Handle>,
        valid: SetattrValid,
    ) -> Result<Self::Attributes, Self::Error>;

    /// Opens `inode`.
    fn open(&self, ctx: &Context, inode: I, flags: u32, fuse_flags: u32) -> Result<
        (Option<Handle>, OpenOptions, Self::Backing),
        Self::Error,
    >;

    /// Creates and opens `name` in the directory `parent`.
    fn create(&self, ctx: &Context, parent: I, name: &[u8], args: CreateIn) -> Result<
        (Self::Entry, Option<Handle>, OpenOptions, Self::Backing),
        Self::Error,
    >;

    /// Writes an open file back to its storage.
    fn fsync(&self, ctx: &Context, inode: I, datasync: bool, handle: Handle) -> Result<
        (),
        Self::Error,
    >;

    /// Allocates or frees a part of an open file.
    fn fallocate(
        &self,
        ctx: &Context,
        inode: I,
        handle: Handle,
        mode: u32,
        offset: u64,
        length: u64,
    ) -> Result<(), Self::Error>;

    /// Writes a directory back to its storage.
    fn fsyncdir(&self, ctx: &Context, inode: I, datasync: bool, handle: Handle) -> Result<
        (),
        Self::Error,
    >;
}

/// The handler that reads from an open file into a writer `W`.
pub trait ReadFile<W, I = Inode>: FileSystem<I> {
    /// Reads at most `size` bytes at `offset`.
    fn read(
        &self,
        ctx: &Context,
        inode: I,
        handle: Handle,
        w: W,
        size: u32,
        offset: u64,
        lock_owner: Option<u64>,
        flags: u32,
    ) -> Result<usize, Self::Error>;
}

/// The handler that writes to an open file from a reader `R`.
pub trait WriteFile<R, I = Inode>: FileSystem<I> {
    /// Writes at most `size` bytes at `offset`.
    fn write(
        &self,
        ctx: &Context,
        inode: I,
        handle: Handle,
        r: R,
        size: u32,
        offset: u64,
        lock_owner: Option<u64>,
        delayed_write: bool,
        flags: u32,
        fuse_flags: u32,
    ) -> Result<usize, Self::Error>;
}

} // verus!
