//! Calls of the synchronous handlers.
//!
//! Each type holds the arguments of one handler by value, so that a call can be moved to
//! another thread and run there: `run` calls the handler on a file system and answers what it
//! returned. Names are the bytes of a C string without the terminator.
//!
//! A call owns the inode that it names, and `run` knows nothing of its type `I`: it hands the
//! inode to the handler and has none left to call another with.

use vstd::prelude::*;

use crate::abi::{Context, CreateIn, Handle, Inode, OpenOptions, SetattrValid};
use crate::handlers::{FileSystem, ReadFile, WriteFile};

verus! {

/// A call of `lookup`.
#[derive(Debug)]
pub struct Lookup<I = Inode> {
    pub ctx: Context,
    pub parent: I,
    pub name: Vec<u8>,
}

/// A call of `getattr`.
#[derive(Clone, Copy, Debug, PartialEq, Eq)]
pub struct Getattr<I = Inode> {
    pub ctx: Context,
    pub inode: I,
    pub handle: Option<Handle>,
}

/// A call of `setattr`, with the new attributes in the form `A` that the handler takes.
#[derive(Debug)]
pub struct Setattr<A, I = Inode> {
    pub ctx: Context,
    pub inode: I,
    pub attr: A,
    pub handle: Option<Handle>,
    pub valid: SetattrValid,
}

/// A call of `open`.
#[derive(Clone, Copy, Debug, PartialEq, Eq)]
pub struct Open<I = Inode> {
    pub ctx: Context,
    pub inode: I,
    pub flags: u32,
    pub fuse_flags: u32,
}

/// A call of `create`.
#[derive(Debug)]
pub struct Create<I = Inode> {
    pub ctx: Context,
    pub parent: I,
    pub name: Vec<u8>,
    pub args: CreateIn,
}

/// A call of `read`, with the writer that receives the data.
#[derive(Debug)]
pub struct Read<W, I = Inode> {
    pub ctx: Context,
    pub inode: I,
    pub handle: Handle,
    pub w: W,
    pub size: u32,
    pub offset: u64,
    pub lock_owner: Option<u64>,
    pub flags: u32,
}

/// A call of `write`, with the reader that provides the data.
#[derive(Debug)]
pub struct Write<R, I = Inode> {
    pub ctx: Context,
    pub inode: I,
    pub handle: Handle,
    pub r: R,
    pub size: u32,
    pub offset: u64,
    pub lock_owner: Option<u64>,
    pub delayed_write: bool,
    pub flags: u32,
    pub fuse_flags: u32,
}

/// A call of `fsync`.
#[derive(Clone, Copy, Debug, PartialEq, Eq)]
pub struct Fsync<I = Inode> {
    pub ctx: Context,
    pub inode: I,
    pub datasync: bool,
    pub handle: Handle,
}

/// A call of `fallocate`.
#[derive(Clone, Copy, Debug, PartialEq, Eq)]
pub struct Fallocate<I = Inode> {
    pub ctx: Context,
    pub inode: I,
    pub handle: Handle,
    pub mode: u32,
    pub offset: u64,
    pub length: u64,
}

/// A call of `fsyncdir`.
#[derive(Clone, Copy, Debug, PartialEq, Eq)]
pub struct Fsyncdir<I = Inode> {
    pub ctx: Context,
    pub inode: I,
    pub datasync: bool,
    pub handle: Handle,
}

/// A call of `do_lookup`, the lookup that the file system makes on its own behalf.
#[derive(Debug)]
pub struct DoLookup<I = Inode> {
    pub parent: I,
    pub name: Vec<u8>,
}

/// The answer to a request to open a file, of what `open` returned: the handle and the
/// options, without what follows them.
pub open spec fn open_answer<X, E>(
    result: Result<(Option<Handle>, OpenOptions, X), E>,
) -> Result<(Option<Handle>, OpenOptions), E> {
    match result {
        Ok(opened) => Ok((opened.0, opened.1)),
        Err(error) => Err(error),
    }
}

/// The answer to a request to create a file, of what `create` returned: the entry, the handle
/// and the options, without what follows them.
pub open spec fn create_answer<Entry, X, E>(
    result: Result<(Entry, Option<Handle>, OpenOptions, X), E>,
) -> Result<(Entry, Option<Handle>, OpenOptions), E> {
    match result {
        Ok(created) => Ok((created.0, created.1, created.2)),
        Err(error) => Err(error),
    }
}

impl<I> DoLookup<I> {
    /// Calls `do_lookup`.
    pub fn run<F: FileSystem<I>>(self, fs: &F) -> (result: Result<F::Entry, F::Error>)
        ensures
            exists|name: &[u8]|
                name@ == self.name@ && #[trigger] call_ensures(
                    F::do_lookup,
                    (fs, self.parent, name),
                    result,
                ),
    {
        fs.do_lookup(self.parent, self.name.as_slice())
    }
}

impl<I> Lookup<I> {
    /// Calls `lookup`.
    pub fn run<F: FileSystem<I>>(self, fs: &F) -> (result: Result<F::Entry, F::Error>)
        ensures
            exists|name: &[u8]|
                name@ == self.name@ && #[trigger] call_ensures(
                    F::lookup,
                    (fs, &self.ctx, self.parent, name),
                    result,
                ),
    {
        fs.lookup(&self.ctx, self.parent, self.name.as_slice())
    }
}

impl<I> Getattr<I> {
    /// Calls `getattr`.
    pub fn run<F: FileSystem<I>>(self, fs: &F) -> (result: Result<F::Attributes, F::Error>)
        ensures
            call_ensures(F::getattr, (fs, &self.ctx, self.inode, self.handle), result),
    {
        fs.getattr(&self.ctx, self.inode, self.handle)
    }
}

impl<A, I> Setattr<A, I> {
    /// Calls `setattr`.
    pub fn run<F: FileSystem<I, Attr = A>>(self, fs: &F) -> (result: Result<
        F::Attributes,
        F::Error,
    >)
        ensures
            call_ensures(
                F::setattr,
                (fs, &self.ctx, self.inode, self.attr, self.handle, self.valid),
                result,
            ),
    {
        fs.setattr(&self.ctx, self.inode, self.attr, self.handle, self.valid)
    }
}

impl Open {
    /// Makes the answer to the request of what the handler returned.
    pub fn answer<X, E>(result: Result<(Option<Handle>, OpenOptions, X), E>) -> (answer: Result<
        (Option<Handle>, OpenOptions),
        E,
    >)
        ensures
            answer == open_answer(result),
            result matches Ok((handle, opts, _)) ==> answer == Ok::<_, E>((handle, opts)),
            result matches Err(error) ==> answer == Err::<(Option<Handle>, OpenOptions), E>(error),
    {
        match result {
            Ok((handle, opts, _)) => Ok((handle, opts)),
            Err(error) => Err(error),
        }
    }
}

impl<I> Open<I> {
    /// Calls `open` and makes the answer of what it returned.
    pub fn run<F: FileSystem<I>>(self, fs: &F) -> (answer: Result<
        (Option<Handle>, OpenOptions),
        F::Error,
    >)
        ensures
            exists|opened: Result<(Option<Handle>, OpenOptions, F::Backing), F::Error>|
                #[trigger] call_ensures(
                    F::open,
                    (fs, &self.ctx, self.inode, self.flags, self.fuse_flags),
                    opened,
                ) && answer == open_answer(opened),
    {
        Open::answer(fs.open(&self.ctx, self.inode, self.flags, self.fuse_flags))
    }
}

impl Create {
    /// Makes the answer to the request of what the handler returned.
    pub fn answer<Entry, X, E>(
        result: Result<(Entry, Option<Handle>, OpenOptions, X), E>,
    ) -> (answer: Result<(Entry, Option<Handle>, OpenOptions), E>)
        ensures
            answer == create_answer(result),
            result matches Ok((entry, handle, opts, _)) ==> answer == Ok::<_, E>(
                (entry, handle, opts),
            ),
            result matches Err(error) ==> answer == Err::<
                (Entry, Option<Handle>, OpenOptions),
                E,
            >(error),
    {
        match result {
            Ok((entry, handle, opts, _)) => Ok((entry, handle, opts)),
            Err(error) => Err(error),
        }
    }
}

impl<I> Create<I> {
    /// Calls `create` and makes the answer of what it returned.
    pub fn run<F: FileSystem<I>>(self, fs: &F) -> (answer: Result<
        (F::Entry, Option<Handle>, OpenOptions),
        F::Error,
    >)
        ensures
            exists|
                name: &[u8],
                created: Result<(F::Entry, Option<Handle>, OpenOptions, F::Backing), F::Error>,
            |
                name@ == self.name@ && #[trigger] call_ensures(
                    F::create,
                    (fs, &self.ctx, self.parent, name, self.args),
                    created,
                ) && answer == create_answer(created),
    {
        Create::answer(fs.create(&self.ctx, self.parent, self.name.as_slice(), self.args))
    }
}

impl<W, I> Read<W, I> {
    /// Calls `read`.
    pub fn run<F: ReadFile<W, I>>(self, fs: &F) -> (result: Result<usize, F::Error>)
        ensures
            call_ensures(
                F::read,
                (
                    fs,
                    &self.ctx,
                    self.inode,
                    self.handle,
                    self.w,
                    self.size,
                    self.offset,
                    self.lock_owner,
                    self.flags,
                ),
                result,
            ),
    {
        fs.read(
            &self.ctx,
            self.inode,
            self.handle,
            self.w,
            self.size,
            self.offset,
            self.lock_owner,
            self.flags,
        )
    }
}

impl<R, I> Write<R, I> {
    /// Calls `write`.
    pub fn run<F: WriteFile<R, I>>(self, fs: &F) -> (result: Result<usize, F::Error>)
        ensures
            call_ensures(
                F::write,
                (
                    fs,
                    &self.ctx,
                    self.inode,
                    self.handle,
                    self.r,
                    self.size,
                    self.offset,
                    self.lock_owner,
                    self.delayed_write,
                    self.flags,
                    self.fuse_flags,
                ),
                result,
            ),
    {
        fs.write(
            &self.ctx,
            self.inode,
            self.handle,
            self.r,
            self.size,
            self.offset,
            self.lock_owner,
            self.delayed_write,
            self.flags,
            self.fuse_flags,
        )
    }
}

impl<I> Fsync<I> {
    /// Calls `fsync`.
    pub fn run<F: FileSystem<I>>(self, fs: &F) -> (result: Result<(), F::Error>)
        ensures
            call_ensures(F::fsync, (fs, &self.ctx, self.inode, self.datasync, self.handle), result),
    {
        fs.fsync(&self.ctx, self.inode, self.datasync, self.handle)
    }
}

impl<I> Fallocate<I> {
    /// Calls `fallocate`.
    pub fn run<F: FileSystem<I>>(self, fs: &F) -> (result: Result<(), F::Error>)
        ensures
            call_ensures(
                F::fallocate,
                (fs, &self.ctx, self.inode, self.handle, self.mode, self.offset, self.length),
                result,
            ),
    {
        fs.fallocate(&self.ctx, self.inode, self.handle, self.mode, self.offset, self.length)
    }
}

impl<I> Fsyncdir<I> {
    /// Calls `fsyncdir`.
    pub fn run<F: FileSystem<I>>(self, fs: &F) -> (result: Result<(), F::Error>)
        ensures
            call_ensures(
                F::fsyncdir,
                (fs, &self.ctx, self.inode, self.datasync, self.handle),
                result,
            ),
    {
        fs.fsyncdir(&self.ctx, self.inode, self.datasync, self.handle)
    }
}

} // verus!
