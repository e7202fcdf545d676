//! Relaying of asynchronous requests to the synchronous handlers.
//!
//! Each request becomes one call of a handler, together with the decision where the call runs:
//! inline in the task that serves the request, or on the runtime's blocking thread pool.

use vstd::prelude::*;
use vstd::slice::slice_to_vec;

use crate::abi::{Context, CreateIn, Handle, Inode, SetattrValid};
use crate::calls::{
    Create, Fallocate, Fsync, Fsyncdir, Getattr, Lookup, Open, Read, Setattr, Write,
};
use crate::fs::{FsState, PassthroughFs};

verus! {

/// A call `C` of a synchronous handler, and where it runs.
#[derive(Debug)]
pub enum Relay<S, C> {
    /// The call runs inline, on the file system that serves the request.
    Inline(C),
    /// The call runs on the blocking thread pool, on the file system that the strong
    /// reference `S` keeps alive.
    Pool(S, C),
}

impl<S, C> Relay<S, C> {
    /// The call, wherever it runs.
    pub open spec fn call(self) -> C {
        match self {
            Relay::Inline(call) => call,
            Relay::Pool(_, call) => call,
        }
    }
}

impl<B> FsState<B> {
    /// How the instance relays `call`, where upgrading its weak reference to itself gives
    /// `shared_ref`.
    ///
    /// The call is offloaded exactly if the instance was created shared, the setting is enabled
    /// and there is a reference to hold across threads.
    pub open spec fn relayed<S, C>(self, shared_ref: Option<S>, call: C) -> Relay<S, C> {
        match shared_ref {
            Some(fs) if self.shared && self.async_thread_pool_enabled => Relay::Pool(fs, call),
            _ => Relay::Inline(call),
        }
    }
}

impl<B> PassthroughFs<B> {
    /// Relay a synchronous handler according to the `async_thread_pool_enabled`
    /// setting: offload it to the runtime's blocking thread pool if the setting
    /// is enabled and the file system was created with `PassthroughFs::new_shared()`
    /// (so the handler can hold a reference to it across threads), otherwise
    /// execute it inline. `shared_ref` is that reference, `None` where the file system
    /// cannot be referred to any more.
    pub fn async_relay<S, C>(&self, shared_ref: Option<S>, call: C) -> (relay: Relay<S, C>)
        ensures
            relay == self@.relayed(shared_ref, call),
            relay.call() == call,
            relay matches Relay::Pool(fs, _) ==> shared_ref == Some(fs),
            relay is Pool <==> self@.shared && self@.async_thread_pool_enabled
                && shared_ref is Some,
    {
        match shared_ref {
            Some(fs) => {
                if self.is_shared() && self.async_thread_pool_enabled() {
                    Relay::Pool(fs, call)
                } else {
                    Relay::Inline(call)
                }
            },
            None => Relay::Inline(call),
        }
    }

    /// Relays a request to look up `name` in the directory `parent`.
    pub fn async_lookup<S>(
        &self,
        shared_ref: Option<S>,
        ctx: &Context,
        parent: Inode,
        name: &[u8],
    ) -> (relay: Relay<S, Lookup>)
        ensures
            relay == self@.relayed(shared_ref, relay.call()),
            relay.call().ctx == *ctx,
            relay.call().parent == parent,
            relay.call().name@ == name@,
    {
        self.async_relay(shared_ref, Lookup { ctx: *ctx, parent, name: slice_to_vec(name) })
    }

    /// Relays a request for the attributes of `inode`.
    pub fn async_getattr<S>(
        &self,
        shared_ref: Option<S>,
        ctx: &Context,
        inode: Inode,
        handle: Option<Handle>,
    ) -> (relay: Relay<S, Getattr>)
        ensures
            relay == self@.relayed(shared_ref, (Getattr { ctx: *ctx, inode, handle })),
    {
        self.async_relay(shared_ref, Getattr { ctx: *ctx, inode, handle })
    }

    /// Relays a request to change the attributes of `inode` that `valid` names to those of
    /// `attr`.
    pub fn async_setattr<S, A>(
        &self,
        shared_ref: Option<S>,
        ctx: &Context,
        inode: Inode,
        attr: A,
        handle: Option<Handle>,
        valid: SetattrValid,
    ) -> (relay: Relay<S, Setattr<A>>)
        ensures
            relay == self@.relayed(
                shared_ref,
                (Setattr { ctx: *ctx, inode, attr, handle, valid }),
            ),
    {
        self.async_relay(shared_ref, Setattr { ctx: *ctx, inode, attr, handle, valid })
    }

    /// Relays a request to open `inode`. The answer is made by [`Open::answer`].
    pub fn async_open<S>(
        &self,
        shared_ref: Option<S>,
        ctx: &Context,
        inode: Inode,
        flags: u32,
        fuse_flags: u32,
    ) -> (relay: Relay<S, Open>)
        ensures
            relay == self@.relayed(shared_ref, (Open { ctx: *ctx, inode, flags, fuse_flags })),
    {
        self.async_relay(shared_ref, Open { ctx: *ctx, inode, flags, fuse_flags })
    }

    /// Relays a request to create and open `name` in the directory `parent`. The answer is made
    /// by [`Create::answer`].
    pub fn async_create<S>(
        &self,
        shared_ref: Option<S>,
        ctx: &Context,
        parent: Inode,
        name: &[u8],
        args: CreateIn,
    ) -> (relay: Relay<S, Create>)
        ensures
            relay == self@.relayed(shared_ref, relay.call()),
            relay.call().ctx == *ctx,
            relay.call().parent == parent,
            relay.call().name@ == name@,
            relay.call().args == args,
    {
        self.async_relay(shared_ref, Create { ctx: *ctx, parent, name: slice_to_vec(name), args })
    }

    /// Relays a request to read from an open file.
    ///
    /// The writer borrows the reply buffer of the fuse transport, so the
    /// request can't be offloaded to the blocking thread pool and is
    /// always served inline, whatever the settings and even if there is a reference to hold.
    #[allow(unused_variables)]
    pub fn async_read<S, W>(
        &self,
        shared_ref: Option<S>,
        ctx: &Context,
        inode: Inode,
        handle: Handle,
        w: W,
        size: u32,
        offset: u64,
        lock_owner: Option<u64>,
        flags: u32,
    ) -> (relay: Relay<S, Read<W>>)
        ensures
            relay == Relay::<S, Read<W>>::Inline(
                (Read { ctx: *ctx, inode, handle, w, size, offset, lock_owner, flags }),
            ),
    {
        Relay::Inline(Read { ctx: *ctx, inode, handle, w, size, offset, lock_owner, flags })
    }

    /// Relays a request to write to an open file.
    ///
    /// The reader borrows the request buffer of the fuse transport, so the
    /// request can't be offloaded to the blocking thread pool and is
    /// always served inline, whatever the settings and even if there is a reference to hold.
    #[allow(unused_variables)]
    pub fn async_write<S, R>(
        &self,
        shared_ref: Option<S>,
        ctx: &Context,
        inode: Inode,
        handle: Handle,
        r: R,
        size: u32,
        offset: u64,
        lock_owner: Option<u64>,
        delayed_write: bool,
        flags: u32,
        fuse_flags: u32,
    ) -> (relay: Relay<S, Write<R>>)
        ensures
            relay == Relay::<S, Write<R>>::Inline(
                (Write {
                    ctx: *ctx,
                    inode,
                    handle,
                    r,
                    size,
                    offset,
                    lock_owner,
                    delayed_write,
                    flags,
                    fuse_flags,
                }),
            ),
    {
        Relay::Inline(
            Write {
                ctx: *ctx,
                inode,
                handle,
                r,
                size,
                offset,
                lock_owner,
                delayed_write,
                flags,
                fuse_flags,
            },
        )
    }

    /// Relays a request to write an open file back to its storage.
    pub fn async_fsync<S>(
        &self,
        shared_ref: Option<S>,
        ctx: &Context,
        inode: Inode,
        datasync: bool,
        handle: Handle,
    ) -> (relay: Relay<S, Fsync>)
        ensures
            relay == self@.relayed(shared_ref, (Fsync { ctx: *ctx, inode, datasync, handle })),
    {
        self.async_relay(shared_ref, Fsync { ctx: *ctx, inode, datasync, handle })
    }

    /// Relays a request to allocate or free a part of an open file.
    pub fn async_fallocate<S>(
        &self,
        shared_ref: Option<S>,
        ctx: &Context,
        inode: Inode,
        handle: Handle,
        mode: u32,
        offset: u64,
        length: u64,
    ) -> (relay: Relay<S, Fallocate>)
        ensures
            relay == self@.relayed(
                shared_ref,
                (Fallocate { ctx: *ctx, inode, handle, mode, offset, length }),
            ),
    {
        self.async_relay(shared_ref, Fallocate { ctx: *ctx, inode, handle, mode, offset, length })
    }

    /// Relays a request to write a directory back to its storage.
    ///
    /// The handler is `fsyncdir`, which reopens the directory where directories are not opened
    /// by requests; `fsync` would look for a handle that does not exist then.
    pub fn async_fsyncdir<S>(
        &self,
        shared_ref: Option<S>,
        ctx: &Context,
        inode: Inode,
        datasync: bool,
        handle: Handle,
    ) -> (relay: Relay<S, Fsyncdir>)
        ensures
            relay == self@.relayed(shared_ref, (Fsyncdir { ctx: *ctx, inode, datasync, handle })),
    {
        self.async_relay(shared_ref, Fsyncdir { ctx: *ctx, inode, datasync, handle })
    }
}

} // verus!
