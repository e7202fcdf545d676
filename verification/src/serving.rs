//! What serving a request does: one call of one handler, and nothing else.
//!
//! A history of handler calls is threaded through a request. The inode that the request names
//! carries the calls made so far (`before`), and what a handler returns carries those and the
//! handler's own (`after`). Each law says that the request ends with the history that it began
//! with and one call more, the one that it asks for.
//!
//! A request owns the inode that it names, of a type `I` of which nothing is known: it can be
//! neither copied nor made, and every handler takes one. So the call that carries the history on
//! is the only one that serving the request can make.

use vstd::prelude::*;

use crate::abi::{Context, CreateIn, Handle, OpenOptions, SetattrValid};
use crate::calls::{
    Create, DoLookup, Fallocate, Fsync, Fsyncdir, Getattr, Lookup, Open, Read, Setattr, Write,
};
use crate::handlers::{FileSystem, ReadFile, WriteFile};

verus! {

/// A call of a handler with its arguments, but for the inode. `X` is the type of the attributes,
/// the writer or the reader of a call that has one.
pub enum HandlerCall<X> {
    DoLookup { name: Seq<u8> },
    Lookup { ctx: Context, name: Seq<u8> },
    Getattr { ctx: Context, handle: Option<Handle> },
    Setattr { ctx: Context, attr: X, handle: Option<Handle>, valid: SetattrValid },
    Open { ctx: Context, flags: u32, fuse_flags: u32 },
    Create { ctx: Context, name: Seq<u8>, args: CreateIn },
    Read {
        ctx: Context,
        handle: Handle,
        w: X,
        size: u32,
        offset: u64,
        lock_owner: Option<u64>,
        flags: u32,
    },
    Write {
        ctx: Context,
        handle: Handle,
        r: X,
        size: u32,
        offset: u64,
        lock_owner: Option<u64>,
        delayed_write: bool,
        flags: u32,
        fuse_flags: u32,
    },
    Fsync { ctx: Context, datasync: bool, handle: Handle },
    Fallocate { ctx: Context, handle: Handle, mode: u32, offset: u64, length: u64 },
    Fsyncdir { ctx: Context, datasync: bool, handle: Handle },
}

/// Serving the lookup that mounts a file system makes one handler call, `do_lookup` with the
/// arguments given, and answers what it returned.
pub proof fn law_do_lookup_is_one_call<I, F: FileSystem<I>>(
    call: DoLookup<I>,
    fs: &F,
    answer: Result<F::Entry, F::Error>,
    before: spec_fn(I) -> Seq<HandlerCall<()>>,
    after: spec_fn(Result<F::Entry, F::Error>) -> Seq<HandlerCall<()>>,
)
    requires
        call_ensures(DoLookup::<I>::run::<F>, (call, fs), answer),
        forall|parent: I, name: &[u8], returned: Result<F::Entry, F::Error>|
            #[trigger] call_ensures(
                F::do_lookup,
                (fs, parent, name),
                returned,
            ) ==> after(returned) == before(parent).push(
                (HandlerCall::DoLookup { name: name@ }),
            ),
    ensures
        after(answer) == before(call.parent).push(
            (HandlerCall::DoLookup { name: call.name@ }),
        ),
{
}

/// Serving a lookup request makes one handler call, `lookup` with the arguments given,
/// and answers what it returned.
pub proof fn law_lookup_is_one_call<I, F: FileSystem<I>>(
    call: Lookup<I>,
    fs: &F,
    answer: Result<F::Entry, F::Error>,
    before: spec_fn(I) -> Seq<HandlerCall<()>>,
    after: spec_fn(Result<F::Entry, F::Error>) -> Seq<HandlerCall<()>>,
)
    requires
        call_ensures(Lookup::<I>::run::<F>, (call, fs), answer),
        forall|ctx: &Context, parent: I, name: &[u8], returned: Result<F::Entry, F::Error>|
            #[trigger] call_ensures(
                F::lookup,
                (fs, ctx, parent, name),
                returned,
            ) ==> after(returned) == before(parent).push(
                (HandlerCall::Lookup { ctx: *ctx, name: name@ }),
            ),
    ensures
        after(answer) == before(call.parent).push(
            (HandlerCall::Lookup { ctx: call.ctx, name: call.name@ }),
        ),
{
}

/// Serving a request for attributes makes one handler call, `getattr` with the arguments given,
/// and answers what it returned.
pub proof fn law_getattr_is_one_call<I, F: FileSystem<I>>(
    call: Getattr<I>,
    fs: &F,
    answer: Result<F::Attributes, F::Error>,
    before: spec_fn(I) -> Seq<HandlerCall<()>>,
    after: spec_fn(Result<F::Attributes, F::Error>) -> Seq<HandlerCall<()>>,
)
    requires
        call_ensures(Getattr::<I>::run::<F>, (call, fs), answer),
        forall|
            ctx: &Context,
            inode: I,
            handle: Option<Handle>,
            returned: Result<F::Attributes, F::Error>,
        |
            #[trigger] call_ensures(
                F::getattr,
                (fs, ctx, inode, handle),
                returned,
            ) ==> after(returned) == before(inode).push(
                (HandlerCall::Getattr { ctx: *ctx, handle }),
            ),
    ensures
        after(answer) == before(call.inode).push(
            (HandlerCall::Getattr { ctx: call.ctx, handle: call.handle }),
        ),
{
}

/// Serving a request to set attributes makes one handler call, `setattr` with the arguments given,
/// and answers what it returned.
pub proof fn law_setattr_is_one_call<A, I, F: FileSystem<I, Attr = A>>(
    call: Setattr<A, I>,
    fs: &F,
    answer: Result<F::Attributes, F::Error>,
    before: spec_fn(I) -> Seq<HandlerCall<A>>,
    after: spec_fn(Result<F::Attributes, F::Error>) -> Seq<HandlerCall<A>>,
)
    requires
        call_ensures(Setattr::<A, I>::run::<F>, (call, fs), answer),
        forall|
            ctx: &Context,
            inode: I,
            attr: A,
            handle: Option<Handle>,
            valid: SetattrValid,
            returned: Result<F::Attributes, F::Error>,
        |
            #[trigger] call_ensures(
                F::setattr,
                (fs, ctx, inode, attr, handle, valid),
                returned,
            ) ==> after(returned) == before(inode).push(
                (HandlerCall::Setattr { ctx: *ctx, attr, handle, valid }),
            ),
    ensures
        after(answer) == before(call.inode).push(
            (HandlerCall::Setattr {
                ctx: call.ctx,
                attr: call.attr,
                handle: call.handle,
                valid: call.valid,
            }),
        ),
{
}

/// Serving an open request makes one handler call, `open` with the arguments given,
/// and answers the handle and the options of what it returned, or its error.
pub proof fn law_open_is_one_call<I, F: FileSystem<I>>(
    call: Open<I>,
    fs: &F,
    answer: Result<(Option<Handle>, OpenOptions), F::Error>,
    before: spec_fn(I) -> Seq<HandlerCall<()>>,
    after: spec_fn(
        Result<(Option<Handle>, OpenOptions, F::Backing), F::Error>,
    ) -> Seq<HandlerCall<()>>,
)
    requires
        call_ensures(Open::<I>::run::<F>, (call, fs), answer),
        forall|
            ctx: &Context,
            inode: I,
            flags: u32,
            fuse_flags: u32,
            returned: Result<(Option<Handle>, OpenOptions, F::Backing), F::Error>,
        |
            #[trigger] call_ensures(
                F::open,
                (fs, ctx, inode, flags, fuse_flags),
                returned,
            ) ==> after(returned) == before(inode).push(
                (HandlerCall::Open { ctx: *ctx, flags, fuse_flags }),
            ),
    ensures
        exists|returned: Result<(Option<Handle>, OpenOptions, F::Backing), F::Error>| {
            &&& #[trigger] call_ensures(
                F::open,
                (fs, &call.ctx, call.inode, call.flags, call.fuse_flags),
                returned,
            )
            &&& after(returned) == before(call.inode).push(
                (HandlerCall::Open {
                    ctx: call.ctx,
                    flags: call.flags,
                    fuse_flags: call.fuse_flags,
                }),
            )
            &&& returned matches Ok((handle, opts, _)) ==> answer == Ok::<_, F::Error>(
                (handle, opts),
            )
            &&& returned matches Err(error) ==> answer == Err::<
                (Option<Handle>, OpenOptions),
                F::Error,
            >(error)
        },
{
}

/// Serving a create request makes one handler call, `create` with the arguments given,
/// and answers the entry, the handle and the options of what it returned, or its error.
pub proof fn law_create_is_one_call<I, F: FileSystem<I>>(
    call: Create<I>,
    fs: &F,
    answer: Result<(F::Entry, Option<Handle>, OpenOptions), F::Error>,
    before: spec_fn(I) -> Seq<HandlerCall<()>>,
    after: spec_fn(
        Result<(F::Entry, Option<Handle>, OpenOptions, F::Backing), F::Error>,
    ) -> Seq<HandlerCall<()>>,
)
    requires
        call_ensures(Create::<I>::run::<F>, (call, fs), answer),
        forall|
            ctx: &Context,
            parent: I,
            name: &[u8],
            args: CreateIn,
            returned: Result<(F::Entry, Option<Handle>, OpenOptions, F::Backing), F::Error>,
        |
            #[trigger] call_ensures(
                F::create,
                (fs, ctx, parent, name, args),
                returned,
            ) ==> after(returned) == before(parent).push(
                (HandlerCall::Create { ctx: *ctx, name: name@, args }),
            ),
    ensures
        exists|
            name: &[u8],
            returned: Result<(F::Entry, Option<Handle>, OpenOptions, F::Backing), F::Error>,
        | {
            &&& name@ == call.name@
            &&& #[trigger] call_ensures(
                F::create,
                (fs, &call.ctx, call.parent, name, call.args),
                returned,
            )
            &&& after(returned) == before(call.parent).push(
                (HandlerCall::Create { ctx: call.ctx, name: call.name@, args: call.args }),
            )
            &&& returned matches Ok((entry, handle, opts, _)) ==> answer == Ok::<_, F::Error>(
                (entry, handle, opts),
            )
            &&& returned matches Err(error) ==> answer == Err::<
                (F::Entry, Option<Handle>, OpenOptions),
                F::Error,
            >(error)
        },
{
}

/// Serving a read request makes one handler call, `read` with the arguments given,
/// and answers what it returned.
pub proof fn law_read_is_one_call<W, I, F: ReadFile<W, I>>(
    call: Read<W, I>,
    fs: &F,
    answer: Result<usize, F::Error>,
    before: spec_fn(I) -> Seq<HandlerCall<W>>,
    after: spec_fn(Result<usize, F::Error>) -> Seq<HandlerCall<W>>,
)
    requires
        call_ensures(Read::<W, I>::run::<F>, (call, fs), answer),
        forall|
            ctx: &Context,
            inode: I,
            handle: Handle,
            w: W,
            size: u32,
            offset: u64,
            lock_owner: Option<u64>,
            flags: u32,
            returned: Result<usize, F::Error>,
        |
            #[trigger] call_ensures(
                F::read,
                (fs, ctx, inode, handle, w, size, offset, lock_owner, flags),
                returned,
            ) ==> after(returned) == before(inode).push(
                (HandlerCall::Read { ctx: *ctx, handle, w, size, offset, lock_owner, flags }),
            ),
    ensures
        after(answer) == before(call.inode).push(
            (HandlerCall::Read {
                ctx: call.ctx,
                handle: call.handle,
                w: call.w,
                size: call.size,
                offset: call.offset,
                lock_owner: call.lock_owner,
                flags: call.flags,
            }),
        ),
{
}

/// Serving a write request makes one handler call, `write` with the arguments given,
/// and answers what it returned.
pub proof fn law_write_is_one_call<R, I, F: WriteFile<R, I>>(
    call: Write<R, I>,
    fs: &F,
    answer: Result<usize, F::Error>,
    before: spec_fn(I) -> Seq<HandlerCall<R>>,
    after: spec_fn(Result<usize, F::Error>) -> Seq<HandlerCall<R>>,
)
    requires
        call_ensures(Write::<R, I>::run::<F>, (call, fs), answer),
        forall|
            ctx: &Context,
            inode: I,
            handle: Handle,
            r: R,
            size: u32,
            offset: u64,
            lock_owner: Option<u64>,
            delayed_write: bool,
            flags: u32,
            fuse_flags: u32,
            returned: Result<usize, F::Error>,
        |
            #[trigger] call_ensures(
                F::write,
                (
                    fs,
                    ctx,
                    inode,
                    handle,
                    r,
                    size,
                    offset,
                    lock_owner,
                    delayed_write,
                    flags,
                    fuse_flags,
                ),
                returned,
            ) ==> after(returned) == before(inode).push(
                (HandlerCall::Write {
                    ctx: *ctx,
                    handle,
                    r,
                    size,
                    offset,
                    lock_owner,
                    delayed_write,
                    flags,
                    fuse_flags,
                }),
            ),
    ensures
        after(answer) == before(call.inode).push(
            (HandlerCall::Write {
                ctx: call.ctx,
                handle: call.handle,
                r: call.r,
                size: call.size,
                offset: call.offset,
                lock_owner: call.lock_owner,
                delayed_write: call.delayed_write,
                flags: call.flags,
                fuse_flags: call.fuse_flags,
            }),
        ),
{
}

/// Serving an fsync request makes one handler call, `fsync` with the arguments given,
/// and answers what it returned.
pub proof fn law_fsync_is_one_call<I, F: FileSystem<I>>(
    call: Fsync<I>,
    fs: &F,
    answer: Result<(), F::Error>,
    before: spec_fn(I) -> Seq<HandlerCall<()>>,
    after: spec_fn(Result<(), F::Error>) -> Seq<HandlerCall<()>>,
)
    requires
        call_ensures(Fsync::<I>::run::<F>, (call, fs), answer),
        forall|
            ctx: &Context,
            inode: I,
            datasync: bool,
            handle: Handle,
            returned: Result<(), F::Error>,
        |
            #[trigger] call_ensures(
                F::fsync,
                (fs, ctx, inode, datasync, handle),
                returned,
            ) ==> after(returned) == before(inode).push(
                (HandlerCall::Fsync { ctx: *ctx, datasync, handle }),
            ),
    ensures
        after(answer) == before(call.inode).push(
            (HandlerCall::Fsync { ctx: call.ctx, datasync: call.datasync, handle: call.handle }),
        ),
{
}

/// Serving a fallocate request makes one handler call, `fallocate` with the arguments given,
/// and answers what it returned.
pub proof fn law_fallocate_is_one_call<I, F: FileSystem<I>>(
    call: Fallocate<I>,
    fs: &F,
    answer: Result<(), F::Error>,
    before: spec_fn(I) -> Seq<HandlerCall<()>>,
    after: spec_fn(Result<(), F::Error>) -> Seq<HandlerCall<()>>,
)
    requires
        call_ensures(Fallocate::<I>::run::<F>, (call, fs), answer),
        forall|
            ctx: &Context,
            inode: I,
            handle: Handle,
            mode: u32,
            offset: u64,
            length: u64,
            returned: Result<(), F::Error>,
        |
            #[trigger] call_ensures(
                F::fallocate,
                (fs, ctx, inode, handle, mode, offset, length),
                returned,
            ) ==> after(returned) == before(inode).push(
                (HandlerCall::Fallocate { ctx: *ctx, handle, mode, offset, length }),
            ),
    ensures
        after(answer) == before(call.inode).push(
            (HandlerCall::Fallocate {
                ctx: call.ctx,
                handle: call.handle,
                mode: call.mode,
                offset: call.offset,
                length: call.length,
            }),
        ),
{
}

/// Serving an fsyncdir request makes one handler call, `fsyncdir` with the arguments given,
/// and answers what it returned.
pub proof fn law_fsyncdir_is_one_call<I, F: FileSystem<I>>(
    call: Fsyncdir<I>,
    fs: &F,
    answer: Result<(), F::Error>,
    before: spec_fn(I) -> Seq<HandlerCall<()>>,
    after: spec_fn(Result<(), F::Error>) -> Seq<HandlerCall<()>>,
)
    requires
        call_ensures(Fsyncdir::<I>::run::<F>, (call, fs), answer),
        forall|
            ctx: &Context,
            inode: I,
            datasync: bool,
            handle: Handle,
            returned: Result<(), F::Error>,
        |
            #[trigger] call_ensures(
                F::fsyncdir,
                (fs, ctx, inode, datasync, handle),
                returned,
            ) ==> after(returned) == before(inode).push(
                (HandlerCall::Fsyncdir { ctx: *ctx, datasync, handle }),
            ),
    ensures
        after(answer) == before(call.inode).push(
            (HandlerCall::Fsyncdir {
                ctx: call.ctx,
                datasync: call.datasync,
                handle: call.handle,
            }),
        ),
{
}

} // verus!
