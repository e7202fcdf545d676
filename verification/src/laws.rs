//! What holds of every request, however the file system is configured.

use tokio::task::JoinError;
use vstd::prelude::*;

use crate::abi::{Context, Handle, Inode, OpenOptions, ROOT_ID, VFS_MAX_INO};
use crate::calls::{create_answer, open_answer, Read, Write};
use crate::fs::{FsState, PassthroughFs};
use crate::join::{
    answer, failed, join_error_is_panic, join_error_payload, joined_of, Joined, RelayError,
};
use crate::mount::{dot, mount_answer};
use crate::relay::Relay;

verus! {

/// Offloading is disabled by default: a new instance, shared or not, serves its requests inline.
pub proof fn law_inline_by_default<B, S, C>(backend: B, shared_ref: Option<S>, call: C)
    ensures
        FsState::opened(backend).relayed(shared_ref, call) == Relay::<S, C>::Inline(call),
        FsState::opened_shared(backend).relayed(shared_ref, call) == Relay::<S, C>::Inline(call),
{
}

/// Enabling and disabling, however often, changes neither the backend nor whether the instance
/// is shared.
pub proof fn law_settings_keep_instance<B>(state: FsState<B>, settings: Seq<bool>)
    ensures
        state.configured(settings).backend == state.backend,
        state.configured(settings).shared == state.shared,
    decreases settings.len(),
{
    if settings.len() > 0 {
        law_settings_keep_instance(state, settings.drop_last());
    }
}

/// Of many settings the last one decides.
pub proof fn law_last_setting_decides<B>(state: FsState<B>, settings: Seq<bool>)
    requires
        settings.len() > 0,
    ensures
        state.configured(settings) == state.with_async_thread_pool(settings.last()),
{
    law_settings_keep_instance(state, settings.drop_last());
}

/// An instance that is not shared serves every request inline, whatever the settings.
pub proof fn law_not_shared_is_inline<B, S, C>(
    backend: B,
    settings: Seq<bool>,
    shared_ref: Option<S>,
    call: C,
)
    ensures
        FsState::opened(backend).configured(settings).relayed(shared_ref, call) == Relay::<
            S,
            C,
        >::Inline(call),
{
    law_settings_keep_instance(FsState::opened(backend), settings);
}

/// A shared instance whose last setting was to enable offloads every request that it can be
/// referred to for, and the handler runs on that very reference.
pub proof fn law_shared_and_enabled_offloads<B, S, C>(
    backend: B,
    settings: Seq<bool>,
    shared_ref: S,
    call: C,
)
    requires
        settings.len() > 0,
        settings.last(),
    ensures
        FsState::opened_shared(backend).configured(settings).relayed(Some(shared_ref), call)
            == Relay::<S, C>::Pool(shared_ref, call),
{
    law_last_setting_decides(FsState::opened_shared(backend), settings);
}

/// An instance whose last setting was to disable serves every request inline.
pub proof fn law_disabled_is_inline<B, S, C>(
    state: FsState<B>,
    settings: Seq<bool>,
    shared_ref: Option<S>,
    call: C,
)
    requires
        settings.len() > 0,
        !settings.last(),
    ensures
        state.configured(settings).relayed(shared_ref, call) == Relay::<S, C>::Inline(call),
{
    law_last_setting_decides(state, settings);
}

/// Without a reference to hold across threads a request is served inline, whatever the settings.
pub proof fn law_unreferenced_is_inline<B, S, C>(state: FsState<B>, call: C)
    ensures
        state.relayed(None::<S>, call) == Relay::<S, C>::Inline(call),
{
}

/// A read runs inline, whatever the settings of the instance that serves it and whether or not
/// there is a reference to hold across threads; and two instances, however they are configured,
/// serve one read by one and the same call.
pub proof fn law_reads_are_inline<B, S, W>(
    fs: PassthroughFs<B>,
    other: PassthroughFs<B>,
    shared_ref: Option<S>,
    other_ref: Option<S>,
    ctx: Context,
    inode: Inode,
    handle: Handle,
    w: W,
    size: u32,
    offset: u64,
    lock_owner: Option<u64>,
    flags: u32,
    relay: Relay<S, Read<W>>,
    other_relay: Relay<S, Read<W>>,
)
    requires
        call_ensures(
            PassthroughFs::<B>::async_read::<S, W>,
            (&fs, shared_ref, &ctx, inode, handle, w, size, offset, lock_owner, flags),
            relay,
        ),
        call_ensures(
            PassthroughFs::<B>::async_read::<S, W>,
            (&other, other_ref, &ctx, inode, handle, w, size, offset, lock_owner, flags),
            other_relay,
        ),
    ensures
        relay is Inline,
        relay == other_relay,
{
}

/// A write runs inline, whatever the settings of the instance that serves it and whether or not
/// there is a reference to hold across threads; and two instances, however they are configured,
/// serve one write by one and the same call.
pub proof fn law_writes_are_inline<B, S, R>(
    fs: PassthroughFs<B>,
    other: PassthroughFs<B>,
    shared_ref: Option<S>,
    other_ref: Option<S>,
    ctx: Context,
    inode: Inode,
    handle: Handle,
    r: R,
    size: u32,
    offset: u64,
    lock_owner: Option<u64>,
    delayed_write: bool,
    flags: u32,
    fuse_flags: u32,
    relay: Relay<S, Write<R>>,
    other_relay: Relay<S, Write<R>>,
)
    requires
        call_ensures(
            PassthroughFs::<B>::async_write::<S, R>,
            (
                &fs,
                shared_ref,
                &ctx,
                inode,
                handle,
                r,
                size,
                offset,
                lock_owner,
                delayed_write,
                flags,
                fuse_flags,
            ),
            relay,
        ),
        call_ensures(
            PassthroughFs::<B>::async_write::<S, R>,
            (
                &other,
                other_ref,
                &ctx,
                inode,
                handle,
                r,
                size,
                offset,
                lock_owner,
                delayed_write,
                flags,
                fuse_flags,
            ),
            other_relay,
        ),
    ensures
        relay is Inline,
        relay == other_relay,
{
}

/// Where a call runs does not change which handler is called, nor with which arguments.
pub proof fn law_route_keeps_call<B, S, C>(state: FsState<B>, shared_ref: Option<S>, call: C)
    ensures
        state.relayed(shared_ref, call).call() == call,
{
}

/// Where a handler runs does not change the answer: what it returns on the pool is answered as
/// what it returns inline.
pub proof fn law_route_keeps_answer<T, E>(result: Result<T, E>)
    ensures
        joined_of(Ok(result)) == Joined::Return(answer(result)),
{
}

/// A panic goes on in the waiting task exactly if the handler's task panicked, and it goes on
/// with the value which that task panicked with.
pub proof fn law_only_panics_propagate<T, E>(outcome: Result<Result<T, E>, JoinError>)
    ensures
        joined_of(outcome) is ResumeUnwind <==> (outcome matches Err(error) && join_error_is_panic(
            error,
        )),
        outcome matches Err(error) ==> join_error_is_panic(error) ==> joined_of(outcome)
            == Joined::<T, E>::ResumeUnwind(join_error_payload(error)),
{
}

/// A request is answered with an `Other` error exactly if its task neither completed nor
/// panicked, and the error holds the cause.
pub proof fn law_only_cancelled_is_other<T, E>(
    outcome: Result<Result<T, E>, JoinError>,
    error: JoinError,
)
    ensures
        joined_of(outcome) == Joined::<T, E>::Return(Err(RelayError::Other(error))) <==> outcome
            == Err::<Result<T, E>, JoinError>(error) && !join_error_is_panic(error),
{
}

/// A request is answered with success exactly if its handler succeeded, and an error of a handler
/// is answered unchanged.
pub proof fn law_handler_decides<T, E>(
    outcome: Result<Result<T, E>, JoinError>,
    value: T,
    error: E,
)
    ensures
        joined_of(outcome) == Joined::<T, E>::Return(Ok(value)) <==> outcome == Ok::<
            Result<T, E>,
            JoinError,
        >(Ok(value)),
        joined_of(outcome) == Joined::<T, E>::Return(Err(RelayError::Handler(error))) <==> outcome
            == Ok::<Result<T, E>, JoinError>(Err(error)),
{
}

/// What `open` returns is answered without its last part and otherwise unchanged: every handle,
/// every option and every error goes through as it is, and nothing but an error is answered with
/// an error.
pub proof fn law_open_hands_on_handle_and_options<X, E>(
    returned: Result<(Option<Handle>, OpenOptions, X), E>,
    handle: Option<Handle>,
    opts: OpenOptions,
    backing: X,
    error: E,
)
    ensures
        open_answer(Ok::<(Option<Handle>, OpenOptions, X), E>((handle, opts, backing))) == Ok::<
            (Option<Handle>, OpenOptions),
            E,
        >((handle, opts)),
        open_answer(Err::<(Option<Handle>, OpenOptions, X), E>(error)) == Err::<
            (Option<Handle>, OpenOptions),
            E,
        >(error),
        open_answer(returned) is Ok <==> returned is Ok,
{
}

/// What `create` returns is answered without its last part and otherwise unchanged: every entry,
/// every handle, every option and every error goes through as it is, and nothing but an error is
/// answered with an error.
pub proof fn law_create_hands_on_entry_handle_and_options<Entry, X, E>(
    returned: Result<(Entry, Option<Handle>, OpenOptions, X), E>,
    entry: Entry,
    handle: Option<Handle>,
    opts: OpenOptions,
    backing: X,
    error: E,
)
    ensures
        create_answer(
            Ok::<(Entry, Option<Handle>, OpenOptions, X), E>((entry, handle, opts, backing)),
        ) == Ok::<(Entry, Option<Handle>, OpenOptions), E>((entry, handle, opts)),
        create_answer(Err::<(Entry, Option<Handle>, OpenOptions, X), E>(error)) == Err::<
            (Entry, Option<Handle>, OpenOptions),
            E,
        >(error),
        create_answer(returned) is Ok <==> returned is Ok,
{
}

/// What `open` returned besides the handle and the options does not reach the answer, and two
/// answers agree only if the handles and the options do: no two open files are confused.
pub proof fn law_open_keeps_files_apart<X, E>(
    one: (Option<Handle>, OpenOptions, X),
    other: (Option<Handle>, OpenOptions, X),
)
    ensures
        open_answer(Ok::<(Option<Handle>, OpenOptions, X), E>(one)) == open_answer(
            Ok::<(Option<Handle>, OpenOptions, X), E>(other),
        ) <==> one.0 == other.0 && one.1 == other.1,
{
}

/// An inline handler's success is answered with its value, and its error with that error.
pub proof fn law_inline_handler_decides<T, E>(value: T, error: E)
    ensures
        answer(Ok::<T, E>(value)) == Ok::<T, RelayError<E>>(value),
        answer(Err::<T, E>(error)) == Err::<T, RelayError<E>>(RelayError::Handler(error)),
{
}

/// A failed task is settled by whether it is said to have panicked: its panic goes on, or the
/// request is answered with an `Other` error that holds the cause.
pub proof fn law_failure_is_settled_by_panic<T, E>(error: JoinError)
    ensures
        failed::<T, E>(error, true) == Joined::<T, E>::ResumeUnwind(join_error_payload(error)),
        failed::<T, E>(error, false) == Joined::<T, E>::Return(Err(RelayError::Other(error))),
{
}

/// In every state a call is offloaded exactly if the instance is shared, offloading is enabled and
/// there is a reference, which is then the one that the call runs on.
pub proof fn law_offloaded_exactly_if_shared_and_enabled<B, S, C>(
    state: FsState<B>,
    shared_ref: Option<S>,
    call: C,
)
    ensures
        state.relayed(shared_ref, call) is Pool <==> state.shared && state.async_thread_pool_enabled
            && shared_ref is Some,
        state.relayed(shared_ref, call) matches Relay::Pool(fs, _) ==> shared_ref == Some(fs),
{
}

/// A new instance holds the backend that it was opened with and has offloading disabled; it is
/// shared exactly if it was created so. A setting is what it was last set to.
pub proof fn law_instance_is_what_it_was_made<B>(backend: B, state: FsState<B>, enable: bool)
    ensures
        FsState::opened(backend).backend == backend,
        FsState::opened_shared(backend).backend == backend,
        !FsState::opened(backend).shared,
        FsState::opened_shared(backend).shared,
        !FsState::opened(backend).async_thread_pool_enabled,
        !FsState::opened_shared(backend).async_thread_pool_enabled,
        state.with_async_thread_pool(enable).async_thread_pool_enabled == enable,
{
}

/// Mounting looks up a single dot, a name that every C string can hold. It succeeds exactly if
/// that lookup does, with the entry that it found, unchanged, and, whatever the entry is, with
/// the largest number that leaves the top 8 bits of an inode free. Its error is that of the lookup.
pub proof fn law_mount_follows_lookup<Entry, E>(looked_up: Result<Entry, E>)
    ensures
        ROOT_ID == 1,
        dot().len() == 1,
        dot()[0] == 0x2e,
        forall|i: int| 0 <= i < dot().len() ==> #[trigger] dot()[i] != 0,
        mount_answer(looked_up) is Ok <==> looked_up is Ok,
        looked_up matches Ok(entry) ==> mount_answer(looked_up)->Ok_0.0 == entry,
        looked_up is Ok ==> mount_answer(looked_up)->Ok_0.1 == VFS_MAX_INO,
        looked_up is Ok ==> mount_answer(looked_up)->Ok_0.1 == 0x100_0000_0000_0000 - 1,
        looked_up is Ok ==> mount_answer(looked_up)->Ok_0.1 > ROOT_ID,
        looked_up matches Err(error) ==> mount_answer(looked_up) == Err::<(Entry, u64), E>(error),
{
}

/// The bound that mounting returns does not depend on what was found, nor on its type.
pub proof fn law_mount_bound_is_one_for_all<Entry, OtherEntry, E>(entry: Entry, other: OtherEntry)
    ensures
        mount_answer(Ok::<Entry, E>(entry))->Ok_0.1 == mount_answer(
            Ok::<OtherEntry, E>(other),
        )->Ok_0.1,
{
}

} // verus!
