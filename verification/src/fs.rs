//! The file system instance: how it was created and how it serves asynchronous requests.

use vstd::prelude::*;

verus! {

/// A passthrough file system that serves its requests through the handlers of `B`.
#[derive(Debug)]
pub struct PassthroughFs<B> {
    backend: B,
    shared: bool,
    async_thread_pool_enabled: bool,
}

/// What a [`PassthroughFs`] holds.
pub struct FsState<B> {
    /// Runs the synchronous handlers.
    pub backend: B,
    /// Whether the instance was created to be shared between threads, and so knows itself
    /// by a weak reference.
    pub shared: bool,
    /// Whether handlers are to be offloaded to the blocking thread pool.
    pub async_thread_pool_enabled: bool,
}

impl<B> FsState<B> {
    /// A new instance that is not shared.
    pub open spec fn opened(backend: B) -> FsState<B> {
        FsState { backend, shared: false, async_thread_pool_enabled: false }
    }

    /// A new shared instance.
    pub open spec fn opened_shared(backend: B) -> FsState<B> {
        FsState { backend, shared: true, async_thread_pool_enabled: false }
    }

    /// The instance with offloading enabled or disabled.
    pub open spec fn with_async_thread_pool(self, enable: bool) -> FsState<B> {
        FsState { async_thread_pool_enabled: enable, ..self }
    }

    /// The instance after offloading was enabled or disabled once for each of `settings`.
    pub open spec fn configured(self, settings: Seq<bool>) -> FsState<B>
        decreases settings.len(),
    {
        if settings.len() == 0 {
            self
        } else {
            self.configured(settings.drop_last()).with_async_thread_pool(settings.last())
        }
    }
}

impl<B> View for PassthroughFs<B> {
    type V = FsState<B>;

    closed spec fn view(&self) -> FsState<B> {
        FsState {
            backend: self.backend,
            shared: self.shared,
            async_thread_pool_enabled: self.async_thread_pool_enabled,
        }
    }
}

impl<B> PassthroughFs<B> {
    /// Create a Passthrough file system instance of a backend, or of the failure to open one.
    ///
    /// Such an instance always serves its async requests inline.
    pub fn new<E>(opened: Result<B, E>) -> (fs: Result<Self, E>)
        ensures
            match opened {
                Ok(backend) => fs matches Ok(fs) && fs@ == FsState::opened(backend)
                    && fs@ == (FsState {
                    backend,
                    shared: false,
                    async_thread_pool_enabled: false,
                }),
                Err(error) => fs == Err::<Self, E>(error),
            },
    {
        match opened {
            Ok(backend) => Ok(
                PassthroughFs { backend, shared: false, async_thread_pool_enabled: false },
            ),
            Err(error) => Err(error),
        }
    }

    /// Create a Passthrough file system instance shared between threads.
    ///
    /// A shared instance can offload its synchronous handlers to the
    /// blocking thread pool, see `enable_async_thread_pool()`. A file
    /// system created with `PassthroughFs::new()` always serves its async
    /// requests inline.
    pub fn new_shared<E>(opened: Result<B, E>) -> (fs: Result<Self, E>)
        ensures
            match opened {
                Ok(backend) => fs matches Ok(fs) && fs@ == FsState::opened_shared(backend)
                    && fs@ == (FsState {
                    backend,
                    shared: true,
                    async_thread_pool_enabled: false,
                }),
                Err(error) => fs == Err::<Self, E>(error),
            },
    {
        match Self::new(opened) {
            Ok(mut fs) => {
                fs.shared = true;
                Ok(fs)
            },
            Err(error) => Err(error),
        }
    }

    /// Enable or disable offloading the synchronous handlers to the
    /// runtime's blocking thread pool.
    ///
    /// When disabled (the default), the asynchronous handlers execute the
    /// synchronous handlers inline in the context of the asynchronous
    /// runtime. When enabled, the synchronous handlers are offloaded to the
    /// runtime's blocking thread pool instead, so the async task can keep
    /// receiving and dispatching requests while the blocking syscalls
    /// execute in parallel on pool threads. Note that the offloading
    /// requires the file system to be created with `new_shared()`,
    /// requests of other instances are served inline.
    ///
    /// `async_read()` and `async_write()` always execute inline, because
    /// the zero-copy reader and writer borrow the request and reply
    /// buffers of the fuse transport, which can't be moved to a pool
    /// thread.
    pub fn enable_async_thread_pool(&mut self, enable: bool)
        ensures
            final(self)@ == old(self)@.with_async_thread_pool(enable),
            final(self)@ == (FsState { async_thread_pool_enabled: enable, ..old(self)@ }),
    {
        self.async_thread_pool_enabled = enable;
    }

    /// Whether the instance was created to be shared between threads.
    pub fn is_shared(&self) -> (shared: bool)
        ensures
            shared == self@.shared,
    {
        self.shared
    }

    /// Whether offloading is enabled.
    pub fn async_thread_pool_enabled(&self) -> (enabled: bool)
        ensures
            enabled == self@.async_thread_pool_enabled,
    {
        self.async_thread_pool_enabled
    }

    /// What runs the synchronous handlers.
    pub fn backend(&self) -> (backend: &B)
        ensures
            *backend == self@.backend,
    {
        &self.backend
    }
}

} // verus!
