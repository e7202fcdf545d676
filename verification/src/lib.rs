//! Relaying of asynchronous file system requests to synchronous handlers.
//!
//! A passthrough file system serves each asynchronous request by one call of a synchronous
//! handler, which executes blocking syscalls. The call runs inline in the task that serves the
//! request or, if the instance is shared and the setting is enabled, on the runtime's blocking
//! thread pool. This library decides which call a request becomes and where it runs ([`relay`],
//! [`fs`]), makes the call on the handlers ([`calls`], [`handlers`]) and decides what the request
//! is answered ([`join`]); spawning and awaiting tasks is left to its user. [`laws`] states what
//! holds of all requests, [`serving`] that each is served by one handler call and nothing else.

pub mod abi;
pub mod calls;
pub mod fs;
pub mod handlers;
pub mod join;
pub mod laws;
pub mod mount;
pub mod relay;
pub mod serving;
