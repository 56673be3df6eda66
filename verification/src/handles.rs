//! Opaque handles owned by the caller, and the slots they are returned in.

use vstd::prelude::*;
use std::sync::Arc;

verus! {

/// Opaque driver runtime handle.
#[derive(Debug)]
pub struct CuaDriverHandle<R> {
    runtime: Arc<R>,
}

impl<R> CuaDriverHandle<R> {
    /// The runtime the handle keeps alive.
    pub closed spec fn spec_runtime(&self) -> R {
        *self.runtime
    }

    pub fn new(runtime: R) -> (handle: CuaDriverHandle<R>)
        ensures
            handle.spec_runtime() == runtime,
    {
        CuaDriverHandle { runtime: Arc::new(runtime) }
    }

    /// The shared runtime, for an operation to keep alive.
    pub fn runtime(&self) -> (runtime: &Arc<R>)
        ensures
            **runtime == self.spec_runtime(),
    {
        &self.runtime
    }
}

/// Opaque session handle whose actions are already bound to one immutable
/// authorization context.
#[derive(Debug)]
pub struct CuaDriverSessionHandle<S> {
    session: Arc<S>,
}

impl<S> CuaDriverSessionHandle<S> {
    /// The session the handle keeps alive.
    pub closed spec fn spec_session(&self) -> S {
        *self.session
    }

    pub fn new(session: S) -> (handle: CuaDriverSessionHandle<S>)
        ensures
            handle.spec_session() == session,
    {
        CuaDriverSessionHandle { session: Arc::new(session) }
    }

    /// The shared session, for an operation to keep alive.
    pub fn session(&self) -> (session: &Arc<S>)
        ensures
            **session == self.spec_session(),
    {
        &self.session
    }
}

/// Destroys the driver handle held in `handle` and clears the slot;
/// an empty slot is left as it is.
pub fn cua_driver_destroy_v1<R>(handle: &mut Option<CuaDriverHandle<R>>)
    ensures
        final(handle).is_none(),
{
    *handle = None;
}

/// Destroys the session handle held in `handle` and clears the slot;
/// an empty slot is left as it is.
pub fn cua_driver_session_destroy_v1<S>(handle: &mut Option<CuaDriverSessionHandle<S>>)
    ensures
        final(handle).is_none(),
{
    *handle = None;
}

/// Releases the operation token held in `operation` and clears the slot;
/// an empty slot is left as it is.
pub fn cua_driver_operation_release_v1<T>(operation: &mut Option<T>)
    ensures
        final(operation).is_none(),
{
    *operation = None;
}

/// Client-side views of the handles: each owns one raw handle address
/// (zero stands for a null handle).
#[derive(Debug)]
pub struct Handle {
    raw: usize,
}

#[derive(Debug)]
pub struct Session {
    raw: usize,
}

} // verus!
