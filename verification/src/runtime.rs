//! The asynchronous runtime that carries the background flush tasks of the
//! remote pipelines.
use crate::error::Error;
use tokio::runtime::{Handle, RuntimeFlavor, TryCurrentError};
use vstd::prelude::*;

verus! {

#[verifier::external_type_specification]
#[verifier::external_body]
pub struct ExHandle(Handle);

/// How a runtime schedules its tasks.
#[derive(Clone, Copy, Debug, PartialEq, Eq, Structural)]
pub enum Scheduling {
    /// Every task runs on the thread that drives the runtime.
    CurrentThread,
    /// Tasks run on worker threads of their own.
    MultiThread,
    /// A way of scheduling that this library does not know.
    Other,
}

/// `Handle::try_current`: a handle to the runtime that the calling thread is
/// in, or the reason why there is none. It never panics. What it returns
/// depends on where it is called, so nothing is promised of it.
#[verifier::external_body]
fn try_current() -> (r: Result<Handle, TryCurrentError>) {
    Handle::try_current()
}

/// `Handle::runtime_flavor`: how the runtime behind the handle schedules.
#[verifier::external_body]
fn scheduling(rt: &Handle) -> (kind: Scheduling) {
    match rt.runtime_flavor() {
        RuntimeFlavor::CurrentThread => Scheduling::CurrentThread,
        RuntimeFlavor::MultiThread => Scheduling::MultiThread,
        _ => Scheduling::Other,
    }
}

/// Decides whether a runtime can carry the pipelines: only one that runs its
/// tasks on worker threads can.
pub fn vet(rt: Handle, kind: Scheduling) -> (r: Result<Handle, Error>)
    ensures
        r == if kind == Scheduling::MultiThread {
            Ok::<Handle, Error>(rt)
        } else {
            Err::<Handle, Error>(Error::SingleThreadedRuntime)
        },
{
    match kind {
        Scheduling::MultiThread => Ok(rt),
        _ => Err(Error::SingleThreadedRuntime),
    }
}

/// The runtime of the calling thread, if there is one and it can carry the
/// pipelines.
pub fn current() -> (r: Result<Handle, Error>)
    ensures
        r matches Err(e) ==> e is NoRuntime || e is SingleThreadedRuntime,
{
    match try_current() {
        Ok(rt) => {
            let kind = scheduling(&rt);
            vet(rt, kind)
        },
        Err(e) => Err(Error::NoRuntime(e)),
    }
}

} // verus!
