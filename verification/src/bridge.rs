//! Handing the result of a background operation back to the host.
//!
//! A non-blocking call remembers which host object asked and under which
//! signal the answer is expected. When the operation has run, the host object
//! is looked up again; only if it still exists is the answer queued on the
//! host's own thread. An answer for an object that is gone is dropped.

use vstd::prelude::*;
use crate::error::FacadeError;

verus! {

/// A revocable reference to a host-side object: its stable identifier.
///
/// Holding one says nothing about whether the object still exists.
#[derive(Debug, Clone, Copy, PartialEq, Eq, Structural)]
pub struct HostHandle {
    pub instance_id: i64,
}

/// Where the result of one non-blocking call is to be sent.
#[derive(Debug, Clone, Copy, PartialEq, Eq)]
pub struct SignalEmitter {
    pub target: HostHandle,
    pub signal_name: &'static str,
}

/// What to do with a value that a background operation produced.
#[derive(Debug, PartialEq, Eq)]
pub enum Delivery<T> {
    /// Queue `value` on the host's own thread, to be emitted there as `signal` of `target`.
    Posted { target: HostHandle, signal: &'static str, value: T },
    /// `target` no longer exists: nothing is sent.
    Dropped { target: HostHandle, signal: &'static str },
}

/// How a non-blocking operation ended.
#[derive(Debug, PartialEq, Eq)]
pub struct Completion<T> {
    /// What reaches the host.
    pub delivery: Delivery<T>,
    /// Why the operation failed, if it did; for the log.
    pub failure: Option<FacadeError>,
}

/// The delivery of `value` through `emitter`, given whether its target still exists.
pub open spec fn delivery_of<T>(emitter: SignalEmitter, host_alive: bool, value: T) -> Delivery<T> {
    if host_alive {
        Delivery::Posted { target: emitter.target, signal: emitter.signal_name, value }
    } else {
        Delivery::Dropped { target: emitter.target, signal: emitter.signal_name }
    }
}

/// The completion of an operation that ended with `result`: the object or
/// the absent value goes to the host, the error to the log.
pub open spec fn completion_of<T>(
    emitter: SignalEmitter,
    host_alive: bool,
    result: Result<T, FacadeError>,
) -> Completion<Option<T>> {
    Completion {
        delivery: delivery_of(
            emitter,
            host_alive,
            match result {
                Ok(value) => Some(value),
                Err(_) => None,
            },
        ),
        failure: match result {
            Ok(_) => None,
            Err(error) => Some(error),
        },
    }
}

/// The completion of an operation whose result the host sees as a flag.
pub open spec fn flag_completion_of<T>(
    emitter: SignalEmitter,
    host_alive: bool,
    result: Result<T, FacadeError>,
) -> Completion<bool> {
    Completion {
        delivery: delivery_of(emitter, host_alive, result is Ok),
        failure: match result {
            Ok(_) => None,
            Err(error) => Some(error),
        },
    }
}

/// Both variants of an operation end the same way. Where the host object
/// still exists, the value it is sent is the object the blocking variant
/// returns, or the absent value where the blocking variant fails; the error
/// that goes to the log is the error the blocking variant returns.
pub proof fn lemma_variants_agree<T>(emitter: SignalEmitter, result: Result<T, FacadeError>)
    ensures
        completion_of(emitter, true, result).delivery == (Delivery::Posted {
            target: emitter.target,
            signal: emitter.signal_name,
            value: match result {
                Ok(value) => Some(value),
                Err(_) => None,
            },
        }),
        flag_completion_of(emitter, true, result).delivery == (Delivery::Posted {
            target: emitter.target,
            signal: emitter.signal_name,
            value: result is Ok,
        }),
        forall|host_alive: bool|
            result is Ok <==> (#[trigger] completion_of(emitter, host_alive, result)).failure
                is None,
        forall|host_alive: bool|
            result is Ok <==> (#[trigger] flag_completion_of(emitter, host_alive, result)).failure
                is None,
        forall|host_alive: bool|
            result is Err ==> (#[trigger] completion_of(emitter, host_alive, result)).failure
                == Some(result->Err_0),
{
}

/// A host object that is gone receives nothing, and the operation ends as
/// it would have ended otherwise: the same error, or none, goes to the log.
pub proof fn lemma_expired_host_gets_nothing<T>(
    emitter: SignalEmitter,
    result: Result<T, FacadeError>,
)
    ensures
        completion_of(emitter, false, result).delivery is Dropped,
        flag_completion_of(emitter, false, result).delivery is Dropped,
        completion_of(emitter, false, result).failure == completion_of(
            emitter,
            true,
            result,
        ).failure,
        flag_completion_of(emitter, false, result).failure == flag_completion_of(
            emitter,
            true,
            result,
        ).failure,
{
}

/// Remembers the host object and the signal for a call that is about to go to the background.
pub fn create_signal_emitter(instance_id: HostHandle, signal_name: &'static str) -> (emitter:
    SignalEmitter)
    ensures
        emitter.target == instance_id,
        emitter.signal_name == signal_name,
{
    SignalEmitter { target: instance_id, signal_name }
}

impl SignalEmitter {
    /// Decides what happens to `value` now that the operation has run.
    ///
    /// `host_alive` is the outcome of looking the target up at this moment,
    /// not when the call began.
    pub fn emit<T>(&self, host_alive: bool, value: T) -> (delivery: Delivery<T>)
        ensures
            delivery == delivery_of(*self, host_alive, value),
    {
        if host_alive {
            Delivery::Posted { target: self.target, signal: self.signal_name, value }
        } else {
            Delivery::Dropped { target: self.target, signal: self.signal_name }
        }
    }

    /// Surfaces a finished operation: the object on success, the absent value on failure.
    pub fn deliver_result<T>(&self, host_alive: bool, result: Result<T, FacadeError>) -> (done:
        Completion<Option<T>>)
        ensures
            done == completion_of(*self, host_alive, result),
    {
        match result {
            Ok(value) => Completion { delivery: self.emit(host_alive, Some(value)), failure: None },
            Err(error) => Completion {
                delivery: self.emit(host_alive, None),
                failure: Some(error),
            },
        }
    }

    /// Surfaces a finished operation as `true` for success and `false` for failure.
    pub fn deliver_flag<T>(&self, host_alive: bool, result: Result<T, FacadeError>) -> (done:
        Completion<bool>)
        ensures
            done == flag_completion_of(*self, host_alive, result),
    {
        match result {
            Ok(_) => Completion { delivery: self.emit(host_alive, true), failure: None },
            Err(error) => Completion {
                delivery: self.emit(host_alive, false),
                failure: Some(error),
            },
        }
    }
}

impl<T> Delivery<T> {
    /// Whether the value was queued for the host.
    pub fn is_posted(&self) -> (posted: bool)
        ensures
            posted == (*self is Posted),
    {
        match self {
            Delivery::Posted { .. } => true,
            Delivery::Dropped { .. } => false,
        }
    }

    /// The note for the log: `HandleExpired` exactly where the value was dropped.
    pub fn warning(&self) -> (note: Option<FacadeError>)
        ensures
            *self is Posted ==> note is None,
            *self is Dropped ==> note == Some(FacadeError::HandleExpired),
    {
        match self {
            Delivery::Posted { .. } => None,
            Delivery::Dropped { .. } => Some(FacadeError::HandleExpired),
        }
    }
}

} // verus!
