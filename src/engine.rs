//! The engine's process-wide lifecycle and the execution contexts that depend on it.
use vstd::prelude::*;
use crate::error::{EngineInitError, HostError};

verus! {

/// Where the process-wide engine stands.
#[derive(Clone, Copy, Debug, PartialEq, Eq, Structural)]
pub enum EngineState {
    Uninitialized,
    Ready,
    InitFailed,
    ShutDown,
}

/// The outcome of asking for initialization in state `s`, where `acquired` says
/// whether the underlying resources were obtained.
pub open spec fn init_result(s: EngineState, acquired: bool) -> Result<(), EngineInitError> {
    match s {
        EngineState::Uninitialized => if acquired {
            Ok(())
        } else {
            Err(EngineInitError::InitFailed)
        },
        EngineState::Ready => Err(EngineInitError::AlreadyInitialized),
        EngineState::InitFailed => Err(EngineInitError::InitFailed),
        EngineState::ShutDown => Err(EngineInitError::AlreadyShutDown),
    }
}

/// The state after asking for initialization in state `s`.
pub open spec fn init_next(s: EngineState, acquired: bool) -> EngineState {
    match s {
        EngineState::Uninitialized => if acquired {
            EngineState::Ready
        } else {
            EngineState::InitFailed
        },
        _ => s,
    }
}

/// Once an initialization has succeeded, a second one fails with
/// `AlreadyInitialized` and leaves the live engine as it is, whatever the
/// resources would have allowed; after shutdown no initialization succeeds.
pub proof fn lemma_second_initialize_fails(s: EngineState, first: bool, second: bool)
    requires
        init_result(s, first) is Ok,
    ensures
        init_result(init_next(s, first), second) == Err::<(), EngineInitError>(
            EngineInitError::AlreadyInitialized,
        ),
        init_next(init_next(s, first), second) == EngineState::Ready,
        init_result(EngineState::ShutDown, second) is Err,
{
}

/// A handle to a live execution context, given out by [`Engine::create_context`].
#[derive(Debug, PartialEq, Eq, Structural)]
pub struct ContextToken {
    pub id: u64,
}

/// The single engine record of a process, passed explicitly to what depends on it.
pub struct Engine {
    state: EngineState,
    live_contexts: u64,
    next_context: u64,
}

impl Engine {
    /// The lifecycle state.
    pub closed spec fn state(&self) -> EngineState {
        self.state
    }

    /// How many contexts created from this engine are still alive.
    pub closed spec fn live_contexts(&self) -> nat {
        self.live_contexts as nat
    }

    /// The record of an engine that has not been initialized.
    pub fn new() -> (r: Self)
        ensures
            r.state() == EngineState::Uninitialized,
            r.live_contexts() == 0,
    {
        Engine { state: EngineState::Uninitialized, live_contexts: 0, next_context: 0 }
    }

    /// The lifecycle state.
    pub fn current_state(&self) -> (r: EngineState)
        ensures
            r == self.state(),
    {
        self.state
    }

    /// Whether the engine is ready for contexts to be created.
    pub fn is_ready(&self) -> (r: bool)
        ensures
            r == (self.state() == EngineState::Ready),
    {
        match self.state {
            EngineState::Ready => true,
            _ => false,
        }
    }

    /// Records an initialization attempt; `acquired` says whether the engine's
    /// process-wide resources were obtained. Succeeds only on an engine that was
    /// never initialized; a live, failed or shut down engine refuses it.
    pub fn initialize(&mut self, acquired: bool) -> (r: Result<(), EngineInitError>)
        ensures
            r == init_result(old(self).state(), acquired),
            final(self).state() == init_next(old(self).state(), acquired),
            final(self).live_contexts() == old(self).live_contexts(),
    {
        match self.state {
            EngineState::Uninitialized => {
                if acquired {
                    self.state = EngineState::Ready;
                    Ok(())
                } else {
                    self.state = EngineState::InitFailed;
                    Err(EngineInitError::InitFailed)
                }
            },
            EngineState::Ready => Err(EngineInitError::AlreadyInitialized),
            EngineState::InitFailed => Err(EngineInitError::InitFailed),
            EngineState::ShutDown => Err(EngineInitError::AlreadyShutDown),
        }
    }

    /// Records the creation of a context; `valid` says whether the handle the
    /// engine gave back is usable (not null). Fails unless the engine is ready and
    /// the handle valid, and when the count of live contexts is exhausted.
    pub fn create_context(&mut self, valid: bool) -> (r: Result<ContextToken, HostError>)
        ensures
            (old(self).state() == EngineState::Ready && valid && old(self).live_contexts()
                < u64::MAX) ==> {
                &&& r is Ok
                &&& final(self).live_contexts() == old(self).live_contexts() + 1
            },
            !(old(self).state() == EngineState::Ready && valid && old(self).live_contexts()
                < u64::MAX) ==> {
                &&& r == Err::<ContextToken, HostError>(HostError::ContextCreation)
                &&& final(self).live_contexts() == old(self).live_contexts()
            },
            final(self).state() == old(self).state(),
    {
        if !self.is_ready() || !valid || self.live_contexts == u64::MAX {
            return Err(HostError::ContextCreation);
        }
        let id = self.next_context;
        self.next_context = if self.next_context < u64::MAX { self.next_context + 1 } else { 0 };
        self.live_contexts = self.live_contexts + 1;
        Ok(ContextToken { id })
    }

    /// Records that a context has been dropped.
    pub fn release_context(&mut self, _token: ContextToken)
        requires
            old(self).live_contexts() > 0,
        ensures
            final(self).live_contexts() == old(self).live_contexts() - 1,
            final(self).state() == old(self).state(),
    {
        self.live_contexts = self.live_contexts - 1;
    }

    /// Shuts a live engine down for good. No context derived from it may be alive.
    /// An engine that is not live stays as it is.
    pub fn shutdown(&mut self)
        requires
            old(self).live_contexts() == 0,
        ensures
            final(self).state() == (if old(self).state() == EngineState::Ready {
                EngineState::ShutDown
            } else {
                old(self).state()
            }),
            final(self).live_contexts() == 0,
    {
        if self.is_ready() {
            self.state = EngineState::ShutDown;
        }
    }
}

} // verus!
