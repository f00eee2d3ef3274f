//! The decisions of an evaluate-and-print session, as a state machine. The
//! caller performs each returned action against the engine and reports what
//! came of it through the next call; the session keeps the engine record, the
//! roots and the entered realms consistent on every path, failures included.
use vstd::prelude::*;
use crate::engine::{init_next, ContextToken, Engine, EngineState};
use crate::error::{EngineInitError, HostError, ScriptError};
use crate::eval::{classify, outcome_result, EvalOutcome};
use crate::realm::{RealmGuard, RealmStack};
use crate::roots::{RootHandle, RootStack};

verus! {

/// The stage a session has reached.
#[derive(Clone, Copy, Debug, PartialEq, Eq, Structural)]
pub enum Phase {
    Uninitialized,
    EngineReady,
    ContextReady,
    RealmEntered,
    Evaluated,
    RealmExited,
    Failed,
    Closed,
}

/// What the caller is to do next.
#[derive(Debug, PartialEq, Eq)]
pub enum Action {
    /// Create an execution context on the engine.
    CreateContext,
    /// Create the realm's global object.
    CreateGlobal,
    /// Compile and run the source text in the active realm.
    Evaluate,
    /// Convert the rooted result value with these bits to a string.
    Coerce(u64),
    /// Show this text: the session succeeded.
    Print(String),
    /// Evaluation failed: first resume any unwind that a host callback left
    /// pending, then report the script error.
    ResumeUnwindThenFail(ScriptError),
    /// Report this failure; nothing is shown.
    Fail(HostError),
}

/// The state of a session as the laws speak of it.
pub struct SessionModel {
    pub phase: Phase,
    pub roots: Seq<u64>,
    pub realms: Seq<u64>,
    pub global: Option<u64>,
}

impl SessionModel {
    /// The same state at another phase.
    pub open spec fn with_phase(self, phase: Phase) -> SessionModel {
        SessionModel { phase, roots: self.roots, realms: self.realms, global: self.global }
    }

    /// The same state with another global.
    pub open spec fn with_global(self, global: Option<u64>) -> SessionModel {
        SessionModel { phase: self.phase, roots: self.roots, realms: self.realms, global }
    }
}

/// Entering the realm of the global for an evaluation: the global is rooted,
/// then the slot that will receive the result, holding `slot` until then.
pub open spec fn after_begin(m: SessionModel, slot: u64) -> SessionModel {
    SessionModel {
        phase: Phase::RealmEntered,
        roots: m.roots.push(m.global.unwrap()).push(slot),
        realms: m.realms.push(m.global.unwrap()),
        global: m.global,
    }
}

/// An evaluation's outcome: a value is stored in the rooted result slot; a
/// failure releases the slot's root, then the global's, and exits the realm.
pub open spec fn after_evaluated(m: SessionModel, o: EvalOutcome) -> SessionModel {
    match o {
        EvalOutcome::Value(v) => SessionModel {
            phase: Phase::Evaluated,
            roots: m.roots.drop_last().push(v),
            realms: m.realms,
            global: m.global,
        },
        _ => SessionModel {
            phase: Phase::Failed,
            roots: m.roots.drop_last().drop_last(),
            realms: m.realms.drop_last(),
            global: m.global,
        },
    }
}

/// A coercion's outcome: the result slot's root and then the global's are released
/// and the realm is exited, whether or not it succeeded.
pub open spec fn after_coerced(m: SessionModel, ok: bool) -> SessionModel {
    SessionModel {
        phase: if ok {
            Phase::RealmExited
        } else {
            Phase::Failed
        },
        roots: m.roots.drop_last().drop_last(),
        realms: m.realms.drop_last(),
        global: m.global,
    }
}

/// Runs one evaluate-and-coerce cycle for each `(initial slot value, outcome,
/// coercion succeeded)` triple, stopping at the first failure.
pub open spec fn run_cycles(m: SessionModel, outs: Seq<(u64, EvalOutcome, bool)>) -> SessionModel
    decreases outs.len(),
{
    if outs.len() == 0 || m.phase != Phase::RealmExited {
        m
    } else {
        let e = after_evaluated(after_begin(m, outs[0].0), outs[0].1);
        let c = if e.phase == Phase::Evaluated {
            after_coerced(e, outs[0].2)
        } else {
            e
        };
        run_cycles(c, outs.drop_first())
    }
}

/// One evaluate-and-coerce cycle gives back the realms that were entered before
/// it, so the previously active realm (or none) is active again, and the roots
/// that were live before it, whether evaluation and coercion succeed or fail.
pub proof fn lemma_cycle_restores_realm(m: SessionModel, slot: u64, o: EvalOutcome, ok: bool)
    requires
        m.global is Some,
    ensures
        ({
            let e = after_evaluated(after_begin(m, slot), o);
            let c = if e.phase == Phase::Evaluated {
                after_coerced(e, ok)
            } else {
                e
            };
            &&& c.realms == m.realms
            &&& c.roots == m.roots
            &&& crate::realm::active_of(c.realms) == crate::realm::active_of(m.realms)
            &&& (c.phase == Phase::RealmExited || c.phase == Phase::Failed)
        }),
{
    let g = m.global.unwrap();
    assert(m.realms.push(g).drop_last() =~= m.realms);
    assert(m.roots.push(g).push(slot).drop_last() =~= m.roots.push(g));
    assert(m.roots.push(g).drop_last() =~= m.roots);
    if let EvalOutcome::Value(v) = o {
        assert(m.roots.push(g).push(slot).drop_last().push(v).drop_last() =~= m.roots.push(g));
    }
}

/// Any number of evaluate-and-coerce cycles against the same realm, whatever
/// each of them gives, leave no root live and no realm entered.
pub proof fn lemma_cycles_leave_no_roots(m: SessionModel, outs: Seq<(u64, EvalOutcome, bool)>)
    requires
        m.roots.len() == 0,
        m.realms.len() == 0,
        m.phase == Phase::RealmExited ==> m.global is Some,
    ensures
        run_cycles(m, outs).roots.len() == 0,
        run_cycles(m, outs).realms.len() == 0,
    decreases outs.len(),
{
    if outs.len() > 0 && m.phase == Phase::RealmExited {
        let e = after_evaluated(after_begin(m, outs[0].0), outs[0].1);
        let c = if e.phase == Phase::Evaluated {
            after_coerced(e, outs[0].2)
        } else {
            e
        };
        lemma_cycle_restores_realm(m, outs[0].0, outs[0].1, outs[0].2);
        lemma_cycles_leave_no_roots(c, outs.drop_first());
    }
}

/// The phases in which the session's engine must be live: every one but
/// `Uninitialized`, `Failed` and `Closed`.
pub open spec fn phase_needs_ready_engine(p: Phase) -> bool {
    p != Phase::Uninitialized && p != Phase::Failed && p != Phase::Closed
}

/// One host session: the engine record, its context, the roots and the entered realms.
pub struct Session {
    engine: Engine,
    context: Option<ContextToken>,
    roots: RootStack,
    realms: RealmStack,
    phase: Phase,
    global: Option<u64>,
    guard: Option<RealmGuard>,
    global_root: Option<RootHandle>,
    value_root: Option<RootHandle>,
}

impl Session {
    /// The session as the laws speak of it.
    pub closed spec fn model(&self) -> SessionModel {
        SessionModel {
            phase: self.phase,
            roots: self.roots@,
            realms: self.realms@,
            global: self.global,
        }
    }

    /// The lifecycle state of the session's engine.
    pub closed spec fn engine_state(&self) -> EngineState {
        self.engine.state()
    }

    /// The session's internal consistency: the engine and context match the
    /// phase, and exactly the global (and, once evaluated, the result) is rooted
    /// while the global's realm is entered.
    pub closed spec fn wf(&self) -> bool {
        let g = self.global.unwrap();
        &&& self.engine.live_contexts() == (if self.context is Some {
            1nat
        } else {
            0nat
        })
        &&& (self.phase == Phase::Uninitialized ==> self.engine.state()
            == EngineState::Uninitialized)
        &&& (self.phase == Phase::Uninitialized || self.phase == Phase::EngineReady)
            ==> self.context is None
        &&& phase_needs_ready_engine(self.phase) ==> self.engine.state() == EngineState::Ready
        &&& (self.phase == Phase::ContextReady || self.phase == Phase::RealmEntered
            || self.phase == Phase::Evaluated || self.phase == Phase::RealmExited)
            ==> self.context is Some
        &&& (self.phase == Phase::RealmEntered || self.phase == Phase::Evaluated
            || self.phase == Phase::RealmExited) ==> self.global is Some
        &&& if self.phase == Phase::RealmEntered || self.phase == Phase::Evaluated {
            &&& self.roots@.len() == 2
            &&& self.roots@[0] == g
            &&& self.realms@ == seq![g]
            &&& self.global_root == Some(RootHandle { index: 0 })
            &&& self.guard == Some(RealmGuard { realm: g, depth: 0 })
            &&& self.value_root == Some(RootHandle { index: 1 })
        } else {
            &&& self.roots@.len() == 0
            &&& self.realms@.len() == 0
        }
    }

    /// A session whose engine has not been initialized.
    pub fn new() -> (r: Self)
        ensures
            r.wf(),
            r.model().phase == Phase::Uninitialized,
            r.model().roots.len() == 0,
            r.model().realms.len() == 0,
            r.model().global is None,
    {
        Session {
            engine: Engine::new(),
            context: None,
            roots: RootStack::new(),
            realms: RealmStack::new(),
            phase: Phase::Uninitialized,
            global: None,
            guard: None,
            global_root: None,
            value_root: None,
        }
    }

    /// The stage reached.
    pub fn phase(&self) -> (r: Phase)
        ensures
            r == self.model().phase,
    {
        self.phase
    }

    /// The lifecycle state of the session's engine.
    pub fn engine_lifecycle(&self) -> (r: EngineState)
        ensures
            r == self.engine_state(),
    {
        self.engine.current_state()
    }

    /// The number of live roots.
    pub fn live_roots(&self) -> (r: usize)
        ensures
            r == self.model().roots.len(),
    {
        self.roots.live_count()
    }

    /// The active realm, if one is entered.
    pub fn active_realm(&self) -> (r: Option<u64>)
        ensures
            r == crate::realm::active_of(self.model().realms),
    {
        self.realms.active()
    }

    /// Every well-formed session whose phase needs a live engine has one.
    pub proof fn lemma_engine_ready(&self)
        requires
            self.wf(),
        ensures
            phase_needs_ready_engine(self.model().phase) ==> self.engine_state()
                == EngineState::Ready,
            self.model().phase == Phase::Uninitialized ==> self.engine_state()
                == EngineState::Uninitialized,
    {
    }

    /// Records what the engine's initialization gave: success, or the engine's
    /// own reason for refusing. On success the session's engine becomes live.
    pub fn engine_initialized(&mut self, outcome: Result<(), EngineInitError>) -> (r: Action)
        requires
            old(self).wf(),
            old(self).model().phase == Phase::Uninitialized,
        ensures
            final(self).wf(),
            final(self).model().roots == old(self).model().roots,
            final(self).model().realms == old(self).model().realms,
            final(self).model().global == old(self).model().global,
            final(self).engine_state() == (match outcome {
                Ok(()) => init_next(old(self).engine_state(), true),
                Err(EngineInitError::InitFailed) => init_next(old(self).engine_state(), false),
                Err(_) => old(self).engine_state(),
            }),
            outcome is Ok ==> final(self).model().phase == Phase::EngineReady && r
                == Action::CreateContext && final(self).engine_state() == EngineState::Ready,
            outcome matches Err(e) ==> final(self).model().phase == Phase::Failed && r
                == Action::Fail(HostError::EngineInit(e)),
    {
        match outcome {
            Ok(()) => {
                let _ = self.engine.initialize(true);
                self.phase = Phase::EngineReady;
                Action::CreateContext
            },
            Err(e) => {
                if let EngineInitError::InitFailed = e {
                    let _ = self.engine.initialize(false);
                }
                self.phase = Phase::Failed;
                Action::Fail(HostError::EngineInit(e))
            },
        }
    }

    /// Records the creation of the execution context; `valid` says whether the
    /// handle the engine gave back is usable.
    pub fn context_created(&mut self, valid: bool) -> (r: Action)
        requires
            old(self).wf(),
            old(self).model().phase == Phase::EngineReady,
        ensures
            final(self).wf(),
            final(self).engine_state() == old(self).engine_state(),
            final(self).model().roots == old(self).model().roots,
            final(self).model().realms == old(self).model().realms,
            final(self).model().global == old(self).model().global,
            valid ==> final(self).model().phase == Phase::ContextReady && r
                == Action::CreateGlobal,
            !valid ==> final(self).model().phase == Phase::Failed && r == Action::Fail(
                HostError::ContextCreation,
            ),
    {
        match self.engine.create_context(valid) {
            Ok(token) => {
                self.context = Some(token);
                self.phase = Phase::ContextReady;
                Action::CreateGlobal
            },
            Err(e) => {
                self.phase = Phase::Failed;
                Action::Fail(e)
            },
        }
    }

    /// Records the creation of the global object: the bits of the new object, or
    /// `None` where the engine returned a null handle. The global is rooted at
    /// once, then the result slot, holding `slot` until evaluation fills it, and
    /// the global's realm is entered.
    pub fn global_created(&mut self, global: Option<u64>, slot: u64) -> (r: Action)
        requires
            old(self).wf(),
            old(self).model().phase == Phase::ContextReady,
        ensures
            final(self).wf(),
            final(self).engine_state() == old(self).engine_state(),
            global is None ==> {
                &&& final(self).model() == old(self).model().with_phase(Phase::Failed)
                &&& r == Action::Fail(HostError::GlobalCreation)
            },
            global is Some ==> {
                &&& final(self).model() == after_begin(
                    old(self).model().with_global(global),
                    slot,
                )
                &&& r == Action::Evaluate
            },
    {
        match global {
            None => {
                self.phase = Phase::Failed;
                Action::Fail(HostError::GlobalCreation)
            },
            Some(g) => {
                self.global = Some(g);
                self.enter_global(g, slot);
                Action::Evaluate
            },
        }
    }

    /// Roots the global and the result slot and enters the global's realm.
    fn enter_global(&mut self, g: u64, slot: u64)
        requires
            old(self).wf(),
            old(self).model().phase == Phase::ContextReady || old(self).model().phase
                == Phase::RealmExited,
            old(self).global == Some(g),
        ensures
            final(self).wf(),
            final(self).engine_state() == old(self).engine_state(),
            final(self).model() == after_begin(old(self).model(), slot),
    {
        let h = self.roots.root(g);
        let v = self.roots.root(slot);
        let guard = self.realms.enter(g);
        self.global_root = Some(h);
        self.value_root = Some(v);
        self.guard = Some(guard);
        self.phase = Phase::RealmEntered;
        assert(self.realms@ =~= seq![g]);
    }

    /// Starts another evaluation against the same realm after a successful one;
    /// the result slot holds `slot` until evaluation fills it.
    pub fn begin_evaluation(&mut self, slot: u64) -> (r: Action)
        requires
            old(self).wf(),
            old(self).model().phase == Phase::RealmExited,
        ensures
            final(self).wf(),
            final(self).engine_state() == old(self).engine_state(),
            final(self).model() == after_begin(old(self).model(), slot),
            r == Action::Evaluate,
    {
        let g = match self.global {
            Some(g) => g,
            None => 0,
        };
        self.enter_global(g, slot);
        Action::Evaluate
    }

    /// Releases the result slot's root, then the global's, and exits the realm.
    fn leave_realm(&mut self, next: Phase)
        requires
            old(self).wf(),
            old(self).model().phase == Phase::RealmEntered || old(self).model().phase
                == Phase::Evaluated,
            next == Phase::Failed || next == Phase::RealmExited,
        ensures
            final(self).wf(),
            final(self).engine_state() == old(self).engine_state(),
            final(self).model() == (SessionModel {
                phase: next,
                roots: old(self).model().roots.drop_last().drop_last(),
                realms: old(self).model().realms.drop_last(),
                global: old(self).model().global,
            }),
    {
        if let Some(h) = self.value_root {
            let _ = self.roots.release(h);
        }
        if let Some(h) = self.global_root {
            let _ = self.roots.release(h);
        }
        if let Some(g) = self.guard {
            let _ = self.realms.exit(g);
        }
        self.value_root = None;
        self.global_root = None;
        self.guard = None;
        self.phase = next;
    }

    /// Records what evaluation gave. A value is stored in the rooted result slot
    /// and is to be coerced; a failure releases the session's roots and exits the
    /// realm before it is reported.
    pub fn evaluated(&mut self, outcome: EvalOutcome) -> (r: Action)
        requires
            old(self).wf(),
            old(self).model().phase == Phase::RealmEntered,
        ensures
            final(self).wf(),
            final(self).engine_state() == old(self).engine_state(),
            final(self).model() == after_evaluated(old(self).model(), outcome),
            r == (match outcome_result(outcome) {
                Ok(v) => Action::Coerce(v),
                Err(e) => Action::ResumeUnwindThenFail(e),
            }),
    {
        match classify(outcome) {
            Ok(v) => {
                self.roots.set(RootHandle { index: 1 }, v);
                assert(self.roots@ =~= old(self).roots@.drop_last().push(v));
                self.phase = Phase::Evaluated;
                Action::Coerce(v)
            },
            Err(e) => {
                self.leave_realm(Phase::Failed);
                Action::ResumeUnwindThenFail(e)
            },
        }
    }

    /// Records what coercion gave: the text to show, or `None` where the value
    /// could not be converted. Both roots are released, newest first, and the
    /// realm is exited either way; the text is shown only on success.
    pub fn coerced(&mut self, text: Option<String>) -> (r: Action)
        requires
            old(self).wf(),
            old(self).model().phase == Phase::Evaluated,
        ensures
            final(self).wf(),
            final(self).engine_state() == old(self).engine_state(),
            final(self).model() == after_coerced(old(self).model(), text is Some),
            r == (match text {
                Some(t) => Action::Print(t),
                None => Action::Fail(HostError::Coercion),
            }),
    {
        match text {
            Some(t) => {
                self.leave_realm(Phase::RealmExited);
                Action::Print(t)
            },
            None => {
                self.leave_realm(Phase::Failed);
                Action::Fail(HostError::Coercion)
            },
        }
    }

    /// Ends the session: drops its context and shuts a live engine down. No root
    /// may be live and no realm entered.
    pub fn close(&mut self)
        requires
            old(self).wf(),
            old(self).model().phase != Phase::RealmEntered,
            old(self).model().phase != Phase::Evaluated,
        ensures
            final(self).wf(),
            final(self).model() == old(self).model().with_phase(Phase::Closed),
            final(self).engine_state() == (if old(self).engine_state() == EngineState::Ready {
                EngineState::ShutDown
            } else {
                old(self).engine_state()
            }),
    {
        let token = self.context.take();
        if let Some(t) = token {
            self.engine.release_context(t);
        }
        self.engine.shutdown();
        self.phase = Phase::Closed;
    }
}

} // verus!
