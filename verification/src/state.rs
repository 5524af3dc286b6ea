use vstd::prelude::*;

use crate::error::{BridgeError, ErrView};

verus! {

/// Declares tokio's runtime so that the engine cell can own one; the runtime
/// stays opaque, and work is spawned onto it outside the library.
#[verifier::external_type_specification]
#[verifier::external_body]
pub struct ExRuntime(tokio::runtime::Runtime);

/// An opaque identifier for the single live connection pool. The boundary
/// layer exchanges handles, never the pool itself: whoever performs the
/// actual connect keeps the pool under this handle and hands the handle to
/// the registry.
pub type ConnectionHandle = u64;

/// How one initialization attempt moves the registry: from `Initialized` a
/// further attempt fails with `AlreadyInitialized` and keeps the held
/// connection whatever the new attempt's outcome; from `Uninitialized` a
/// successful connect stores the handle and reports success, and a failed
/// one reports `ConnectFailed` with the database's error text and leaves the
/// registry uninitialized, eligible for a later attempt.
pub open spec fn init_transition(
    state: Option<ConnectionHandle>,
    outcome: Result<ConnectionHandle, Seq<char>>,
) -> (Option<ConnectionHandle>, Result<bool, ErrView>) {
    if state is Some {
        (state, Err(ErrView::AlreadyInitialized))
    } else {
        match outcome {
            Ok(handle) => (Some(handle), Ok(true)),
            Err(detail) => (None, Err(ErrView::ConnectFailed(detail))),
        }
    }
}

/// The mathematical form of a connect attempt's outcome.
pub open spec fn connect_outcome_view(outcome: Result<ConnectionHandle, String>) -> Result<
    ConnectionHandle,
    Seq<char>,
> {
    match outcome {
        Ok(handle) => Ok(handle),
        Err(detail) => Err(detail@),
    }
}

/// The mathematical form of an initialization report.
pub open spec fn init_result_view(r: Result<bool, BridgeError>) -> Result<bool, ErrView> {
    match r {
        Ok(b) => Ok(b),
        Err(e) => Err(e@),
    }
}

/// The process-wide holder of the handle to the single live connection pool.
/// It moves from `Uninitialized` to `Initialized` exactly once; every query
/// borrows the handle from here and never owns it.
pub struct ConnectionRegistry {
    handle: Option<ConnectionHandle>,
}

impl ConnectionRegistry {
    /// The handle the registry holds, if it is initialized.
    pub closed spec fn stored(&self) -> Option<ConnectionHandle> {
        self.handle
    }

    /// Whether the registry has reached the `Initialized` state.
    pub open spec fn connected(&self) -> bool {
        self.stored() is Some
    }

    /// A fresh registry, in the `Uninitialized` state.
    pub fn new() -> (r: ConnectionRegistry)
        ensures
            !r.connected(),
    {
        ConnectionRegistry { handle: None }
    }

    /// Whether a connection is live; a pure read.
    pub fn is_connected(&self) -> (b: bool)
        ensures
            b == self.connected(),
    {
        self.handle.is_some()
    }

    /// Records the outcome of a connect attempt, per [`init_transition`]:
    /// the second caller to observe "already set" fails cleanly rather than
    /// overwriting the first connection, and a failed attempt mutates
    /// nothing.
    pub fn complete_initialize(&mut self, outcome: Result<ConnectionHandle, String>) -> (r: Result<
        bool,
        BridgeError,
    >)
        ensures
            ({
                let t = init_transition(old(self).stored(), connect_outcome_view(outcome));
                final(self).stored() == t.0 && init_result_view(r) == t.1
            }),
    {
        if self.handle.is_some() {
            return Err(BridgeError::AlreadyInitialized);
        }
        match outcome {
            Ok(handle) => {
                self.handle = Some(handle);
                Ok(true)
            },
            Err(detail) => Err(BridgeError::ConnectFailed(detail)),
        }
    }

    /// Reads the live handle; a pure read that fails with `NotConnected`
    /// while the registry is uninitialized.
    pub fn current(&self) -> (r: Result<ConnectionHandle, BridgeError>)
        ensures
            self.connected() <==> r is Ok,
            match r {
                Ok(handle) => self.stored() == Some(handle),
                Err(e) => e@ == ErrView::NotConnected,
            },
    {
        match self.handle {
            Some(handle) => Ok(handle),
            None => Err(BridgeError::NotConnected),
        }
    }
}

/// Connect is init-once: with the registry already initialized, a further
/// attempt fails with `AlreadyInitialized`, and the held connection is kept
/// usable, whatever the new attempt's outcome was.
pub proof fn lemma_initialize_once(
    state: Option<ConnectionHandle>,
    outcome: Result<ConnectionHandle, Seq<char>>,
)
    requires
        state is Some,
    ensures
        init_transition(state, outcome).0 == state,
        init_transition(state, outcome).1 == Err::<bool, ErrView>(ErrView::AlreadyInitialized),
{
}

/// A failed connect surfaces the database's error text and leaves the
/// registry uninitialized, so a later attempt may retry.
pub proof fn lemma_connect_failure_allows_retry(
    state: Option<ConnectionHandle>,
    detail: Seq<char>,
)
    requires
        state is None,
    ensures
        init_transition(state, Err(detail)).0 is None,
        init_transition(state, Err(detail)).1 == Err::<bool, ErrView>(
            ErrView::ConnectFailed(detail),
        ),
{
}

/// Relies on tokio::runtime::Runtime::new: builds a fresh multi-thread
/// runtime, or reports the I/O error that stopped it, rendered as text.
/// Nothing more is promised: whether construction succeeds depends on the
/// machine.
#[verifier::external_body]
fn new_runtime() -> (r: Result<tokio::runtime::Runtime, String>) {
    tokio::runtime::Runtime::new().map_err(|e| e.to_string())
}

/// The process-wide holder of the background execution engine: lazily
/// constructed on first need, memoized for the process lifetime, never
/// recreated. A construction failure is surfaced to that call alone and a
/// later call may retry.
pub struct EngineCell {
    runtime: Option<tokio::runtime::Runtime>,
}

impl EngineCell {
    /// The engine the cell holds, once constructed.
    pub closed spec fn engine(&self) -> Option<tokio::runtime::Runtime> {
        self.runtime
    }

    /// Whether the engine has been constructed.
    pub open spec fn ready(&self) -> bool {
        self.engine() is Some
    }

    /// A fresh cell, holding no engine yet.
    pub fn new() -> (r: EngineCell)
        ensures
            !r.ready(),
    {
        EngineCell { runtime: None }
    }

    /// Whether the engine is available; a pure read.
    pub fn is_ready(&self) -> (b: bool)
        ensures
            b == self.ready(),
    {
        self.runtime.is_some()
    }

    /// Makes the engine available: an engine already held is reused
    /// untouched; otherwise one construction is attempted, and its failure
    /// is reported as `EngineInitFailed` and leaves the cell empty, so a
    /// later call may retry.
    pub fn ensure(&mut self) -> (r: Result<(), BridgeError>)
        ensures
            r is Ok <==> final(self).ready(),
            old(self).ready() ==> *final(self) == *old(self) && r is Ok,
            !old(self).ready() && r is Err ==> *final(self) == *old(self),
            r matches Err(e) ==> e@ matches ErrView::EngineInitFailed(_),
    {
        if self.runtime.is_some() {
            return Ok(());
        }
        match new_runtime() {
            Ok(rt) => {
                self.runtime = Some(rt);
                Ok(())
            },
            Err(detail) => Err(BridgeError::EngineInitFailed(detail)),
        }
    }

    /// Borrows the engine; a pure read that fails with `EngineUnavailable`
    /// while no engine is held.
    pub fn current(&self) -> (r: Result<&tokio::runtime::Runtime, BridgeError>)
        ensures
            self.ready() <==> r is Ok,
            match r {
                Ok(rt) => self.engine() == Some(*rt),
                Err(e) => e@ == ErrView::EngineUnavailable,
            },
    {
        match &self.runtime {
            Some(rt) => Ok(rt),
            None => Err(BridgeError::EngineUnavailable),
        }
    }
}

} // verus!
