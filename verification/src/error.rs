use vstd::prelude::*;

verus! {

/// The mathematical form of a bridge error: string payloads are character
/// sequences and the parameter index is an unbounded integer.
pub enum ErrView {
    AlreadyInitialized,
    ConnectFailed(Seq<char>),
    EngineInitFailed(Seq<char>),
    CredentialMismatch,
    MissingStatement,
    InvalidParameter(int, Seq<char>),
    NotConnected,
    EngineUnavailable,
    QueryFailed(Seq<char>),
}

/// Every failure the bridge can report to the host.
///
/// Initialization errors: `AlreadyInitialized`, `ConnectFailed`,
/// `EngineInitFailed`, `CredentialMismatch`. Input errors: `MissingStatement`,
/// `InvalidParameter(index, detail)`. State errors: `NotConnected`,
/// `EngineUnavailable`. Execution errors: `QueryFailed`, carrying the
/// underlying database error text verbatim.
#[derive(Debug, PartialEq)]
pub enum BridgeError {
    AlreadyInitialized,
    ConnectFailed(String),
    EngineInitFailed(String),
    CredentialMismatch,
    MissingStatement,
    InvalidParameter(usize, String),
    NotConnected,
    EngineUnavailable,
    QueryFailed(String),
}

impl View for BridgeError {
    type V = ErrView;

    open spec fn view(&self) -> ErrView {
        match self {
            BridgeError::AlreadyInitialized => ErrView::AlreadyInitialized,
            BridgeError::ConnectFailed(d) => ErrView::ConnectFailed(d@),
            BridgeError::EngineInitFailed(d) => ErrView::EngineInitFailed(d@),
            BridgeError::CredentialMismatch => ErrView::CredentialMismatch,
            BridgeError::MissingStatement => ErrView::MissingStatement,
            BridgeError::InvalidParameter(i, d) => ErrView::InvalidParameter(*i as int, d@),
            BridgeError::NotConnected => ErrView::NotConnected,
            BridgeError::EngineUnavailable => ErrView::EngineUnavailable,
            BridgeError::QueryFailed(d) => ErrView::QueryFailed(d@),
        }
    }
}

impl DeepView for BridgeError {
    type V = ErrView;

    open spec fn deep_view(&self) -> ErrView {
        self.view()
    }
}

} // verus!
