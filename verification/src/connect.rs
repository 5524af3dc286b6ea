use vstd::prelude::*;
use vstd::string::StringExecFns;

use crate::error::{BridgeError, ErrView};
use crate::state::ConnectionRegistry;

verus! {

/// A connect call as the host handed it over: the connection target (the
/// in-memory marker or a file path) with an optional username/password pair.
#[derive(Debug, PartialEq)]
pub struct ConnectRequest {
    pub target: String,
    pub username: Option<String>,
    pub password: Option<String>,
}

/// The mathematical form of a [`ConnectRequest`].
pub struct CReqView {
    pub target: Seq<char>,
    pub username: Option<Seq<char>>,
    pub password: Option<Seq<char>>,
}

impl View for ConnectRequest {
    type V = CReqView;

    open spec fn view(&self) -> CReqView {
        CReqView {
            target: self.target@,
            username: match self.username {
                Some(u) => Some(u@),
                None => None,
            },
            password: match self.password {
                Some(p) => Some(p@),
                None => None,
            },
        }
    }
}

/// A username/password pair; both were supplied, or neither.
#[derive(Debug, PartialEq)]
pub struct Credentials {
    pub username: String,
    pub password: String,
}

/// The mathematical form of a [`Credentials`].
pub struct CredView {
    pub username: Seq<char>,
    pub password: Seq<char>,
}

impl View for Credentials {
    type V = CredView;

    open spec fn view(&self) -> CredView {
        CredView { username: self.username@, password: self.password@ }
    }
}

/// A validated connect plan: the URL the database collaborator is asked to
/// open, and the credential pair if one was supplied.
#[derive(Debug, PartialEq)]
pub struct ConnectPlan {
    pub url: String,
    pub credentials: Option<Credentials>,
}

/// The mathematical form of a [`ConnectPlan`].
pub struct PlanView {
    pub url: Seq<char>,
    pub credentials: Option<CredView>,
}

impl View for ConnectPlan {
    type V = PlanView;

    open spec fn view(&self) -> PlanView {
        PlanView {
            url: self.url@,
            credentials: match &self.credentials {
                Some(c) => Some(c@),
                None => None,
            },
        }
    }
}

/// The URL the database collaborator is asked to open: the bare in-memory
/// marker becomes the in-memory database URL; any other target is a file
/// path and passes through unchanged.
pub open spec fn render_target(target: Seq<char>) -> Seq<char> {
    if target == "memory"@ {
        "sqlite::memory:"@
    } else {
        target
    }
}

/// What validating one connect call yields, before the actual connect is
/// attempted: a registry already initialized fails with `AlreadyInitialized`;
/// exactly one of username and password supplied fails with
/// `CredentialMismatch`; otherwise the plan carries the rendered URL and the
/// pair, if both were given.
pub open spec fn connect_plan(connected: bool, req: CReqView) -> Result<PlanView, ErrView> {
    if connected {
        Err(ErrView::AlreadyInitialized)
    } else if (req.username is Some) != (req.password is Some) {
        Err(ErrView::CredentialMismatch)
    } else {
        Ok(
            PlanView {
                url: render_target(req.target),
                credentials: match (req.username, req.password) {
                    (Some(u), Some(p)) => Some(CredView { username: u, password: p }),
                    _ => None,
                },
            },
        )
    }
}

/// The mathematical form of a connect-validation report.
pub open spec fn plan_result_view(r: Result<ConnectPlan, BridgeError>) -> Result<
    PlanView,
    ErrView,
> {
    match r {
        Ok(p) => Ok(p@),
        Err(e) => Err(e@),
    }
}

/// Validates one connect call, per [`connect_plan`]: all checks run before
/// any connect is attempted, and the registry is read, never written.
pub fn prepare_connect(registry: &ConnectionRegistry, request: ConnectRequest) -> (r: Result<
    ConnectPlan,
    BridgeError,
>)
    ensures
        plan_result_view(r) == connect_plan(registry.connected(), request@),
{
    if registry.is_connected() {
        return Err(BridgeError::AlreadyInitialized);
    }
    let ConnectRequest { target, username, password } = request;
    let credentials = match (username, password) {
        (Some(u), Some(p)) => Some(Credentials { username: u, password: p }),
        (None, None) => None,
        _ => {
            return Err(BridgeError::CredentialMismatch);
        },
    };
    let url = if target == String::from_str("memory") {
        String::from_str("sqlite::memory:")
    } else {
        target
    };
    Ok(ConnectPlan { url, credentials })
}

/// With the registry already initialized, every further connect call is
/// rejected with `AlreadyInitialized` at validation, whatever the request
/// says, before any connect is attempted.
pub proof fn lemma_connect_twice_rejected(req: CReqView)
    ensures
        connect_plan(true, req) == Err::<PlanView, ErrView>(ErrView::AlreadyInitialized),
{
}

/// With the registry uninitialized and the credentials paired (both given or
/// neither), validation is owed success: the plan carries the rendered
/// target and the pair as supplied.
pub proof fn lemma_valid_connect_accepted(req: CReqView)
    requires
        (req.username is Some) == (req.password is Some),
    ensures
        connect_plan(false, req) == Ok::<PlanView, ErrView>(
            (PlanView {
                url: render_target(req.target),
                credentials: match (req.username, req.password) {
                    (Some(u), Some(p)) => Some(CredView { username: u, password: p }),
                    _ => None,
                },
            }),
        ),
{
}

/// Exactly one of username and password supplied is rejected as a credential
/// mismatch, whichever of the two it is.
pub proof fn lemma_lone_credential_rejected(req: CReqView)
    requires
        (req.username is Some) != (req.password is Some),
    ensures
        connect_plan(false, req) == Err::<PlanView, ErrView>(ErrView::CredentialMismatch),
{
}

} // verus!
