use vstd::prelude::*;
use vstd::string::StringExecFns;

use crate::error::{BridgeError, ErrView};
use crate::marshal::{assemble, assemble_spec, FieldView, ResultField};
use crate::sqltext::{count_placeholders, placeholder_count};
use crate::state::{ConnectionRegistry, EngineCell};
use crate::value::{ColView, RawColumn};

verus! {

/// One parameter element as the host handed it over: text, an explicit null,
/// or something else. `Other` carries the host's rendering of the value, for
/// diagnostics; the boundary converts, it never drops an element.
#[derive(Debug, PartialEq)]
pub enum HostParam {
    Text(String),
    Null,
    Other(String),
}

/// The mathematical form of a [`HostParam`].
pub enum PView {
    Text(Seq<char>),
    Null,
    Other(Seq<char>),
}

impl View for HostParam {
    type V = PView;

    open spec fn view(&self) -> PView {
        match self {
            HostParam::Text(s) => PView::Text(s@),
            HostParam::Null => PView::Null,
            HostParam::Other(d) => PView::Other(d@),
        }
    }
}

impl DeepView for HostParam {
    type V = PView;

    open spec fn deep_view(&self) -> PView {
        self.view()
    }
}

/// A validated parameter, ready to bind positionally: its literal text, or
/// SQL NULL. No numeric or date coercion happens on the way in.
#[derive(Debug, PartialEq)]
pub enum BoundParam {
    Text(String),
    Null,
}

/// The mathematical form of a [`BoundParam`].
pub enum BView {
    Text(Seq<char>),
    Null,
}

impl View for BoundParam {
    type V = BView;

    open spec fn view(&self) -> BView {
        match self {
            BoundParam::Text(s) => BView::Text(s@),
            BoundParam::Null => BView::Null,
        }
    }
}

impl DeepView for BoundParam {
    type V = BView;

    open spec fn deep_view(&self) -> BView {
        self.view()
    }
}

/// A fully validated query, ready to submit to the engine.
#[derive(Debug, PartialEq)]
pub struct QueryRequest {
    pub sql: String,
    pub params: Vec<BoundParam>,
}

/// The mathematical form of a [`QueryRequest`].
pub struct ReqView {
    pub sql: Seq<char>,
    pub params: Seq<BView>,
}

impl View for QueryRequest {
    type V = ReqView;

    open spec fn view(&self) -> ReqView {
        ReqView { sql: self.sql@, params: self.params.deep_view() }
    }
}

/// What one valid element binds as: text binds its literal string value, an
/// explicit null binds SQL NULL.
pub open spec fn bind_one(p: PView) -> BView {
    match p {
        PView::Text(s) => BView::Text(s),
        _ => BView::Null,
    }
}

/// What a whole valid parameter sequence binds as, position by position.
pub open spec fn bind_all(params: Seq<PView>) -> Seq<BView> {
    params.map(|i: int, p: PView| bind_one(p))
}

/// The position and rendering of the first element that is neither text nor
/// null, if any.
pub open spec fn first_invalid(params: Seq<PView>) -> Option<(int, Seq<char>)>
    decreases params.len(),
{
    if params.len() == 0 {
        None
    } else {
        match params.first() {
            PView::Other(d) => Some((0int, d)),
            _ => match first_invalid(params.drop_first()) {
                Some(t) => Some((t.0 + 1, t.1)),
                None => None,
            },
        }
    }
}

proof fn lemma_first_invalid_none(params: Seq<PView>)
    requires
        forall|k: int| 0 <= k < params.len() ==> !(#[trigger] params[k] is Other),
    ensures
        first_invalid(params) is None,
    decreases params.len(),
{
    if params.len() > 0 {
        assert forall|k: int| 0 <= k < params.drop_first().len() implies !(
        #[trigger] params.drop_first()[k] is Other) by {
            assert(params.drop_first()[k] == params[k + 1]);
        }
        lemma_first_invalid_none(params.drop_first());
    }
}

proof fn lemma_first_invalid_at(params: Seq<PView>, i: int, d: Seq<char>)
    requires
        0 <= i < params.len(),
        forall|k: int| 0 <= k < i ==> !(#[trigger] params[k] is Other),
        params[i] == PView::Other(d),
    ensures
        first_invalid(params) == Some((i, d)),
    decreases i,
{
    if i == 0 {
        assert(params.first() == PView::Other(d));
    } else {
        assert(!(params[0] is Other));
        assert forall|k: int| 0 <= k < i - 1 implies !(#[trigger] params.drop_first()[k]
            is Other) by {
            assert(params.drop_first()[k] == params[k + 1]);
        }
        assert(params.drop_first()[i - 1] == params[i]);
        lemma_first_invalid_at(params.drop_first(), i - 1, d);
    }
}

/// The mathematical form of an optional statement.
pub open spec fn sql_view(sql: Option<String>) -> Option<Seq<char>> {
    match sql {
        Some(s) => Some(s@),
        None => None,
    }
}

/// The mathematical form of an optional parameter list.
pub open spec fn params_view(params: Option<Vec<HostParam>>) -> Option<Seq<PView>> {
    match params {
        Some(v) => Some(v.deep_view()),
        None => None,
    }
}

/// The mathematical form of a validation report.
pub open spec fn request_result_view(r: Result<QueryRequest, BridgeError>) -> Result<
    ReqView,
    ErrView,
> {
    match r {
        Ok(q) => Ok(q@),
        Err(e) => Err(e@),
    }
}

/// What validating one execute call yields, checked in fixed order before
/// any async work: the statement must be present (`MissingStatement`), the
/// registry initialized (`NotConnected`), the engine available
/// (`EngineUnavailable`), every parameter element text or null
/// (`InvalidParameter` at the first offender, with its rendering), and the
/// elements at least as many as the statement's placeholders
/// (`InvalidParameter` at the count supplied). An absent list means zero
/// bound arguments.
pub open spec fn execute_plan(
    connected: bool,
    engine_ready: bool,
    sql: Option<Seq<char>>,
    params: Option<Seq<PView>>,
) -> Result<ReqView, ErrView> {
    match sql {
        None => Err(ErrView::MissingStatement),
        Some(s) => if !connected {
            Err(ErrView::NotConnected)
        } else if !engine_ready {
            Err(ErrView::EngineUnavailable)
        } else {
            let ps = match params {
                Some(ps) => ps,
                None => Seq::empty(),
            };
            match first_invalid(ps) {
                Some(t) => Err(ErrView::InvalidParameter(t.0, t.1)),
                None => if ps.len() < placeholder_count(s) {
                    Err(
                        ErrView::InvalidParameter(
                            ps.len() as int,
                            "fewer parameters than placeholders"@,
                        ),
                    )
                } else {
                    Ok(ReqView { sql: s, params: bind_all(ps) })
                },
            }
        },
    }
}

/// Validates one execute call, per [`execute_plan`]: all checks run
/// synchronously, before any work is submitted, and touch no connection or
/// engine state.
#[verifier::loop_isolation(false)]
pub fn prepare_execute(
    registry: &ConnectionRegistry,
    engine: &EngineCell,
    sql: Option<String>,
    params: Option<Vec<HostParam>>,
) -> (r: Result<QueryRequest, BridgeError>)
    ensures
        request_result_view(r) == execute_plan(
            registry.connected(),
            engine.ready(),
            sql_view(sql),
            params_view(params),
        ),
{
    let sql = match sql {
        Some(s) => s,
        None => {
            return Err(BridgeError::MissingStatement);
        },
    };
    if !registry.is_connected() {
        return Err(BridgeError::NotConnected);
    }
    if !engine.is_ready() {
        return Err(BridgeError::EngineUnavailable);
    }
    let ps: Vec<HostParam> = match params {
        Some(v) => v,
        None => Vec::new(),
    };
    let ghost psv = ps.deep_view();
    proof {
        assert(psv =~= match params_view(params) {
            Some(s) => s,
            None => Seq::<PView>::empty(),
        });
    }
    let mut bound: Vec<BoundParam> = Vec::new();
    let mut i: usize = 0;
    while i < ps.len()
        invariant
            i <= ps.len(),
            psv == ps.deep_view(),
            psv.len() == ps.len(),
            bound.deep_view().len() == i,
            forall|k: int| 0 <= k < i ==> !(#[trigger] psv[k] is Other),
            forall|k: int| 0 <= k < i ==> #[trigger] bound.deep_view()[k] == bind_one(psv[k]),
        decreases ps.len() - i,
    {
        let ghost prev = bound.deep_view();
        match &ps[i] {
            HostParam::Text(s) => bound.push(BoundParam::Text(s.clone())),
            HostParam::Null => bound.push(BoundParam::Null),
            HostParam::Other(d) => {
                proof {
                    lemma_first_invalid_at(psv, i as int, d@);
                }
                return Err(BridgeError::InvalidParameter(i, d.clone()));
            },
        }
        i = i + 1;
        proof {
            assert forall|k: int| 0 <= k < i implies #[trigger] bound.deep_view()[k] == bind_one(
                psv[k],
            ) by {
                if k < i - 1 {
                    assert(bound.deep_view()[k] == prev[k]);
                }
            }
        }
    }
    proof {
        lemma_first_invalid_none(psv);
    }
    let n = count_placeholders(&sql);
    if bound.len() < n {
        return Err(
            BridgeError::InvalidParameter(
                bound.len(),
                String::from_str("fewer parameters than placeholders"),
            ),
        );
    }
    proof {
        assert(bound.deep_view() =~= bind_all(psv));
    }
    Ok(QueryRequest { sql, params: bound })
}

/// The mathematical form of a finished database operation: the raw row set,
/// or the database's error text.
pub open spec fn rows_outcome_view(outcome: Result<Vec<Vec<RawColumn>>, String>) -> Result<
    Seq<Seq<ColView>>,
    Seq<char>,
> {
    match outcome {
        Ok(rows) => Ok(rows.deep_view()),
        Err(d) => Err(d@),
    }
}

/// What delivering a finished operation yields: success assembles the raw
/// row set; failure wraps the database's error text in `QueryFailed`,
/// verbatim.
pub open spec fn execute_result(outcome: Result<Seq<Seq<ColView>>, Seq<char>>) -> Result<
    Seq<Seq<FieldView>>,
    ErrView,
> {
    match outcome {
        Ok(rows) => Ok(assemble_spec(rows)),
        Err(d) => Err(ErrView::QueryFailed(d)),
    }
}

/// The mathematical form of a delivery report.
pub open spec fn rowset_result_view(r: Result<Vec<Vec<ResultField>>, BridgeError>) -> Result<
    Seq<Seq<FieldView>>,
    ErrView,
> {
    match r {
        Ok(v) => Ok(v.deep_view()),
        Err(e) => Err(e@),
    }
}

/// Delivers a finished database operation back to the host, per
/// [`execute_result`]. The bridge holds no query-level state across calls:
/// what one call delivers is a function of that call's own outcome alone, so
/// two overlapping executions cannot mix rows.
pub fn complete_execute(outcome: Result<Vec<Vec<RawColumn>>, String>) -> (r: Result<
    Vec<Vec<ResultField>>,
    BridgeError,
>)
    ensures
        rowset_result_view(r) == execute_result(rows_outcome_view(outcome)),
{
    match outcome {
        Ok(rows) => Ok(assemble(&rows)),
        Err(detail) => Err(BridgeError::QueryFailed(detail)),
    }
}

/// Before any successful connect, execute always fails with `NotConnected`,
/// whatever the statement says and whatever parameters come with it.
pub proof fn lemma_execute_requires_connection(
    engine_ready: bool,
    sql: Seq<char>,
    params: Option<Seq<PView>>,
)
    ensures
        execute_plan(false, engine_ready, Some(sql), params) == Err::<ReqView, ErrView>(
            ErrView::NotConnected,
        ),
{
}

/// A parameter element that is neither text nor null is rejected as
/// `InvalidParameter`, carrying the position and rendering of the first such
/// element, before any database round trip.
pub proof fn lemma_invalid_element_rejected(
    sql: Seq<char>,
    params: Seq<PView>,
    i: int,
    d: Seq<char>,
)
    requires
        0 <= i < params.len(),
        forall|k: int| 0 <= k < i ==> !(#[trigger] params[k] is Other),
        params[i] == PView::Other(d),
    ensures
        execute_plan(true, true, Some(sql), Some(params)) == Err::<ReqView, ErrView>(
            ErrView::InvalidParameter(i, d),
        ),
{
    lemma_first_invalid_at(params, i, d);
}

/// With a statement present, a live connection, a ready engine, every
/// element text or null, and at least as many elements as the statement has
/// placeholders, validation is owed success, and binds the elements
/// positionally: text binds its literal value, null binds SQL NULL.
pub proof fn lemma_valid_request_accepted(sql: Seq<char>, params: Seq<PView>)
    requires
        forall|k: int| 0 <= k < params.len() ==> !(#[trigger] params[k] is Other),
        params.len() >= placeholder_count(sql),
    ensures
        execute_plan(true, true, Some(sql), Some(params)) == Ok::<ReqView, ErrView>(
            (ReqView { sql, params: bind_all(params) }),
        ),
{
    lemma_first_invalid_none(params);
}

/// Binding fewer parameters than the statement has placeholders is rejected
/// as `InvalidParameter` before any database round trip.
pub proof fn lemma_missing_parameters_rejected(sql: Seq<char>, params: Seq<PView>)
    requires
        forall|k: int| 0 <= k < params.len() ==> !(#[trigger] params[k] is Other),
        params.len() < placeholder_count(sql),
    ensures
        execute_plan(true, true, Some(sql), Some(params)) == Err::<ReqView, ErrView>(
            ErrView::InvalidParameter(
                params.len() as int,
                "fewer parameters than placeholders"@,
            ),
        ),
{
    lemma_first_invalid_none(params);
}

} // verus!
