use vstd::prelude::*;

use crate::block::{materialize, result_rows, rows_view, DataBlock, Row};

verus! {

/// The logical name under which the table file is bound for a request.
pub const TABLE_NAME: &'static str = "main";

/// The pipeline stage that failed.
#[derive(Clone, Copy, Debug, PartialEq, Eq, Structural)]
pub enum ErrorKind {
    SourceRegistration,
    QueryPlan,
    QueryExecution,
}

/// A classified failure, with the engine's message kept verbatim.
#[derive(Clone, Debug)]
pub struct ExecutionError {
    pub kind: ErrorKind,
    pub detail: String,
}

/// The label that classifies an error in its envelope message.
pub open spec fn kind_label(kind: ErrorKind) -> Seq<char> {
    match kind {
        ErrorKind::SourceRegistration => "Failed registration"@,
        ErrorKind::QueryPlan => "Invalid SQL"@,
        ErrorKind::QueryExecution => "Execution error"@,
    }
}

/// Relies on std's `format!`: writing two strings one after the other.
#[verifier::external_body]
fn concat(a: &str, b: &str) -> (r: String)
    ensures
        r@ == a@ + b@,
{
    format!("{}{}", a, b)
}

impl ExecutionError {
    /// The label of this error's kind.
    pub fn label(&self) -> (r: &'static str)
        ensures
            r@ == kind_label(self.kind),
    {
        match self.kind {
            ErrorKind::SourceRegistration => "Failed registration",
            ErrorKind::QueryPlan => "Invalid SQL",
            ErrorKind::QueryExecution => "Execution error",
        }
    }

    /// The message of the error envelope: the kind's label, a colon and a
    /// space, then the engine's message.
    pub fn message(&self) -> (r: String)
        ensures
            r@ == kind_label(self.kind) + ": "@ + self.detail@,
    {
        let head = concat(self.label(), ": ");
        concat(head.as_str(), self.detail.as_str())
    }
}

/// Where one request stands. `Failed` and `Done` are final.
#[derive(Clone, Copy, Debug, PartialEq, Eq, Structural)]
pub enum Stage {
    Idle,
    Registering,
    Planning,
    Executing,
    Done,
    Failed,
}

/// What the engine reported back for the last request made of it.
#[derive(Clone, Debug)]
pub enum Event {
    Start,
    Registered,
    RegistrationFailed(String),
    Planned,
    PlanFailed(String),
    Collected(Vec<DataBlock>),
    ExecutionFailed(String),
}

/// Work to ask of the engine.
#[derive(Clone, Copy, Debug, PartialEq, Eq, Structural)]
pub enum Request {
    /// Bind the table file under the fixed table name.
    Register,
    /// Parse and plan the SQL text against the bound table.
    Plan,
    /// Run the plan and collect every block it produces.
    Execute,
}

/// The final result of a request.
#[derive(Clone, Debug)]
pub enum Outcome {
    Rows(Vec<Row>),
    Failure(ExecutionError),
}

/// What the caller does after a step.
#[derive(Clone, Debug)]
pub enum Action {
    Perform(Request),
    Respond(Outcome),
    /// The event does not belong to the current stage: nothing to do.
    Wait,
}

/// The stage after an event.
pub open spec fn next_stage(s: Stage, e: Event) -> Stage {
    match (s, e) {
        (Stage::Idle, Event::Start) => Stage::Registering,
        (Stage::Registering, Event::Registered) => Stage::Planning,
        (Stage::Registering, Event::RegistrationFailed(_)) => Stage::Failed,
        (Stage::Planning, Event::Planned) => Stage::Executing,
        (Stage::Planning, Event::PlanFailed(_)) => Stage::Failed,
        (Stage::Executing, Event::Collected(_)) => Stage::Done,
        (Stage::Executing, Event::ExecutionFailed(_)) => Stage::Failed,
        _ => s,
    }
}

/// The engine work that an event leads to, if any.
pub open spec fn request_for(s: Stage, e: Event) -> Option<Request> {
    match (s, e) {
        (Stage::Idle, Event::Start) => Some(Request::Register),
        (Stage::Registering, Event::Registered) => Some(Request::Plan),
        (Stage::Planning, Event::Planned) => Some(Request::Execute),
        _ => None,
    }
}

/// The classified failure that an event ends the request with, if any.
pub open spec fn failure_for(s: Stage, e: Event) -> Option<(ErrorKind, String)> {
    match (s, e) {
        (Stage::Registering, Event::RegistrationFailed(m)) => Some(
            (ErrorKind::SourceRegistration, m),
        ),
        (Stage::Planning, Event::PlanFailed(m)) => Some((ErrorKind::QueryPlan, m)),
        (Stage::Executing, Event::ExecutionFailed(m)) => Some((ErrorKind::QueryExecution, m)),
        _ => None,
    }
}

/// Whether an event ends the request with rows.
pub open spec fn yields_rows(s: Stage, e: Event) -> bool {
    s == Stage::Executing && e is Collected
}

/// Every block that an event carries is well formed.
pub open spec fn event_wf(e: Event) -> bool {
    match e {
        Event::Collected(bs) => forall|i: int| 0 <= i < bs@.len() ==> #[trigger] bs@[i].wf(),
        _ => true,
    }
}

/// Decides the next stage and action of a request from an engine event.
pub fn step(s: Stage, e: Event) -> (r: (Stage, Action))
    requires
        event_wf(e),
    ensures
        r.0 == next_stage(s, e),
        request_for(s, e) is Some <==> r.1 is Perform,
        request_for(s, e) matches Some(q) ==> r.1 == Action::Perform(q),
        failure_for(s, e) is Some <==> (r.1 matches Action::Respond(Outcome::Failure(_))),
        failure_for(s, e) matches Some((k, m)) ==> (r.1 matches Action::Respond(
            Outcome::Failure(err),
        ) && err.kind == k && err.detail == m),
        yields_rows(s, e) <==> (r.1 matches Action::Respond(Outcome::Rows(_))),
        e matches Event::Collected(bs) ==> (yields_rows(s, e) ==> (r.1 matches Action::Respond(
            Outcome::Rows(rows),
        ) && rows_view(rows@) == result_rows(bs@))),
{
    match (s, e) {
        (Stage::Idle, Event::Start) => (Stage::Registering, Action::Perform(Request::Register)),
        (Stage::Registering, Event::Registered) => (
            Stage::Planning,
            Action::Perform(Request::Plan),
        ),
        (Stage::Registering, Event::RegistrationFailed(m)) => (
            Stage::Failed,
            Action::Respond(
                Outcome::Failure(ExecutionError { kind: ErrorKind::SourceRegistration, detail: m }),
            ),
        ),
        (Stage::Planning, Event::Planned) => (Stage::Executing, Action::Perform(Request::Execute)),
        (Stage::Planning, Event::PlanFailed(m)) => (
            Stage::Failed,
            Action::Respond(
                Outcome::Failure(ExecutionError { kind: ErrorKind::QueryPlan, detail: m }),
            ),
        ),
        (Stage::Executing, Event::Collected(bs)) => {
            let rows = materialize(&bs);
            (Stage::Done, Action::Respond(Outcome::Rows(rows)))
        },
        (Stage::Executing, Event::ExecutionFailed(m)) => (
            Stage::Failed,
            Action::Respond(
                Outcome::Failure(ExecutionError { kind: ErrorKind::QueryExecution, detail: m }),
            ),
        ),
        (s, _) => (s, Action::Wait),
    }
}

/// A stage in which the request has been answered.
pub open spec fn is_final(s: Stage) -> bool {
    s == Stage::Done || s == Stage::Failed
}

/// Once a request has been answered, no event moves it, asks for engine
/// work, or produces another answer.
pub proof fn lemma_final_stages_absorb(s: Stage, e: Event)
    requires
        is_final(s),
    ensures
        next_stage(s, e) == s,
        request_for(s, e) is None,
        failure_for(s, e) is None,
        !yields_rows(s, e),
{
}

/// A failed registration is classified as a registration error, and only a
/// registration can fail that way; the request then ends, so no plan or
/// execution error can follow.
pub proof fn lemma_registration_failure(m: String, s: Stage, e: Event)
    ensures
        failure_for(Stage::Registering, Event::RegistrationFailed(m)) == Some(
            (ErrorKind::SourceRegistration, m),
        ),
        next_stage(Stage::Registering, Event::RegistrationFailed(m)) == Stage::Failed,
        request_for(Stage::Registering, Event::RegistrationFailed(m)) is None,
        (failure_for(s, e) matches Some((k, _)) && k == ErrorKind::SourceRegistration) ==> s
            == Stage::Registering,
{
}

/// Invalid SQL is classified as a plan error and ends the request; the scan
/// of the table is requested only after a successful plan.
pub proof fn lemma_plan_failure_precedes_scan(m: String, s: Stage, e: Event)
    ensures
        failure_for(Stage::Planning, Event::PlanFailed(m)) == Some((ErrorKind::QueryPlan, m)),
        next_stage(Stage::Planning, Event::PlanFailed(m)) == Stage::Failed,
        request_for(Stage::Planning, Event::PlanFailed(m)) is None,
        request_for(s, e) == Some(Request::Execute) ==> s == Stage::Planning && e is Planned,
{
}

/// A failure at any stage ends the request without rows: a request either
/// fully succeeds or fully fails.
pub proof fn lemma_failure_never_succeeds(s: Stage, e: Event)
    ensures
        failure_for(s, e) is Some ==> !yields_rows(s, e) && next_stage(s, e) == Stage::Failed,
        yields_rows(s, e) ==> failure_for(s, e) is None && next_stage(s, e) == Stage::Done,
{
}

/// The stage reached after a sequence of events.
pub open spec fn run(s: Stage, es: Seq<Event>) -> Stage
    decreases es.len(),
{
    if es.len() == 0 {
        s
    } else {
        next_stage(run(s, es.drop_last()), es.last())
    }
}

/// Along any sequence of events, at most one step answers the request: after
/// the first answer every further event finds a final stage.
pub proof fn lemma_single_answer(s: Stage, es: Seq<Event>, i: int, j: int)
    requires
        0 <= i < j < es.len(),
        failure_for(run(s, es.take(i)), es[i]) is Some || yields_rows(run(s, es.take(i)), es[i]),
    ensures
        is_final(run(s, es.take(j))),
        failure_for(run(s, es.take(j)), es[j]) is None,
        !yields_rows(run(s, es.take(j)), es[j]),
    decreases j - i,
{
    assert(es.take(i + 1).drop_last() =~= es.take(i));
    assert(es.take(i + 1).last() == es[i]);
    if j > i + 1 {
        lemma_final_persists(s, es, i + 1, j);
    }
}

/// A final stage stays final along any further events.
proof fn lemma_final_persists(s: Stage, es: Seq<Event>, k: int, j: int)
    requires
        0 < k <= j < es.len(),
        is_final(run(s, es.take(k))),
    ensures
        is_final(run(s, es.take(j))),
    decreases j - k,
{
    if k < j {
        assert(es.take(k + 1).drop_last() =~= es.take(k));
        assert(es.take(k + 1).last() == es[k]);
        lemma_final_persists(s, es, k + 1, j);
    }
}

} // verus!
