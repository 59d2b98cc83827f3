//! What the dispatcher and its driver say to each other.
//!
//! The dispatcher performs no outside call itself. Whenever it needs the
//! system application, the registry, the loader or the code of a user
//! application, it hands its driver a [`Request`]; the driver performs the
//! call and resumes the dispatcher with an [`Event`]. While the code of a
//! user application runs, the driver also passes on what that code asks of
//! the runtime, and gives it the dispatcher's [`Reply`].

use vstd::prelude::*;
use crate::base::{EffectContext, OperationContext, QueryContext, SessionId, UserApplicationId};
use crate::data::{
    description_views, result_views, ExecutionError, ExecutionErrorView, ExecutionResult,
    ExecutionResultView, PayloadView, RawExecutionResult, Response, SystemEffect,
    SystemEffectView, SystemEffects, SystemOperation, SystemQuery, SystemResponse,
    UserApplicationDescription, UserApplicationDescriptionView, UserEffects,
};

verus! {

/// Which entry point of a user application a call enters, with its context.
#[derive(Clone, Copy, Debug, PartialEq, Eq, Structural)]
pub enum CallKind {
    /// The first call of a new application.
    Initialize(OperationContext),
    /// The execution of an operation.
    Operation(OperationContext),
    /// The execution of an incoming effect.
    Effect(EffectContext),
    /// A call by another application, within the same call tree.
    Call { caller: UserApplicationId },
    /// A query.
    Query(QueryContext),
}

/// An outside call that the dispatcher asks its driver to perform.
#[derive(Clone, Debug, PartialEq, Eq)]
pub enum Request {
    /// Let the system application execute the operation.
    ExecuteSystemOperation { context: OperationContext, operation: SystemOperation },
    /// Let the system application execute the effect.
    ExecuteSystemEffect { context: EffectContext, effect: SystemEffect },
    /// Let the system application answer the query.
    QuerySystem { context: QueryContext, query: SystemQuery },
    /// Ask the registry for the description of the application.
    DescribeApplication { application_id: UserApplicationId },
    /// Ask the loader for the code that the description refers to.
    LoadApplication { application_id: UserApplicationId, description: UserApplicationDescription },
    /// Run the code of the application at the given entry point.
    RunApplication { application_id: UserApplicationId, kind: CallKind, argument: Vec<u8> },
    /// Ask the registry for the descriptions of the application and of all
    /// that it depends on, directly or not.
    DescribeApplicationWithDependencies { application_id: UserApplicationId },
}

/// The view of a [`Request`].
pub enum RequestView {
    ExecuteSystemOperation { context: OperationContext, operation: Seq<u8> },
    ExecuteSystemEffect { context: EffectContext, effect: SystemEffectView },
    QuerySystem { context: QueryContext, query: Seq<u8> },
    DescribeApplication { application_id: UserApplicationId },
    LoadApplication {
        application_id: UserApplicationId,
        description: UserApplicationDescriptionView,
    },
    RunApplication { application_id: UserApplicationId, kind: CallKind, argument: Seq<u8> },
    DescribeApplicationWithDependencies { application_id: UserApplicationId },
}

impl View for Request {
    type V = RequestView;

    open spec fn view(&self) -> RequestView {
        match self {
            Request::ExecuteSystemOperation { context, operation } => {
                RequestView::ExecuteSystemOperation { context: *context, operation: operation.0@ }
            },
            Request::ExecuteSystemEffect { context, effect } => {
                RequestView::ExecuteSystemEffect { context: *context, effect: effect@ }
            },
            Request::QuerySystem { context, query } => {
                RequestView::QuerySystem { context: *context, query: query.0@ }
            },
            Request::DescribeApplication { application_id } => {
                RequestView::DescribeApplication { application_id: *application_id }
            },
            Request::LoadApplication { application_id, description } => {
                RequestView::LoadApplication {
                    application_id: *application_id,
                    description: description@,
                }
            },
            Request::RunApplication { application_id, kind, argument } => {
                RequestView::RunApplication {
                    application_id: *application_id,
                    kind: *kind,
                    argument: argument@,
                }
            },
            Request::DescribeApplicationWithDependencies { application_id } => {
                RequestView::DescribeApplicationWithDependencies {
                    application_id: *application_id,
                }
            },
        }
    }
}

/// What the driver reports to the dispatcher.
#[derive(Clone, Debug, PartialEq, Eq)]
pub enum Event {
    /// The system application has executed the operation. It names the
    /// application that the operation created, if it created one.
    SystemOperationExecuted {
        result: RawExecutionResult<SystemEffect>,
        new_application: Option<UserApplicationId>,
    },
    /// The system application has executed the effect.
    SystemEffectExecuted { result: RawExecutionResult<SystemEffect> },
    /// The system application has answered the query.
    SystemQueryAnswered { response: SystemResponse },
    /// The registry has described the application.
    ApplicationDescribed { description: UserApplicationDescription },
    /// The loader has made the code of the application ready.
    ApplicationLoaded,
    /// The code of the running application has returned from an operation,
    /// an effect, its initialization or a call by another application.
    ApplicationReturned { result: RawExecutionResult<Vec<u8>> },
    /// The code of the running application has answered a query.
    QueryAnswered { response: Vec<u8> },
    /// The registry has described the application and all that it depends on.
    DependenciesDescribed { applications: Vec<UserApplicationDescription> },
    /// The outside call that the dispatcher was waiting for has failed.
    Failed { message: String },
    /// The running application calls another application.
    CallApplication { callee: UserApplicationId, argument: Vec<u8> },
    /// The running application opens a session.
    OpenSession { data: Vec<u8> },
    /// The running application closes a session.
    CloseSession { session_id: SessionId },
    /// The running application reads its register.
    ReadState,
    /// The running application writes its register.
    WriteState { state: Vec<u8> },
}

/// The view of an [`Event`].
pub enum EventView {
    SystemOperationExecuted { result: SystemEffects, new_application: Option<UserApplicationId> },
    SystemEffectExecuted { result: SystemEffects },
    SystemQueryAnswered { response: Seq<u8> },
    ApplicationDescribed { description: UserApplicationDescriptionView },
    ApplicationLoaded,
    ApplicationReturned { result: UserEffects },
    QueryAnswered { response: Seq<u8> },
    DependenciesDescribed { applications: Seq<UserApplicationDescriptionView> },
    Failed { message: Seq<char> },
    CallApplication { callee: UserApplicationId, argument: Seq<u8> },
    OpenSession { data: Seq<u8> },
    CloseSession { session_id: SessionId },
    ReadState,
    WriteState { state: Seq<u8> },
}

impl View for Event {
    type V = EventView;

    open spec fn view(&self) -> EventView {
        match self {
            Event::SystemOperationExecuted { result, new_application } => {
                EventView::SystemOperationExecuted {
                    result: result@,
                    new_application: *new_application,
                }
            },
            Event::SystemEffectExecuted { result } => {
                EventView::SystemEffectExecuted { result: result@ }
            },
            Event::SystemQueryAnswered { response } => {
                EventView::SystemQueryAnswered { response: response.0@ }
            },
            Event::ApplicationDescribed { description } => {
                EventView::ApplicationDescribed { description: description@ }
            },
            Event::ApplicationLoaded => EventView::ApplicationLoaded,
            Event::ApplicationReturned { result } => {
                EventView::ApplicationReturned { result: result@ }
            },
            Event::QueryAnswered { response } => EventView::QueryAnswered { response: response@ },
            Event::DependenciesDescribed { applications } => {
                EventView::DependenciesDescribed { applications: description_views(applications@) }
            },
            Event::Failed { message } => EventView::Failed { message: message@ },
            Event::CallApplication { callee, argument } => {
                EventView::CallApplication { callee: *callee, argument: argument@ }
            },
            Event::OpenSession { data } => EventView::OpenSession { data: data@ },
            Event::CloseSession { session_id } => {
                EventView::CloseSession { session_id: *session_id }
            },
            Event::ReadState => EventView::ReadState,
            Event::WriteState { state } => EventView::WriteState { state: state@ },
        }
    }
}

/// The views of the events in `events`, in the same order.
pub open spec fn event_views(events: Seq<Event>) -> Seq<EventView> {
    Seq::new(events.len(), |i: int| events[i]@)
}

/// The dispatcher's answer to what the running application asked of the
/// runtime. The application goes on running.
#[derive(Clone, Debug, PartialEq, Eq)]
pub enum Reply {
    /// The application that was called has returned; its caller runs again.
    Returned,
    /// The session was opened under this identifier.
    SessionOpened(SessionId),
    /// The session was closed.
    SessionClosed,
    /// The register of the running application holds these bytes.
    State(Vec<u8>),
    /// The register of the running application was written.
    StateSaved,
    /// What was asked is refused, and nothing has changed.
    Refused(ExecutionError),
}

/// The view of a [`Reply`].
pub enum ReplyView {
    Returned,
    SessionOpened(SessionId),
    SessionClosed,
    State(Seq<u8>),
    StateSaved,
    Refused(ExecutionErrorView),
}

impl View for Reply {
    type V = ReplyView;

    open spec fn view(&self) -> ReplyView {
        match self {
            Reply::Returned => ReplyView::Returned,
            Reply::SessionOpened(id) => ReplyView::SessionOpened(*id),
            Reply::SessionClosed => ReplyView::SessionClosed,
            Reply::State(bytes) => ReplyView::State(bytes@),
            Reply::StateSaved => ReplyView::StateSaved,
            Reply::Refused(error) => ReplyView::Refused(error@),
        }
    }
}

/// What a call tree yields when it ends normally.
#[derive(Clone, Debug, PartialEq, Eq)]
pub enum Outcome {
    /// The results of an operation or of an effect, in the order in which
    /// they were produced.
    Results(Vec<ExecutionResult>),
    /// The answer to a query.
    Response(Response),
}

/// The view of an [`Outcome`].
pub enum OutcomeView {
    Results(Seq<ExecutionResultView>),
    Response(PayloadView),
}

impl View for Outcome {
    type V = OutcomeView;

    open spec fn view(&self) -> OutcomeView {
        match self {
            Outcome::Results(results) => OutcomeView::Results(result_views(results@)),
            Outcome::Response(response) => OutcomeView::Response(response@),
        }
    }
}

/// What the dispatcher does next.
#[derive(Debug, PartialEq, Eq)]
pub enum Step {
    /// It waits for the driver to perform an outside call.
    Request(Request),
    /// It answers the running application, which goes on running.
    Reply(Reply),
    /// The call tree has ended.
    Finished(Result<Outcome, ExecutionError>),
}

/// The view of a [`Step`].
pub enum StepView {
    Request(RequestView),
    Reply(ReplyView),
    Finished(Result<OutcomeView, ExecutionErrorView>),
}

impl View for Step {
    type V = StepView;

    open spec fn view(&self) -> StepView {
        match self {
            Step::Request(request) => StepView::Request(request@),
            Step::Reply(reply) => StepView::Reply(reply@),
            Step::Finished(Ok(outcome)) => StepView::Finished(Ok(outcome@)),
            Step::Finished(Err(error)) => StepView::Finished(Err(error@)),
        }
    }
}

/// Where a call tree stands.
#[derive(Clone, Debug, PartialEq, Eq)]
pub enum Phase {
    /// No call tree is running.
    Idle,
    /// The system application executes an operation.
    SystemOperation { context: OperationContext },
    /// The system application executes an effect.
    SystemEffect,
    /// The system application answers a query.
    SystemQuery,
    /// The registry looks up the application that is about to run.
    Describing { kind: CallKind, argument: Vec<u8> },
    /// The loader fetches the code of the application that is about to run.
    Loading { kind: CallKind, argument: Vec<u8> },
    /// The code of the running application executes.
    Running,
    /// The running application has returned `result`, and the registry looks
    /// up all that it depends on.
    Resolving { result: RawExecutionResult<Vec<u8>> },
}

/// The view of a [`Phase`].
pub enum PhaseView {
    Idle,
    SystemOperation { context: OperationContext },
    SystemEffect,
    SystemQuery,
    Describing { kind: CallKind, argument: Seq<u8> },
    Loading { kind: CallKind, argument: Seq<u8> },
    Running,
    Resolving { result: UserEffects },
}

impl View for Phase {
    type V = PhaseView;

    open spec fn view(&self) -> PhaseView {
        match self {
            Phase::Idle => PhaseView::Idle,
            Phase::SystemOperation { context } => PhaseView::SystemOperation { context: *context },
            Phase::SystemEffect => PhaseView::SystemEffect,
            Phase::SystemQuery => PhaseView::SystemQuery,
            Phase::Describing { kind, argument } => {
                PhaseView::Describing { kind: *kind, argument: argument@ }
            },
            Phase::Loading { kind, argument } => {
                PhaseView::Loading { kind: *kind, argument: argument@ }
            },
            Phase::Running => PhaseView::Running,
            Phase::Resolving { result } => PhaseView::Resolving { result: result@ },
        }
    }
}

} // verus!
