//! The dispatcher as a mathematical state machine.
//!
//! A [`DispatcherView`] is the state of the dispatcher of one chain. Each
//! function below gives, for a state and what comes in, the next state and
//! the step that the dispatcher takes. The executable dispatcher is proved to
//! follow these functions exactly, and the laws of the crate are proved about
//! them.

use vstd::prelude::*;
use crate::base::{
    ApplicationId, ChainId, EffectContext, OperationContext, QueryContext, UserApplicationId,
};
use crate::data::{
    EffectView, ExecutionErrorView, ExecutionResultView, PayloadView,
    UserApplicationDescriptionView, UserEffects,
};
use crate::protocol::{
    CallKind, EventView, OutcomeView, PhaseView, ReplyView, RequestView, StepView,
};
use crate::runtime::RuntimeView;
use crate::users::{register_of, UserStatesView};

verus! {

/// A state of the dispatcher together with the step that led to it.
pub type Transition = (DispatcherView, StepView);

/// The argument that a call of kind `kind` passes to the application: what
/// its description prescribes for the first call, and `argument` for every
/// other call.
pub open spec fn entry_argument(
    kind: CallKind,
    argument: Seq<u8>,
    description: UserApplicationDescriptionView,
) -> Seq<u8> {
    if kind is Initialize {
        description.initialization_argument
    } else {
        argument
    }
}

/// Whether a payload is of the kind of the application that it targets.
pub open spec fn kinds_agree(application_id: ApplicationId, system_payload: bool) -> bool {
    (application_id is System) == system_payload
}

/// The call tree that runs on a chain, as contracts see it: all of the state
/// of the dispatcher but the registers.
pub struct CallTreeView {
    /// The chain that executes.
    pub chain_id: ChainId,
    /// Where the running call tree stands.
    pub phase: PhaseView,
    /// Whether the running call tree answers a query.
    pub query: bool,
    /// What the calls of the running call tree share.
    pub runtime: RuntimeView,
}

impl CallTreeView {
    /// The state of the dispatcher on a chain whose registers are `users`.
    pub open spec fn with_users(self, users: UserStatesView) -> DispatcherView {
        DispatcherView {
            chain_id: self.chain_id,
            users,
            phase: self.phase,
            query: self.query,
            runtime: self.runtime,
        }
    }
}

/// The state of the dispatcher of one chain, as contracts see it.
pub struct DispatcherView {
    /// The chain that executes.
    pub chain_id: ChainId,
    /// The registers of the user applications.
    pub users: UserStatesView,
    /// Where the running call tree stands.
    pub phase: PhaseView,
    /// Whether the running call tree answers a query.
    pub query: bool,
    /// What the calls of the running call tree share.
    pub runtime: RuntimeView,
}

impl DispatcherView {
    /// No call tree is running.
    pub open spec fn is_idle(self) -> bool {
        self.phase is Idle
    }

    /// A call tree is running, and it has reached a user application.
    pub open spec fn in_user_call(self) -> bool {
        self.phase is Describing || self.phase is Loading || self.phase is Running
            || self.phase is Resolving
    }

    /// The invariant of the dispatcher. While a user application is being
    /// called, some application is on the stack. At any other time the
    /// runtime is at rest.
    pub open spec fn wf(self) -> bool {
        &&& self.runtime.chain_id == self.chain_id
        &&& self.runtime.wf()
        &&& if self.in_user_call() {
            self.runtime.depth() > 0
        } else {
            &&& !self.query
            &&& self.runtime == RuntimeView::idle(self.chain_id)
        }
    }

    /// The state after the running call tree has ended.
    pub open spec fn at_rest(self) -> DispatcherView {
        DispatcherView {
            phase: PhaseView::Idle,
            query: false,
            runtime: RuntimeView::idle(self.chain_id),
            ..self
        }
    }

    /// The call tree ends with `outcome`.
    pub open spec fn finish(self, outcome: Result<OutcomeView, ExecutionErrorView>) -> Transition {
        (self.at_rest(), StepView::Finished(outcome))
    }

    /// The call tree ends with `error`.
    pub open spec fn fail(self, error: ExecutionErrorView) -> Transition {
        self.finish(Err(error))
    }

    /// A call tree starts with a call of the user application
    /// `application_id`, after `results` have been produced: the registry is
    /// asked for the application.
    pub open spec fn start_user_call(
        self,
        application_id: UserApplicationId,
        kind: CallKind,
        argument: Seq<u8>,
        results: Seq<ExecutionResultView>,
    ) -> Transition {
        (
            DispatcherView {
                phase: PhaseView::Describing { kind, argument },
                query: kind is Query,
                runtime: RuntimeView::new(self.chain_id, application_id, results),
                ..self
            },
            StepView::Request(RequestView::DescribeApplication { application_id }),
        )
    }

    /// An operation is to be executed.
    pub open spec fn execute_operation(
        self,
        application_id: ApplicationId,
        context: OperationContext,
        operation: PayloadView,
    ) -> Transition {
        if context.chain_id != self.chain_id {
            self.fail(ExecutionErrorView::IncorrectChainId)
        } else {
            match (application_id, operation) {
                (ApplicationId::System, PayloadView::System(bytes)) => (
                    DispatcherView { phase: PhaseView::SystemOperation { context }, ..self },
                    StepView::Request(
                        RequestView::ExecuteSystemOperation { context, operation: bytes },
                    ),
                ),
                (ApplicationId::User(id), PayloadView::User(bytes)) => self.start_user_call(
                    id,
                    CallKind::Operation(context),
                    bytes,
                    Seq::empty(),
                ),
                _ => self.fail(ExecutionErrorView::InvalidOperation),
            }
        }
    }

    /// An incoming effect is to be executed.
    pub open spec fn execute_effect(
        self,
        application_id: ApplicationId,
        context: EffectContext,
        effect: EffectView,
    ) -> Transition {
        if context.chain_id != self.chain_id {
            self.fail(ExecutionErrorView::IncorrectChainId)
        } else {
            match (application_id, effect) {
                (ApplicationId::System, EffectView::System(effect)) => (
                    DispatcherView { phase: PhaseView::SystemEffect, ..self },
                    StepView::Request(RequestView::ExecuteSystemEffect { context, effect }),
                ),
                (ApplicationId::User(id), EffectView::User(bytes)) => self.start_user_call(
                    id,
                    CallKind::Effect(context),
                    bytes,
                    Seq::empty(),
                ),
                _ => self.fail(ExecutionErrorView::InvalidEffect),
            }
        }
    }

    /// A query is to be answered.
    pub open spec fn query_application(
        self,
        application_id: ApplicationId,
        context: QueryContext,
        query: PayloadView,
    ) -> Transition {
        if context.chain_id != self.chain_id {
            self.fail(ExecutionErrorView::IncorrectChainId)
        } else {
            match (application_id, query) {
                (ApplicationId::System, PayloadView::System(bytes)) => (
                    DispatcherView { phase: PhaseView::SystemQuery, ..self },
                    StepView::Request(RequestView::QuerySystem { context, query: bytes }),
                ),
                (ApplicationId::User(id), PayloadView::User(bytes)) => self.start_user_call(
                    id,
                    CallKind::Query(context),
                    bytes,
                    Seq::empty(),
                ),
                _ => self.fail(ExecutionErrorView::InvalidQuery),
            }
        }
    }

    /// The driver reports `event` while the system application executes an
    /// operation in `context`. If the operation created an application, that
    /// application is initialized next, in the same call tree.
    pub open spec fn resume_system_operation(
        self,
        context: OperationContext,
        event: EventView,
    ) -> Transition {
        match event {
            EventView::SystemOperationExecuted { result, new_application } => {
                let results = seq![ExecutionResultView::System(result)];
                match new_application {
                    Some(application_id) => self.start_user_call(
                        application_id,
                        CallKind::Initialize(context),
                        Seq::empty(),
                        results,
                    ),
                    None => self.finish(Ok(OutcomeView::Results(results))),
                }
            },
            EventView::Failed { message } => self.fail(ExecutionErrorView::SystemError(message)),
            _ => self.fail(ExecutionErrorView::UnexpectedEvent),
        }
    }

    /// The driver reports `event` while the system application executes an
    /// effect.
    pub open spec fn resume_system_effect(self, event: EventView) -> Transition {
        match event {
            EventView::SystemEffectExecuted { result } => self.finish(
                Ok(OutcomeView::Results(seq![ExecutionResultView::System(result)])),
            ),
            EventView::Failed { message } => self.fail(ExecutionErrorView::SystemError(message)),
            _ => self.fail(ExecutionErrorView::UnexpectedEvent),
        }
    }

    /// The driver reports `event` while the system application answers a
    /// query.
    pub open spec fn resume_system_query(self, event: EventView) -> Transition {
        match event {
            EventView::SystemQueryAnswered { response } => self.finish(
                Ok(OutcomeView::Response(PayloadView::System(response))),
            ),
            EventView::Failed { message } => self.fail(ExecutionErrorView::SystemError(message)),
            _ => self.fail(ExecutionErrorView::UnexpectedEvent),
        }
    }

    /// The driver reports `event` while the registry looks up the
    /// application that is about to run: its code is loaded next.
    pub open spec fn resume_describing(
        self,
        kind: CallKind,
        argument: Seq<u8>,
        event: EventView,
    ) -> Transition {
        match event {
            EventView::ApplicationDescribed { description } => (
                DispatcherView {
                    phase: PhaseView::Loading {
                        kind,
                        argument: entry_argument(kind, argument, description),
                    },
                    ..self
                },
                StepView::Request(
                    RequestView::LoadApplication {
                        application_id: self.runtime.current(),
                        description,
                    },
                ),
            ),
            EventView::Failed { message } => self.fail(
                ExecutionErrorView::ApplicationResolutionError(message),
            ),
            _ => self.fail(ExecutionErrorView::UnexpectedEvent),
        }
    }

    /// The driver reports `event` while the loader fetches the code of the
    /// application that is about to run: the code is run next.
    pub open spec fn resume_loading(
        self,
        kind: CallKind,
        argument: Seq<u8>,
        event: EventView,
    ) -> Transition {
        match event {
            EventView::ApplicationLoaded => (
                DispatcherView { phase: PhaseView::Running, ..self },
                StepView::Request(
                    RequestView::RunApplication {
                        application_id: self.runtime.current(),
                        kind,
                        argument,
                    },
                ),
            ),
            EventView::Failed { message } => self.fail(ExecutionErrorView::LoadError(message)),
            _ => self.fail(ExecutionErrorView::UnexpectedEvent),
        }
    }

    /// The kind of a call that the running application makes.
    pub open spec fn nested_kind(self) -> CallKind {
        if self.query {
            CallKind::Query(QueryContext { chain_id: self.chain_id })
        } else {
            CallKind::Call { caller: self.runtime.current() }
        }
    }

    /// The driver reports `event` while the code of an application runs.
    /// The event is either what that code asks of the runtime, or the end of
    /// the call. Sessions are opened and closed in a query as in any other
    /// call tree, and a query ends well only if none is left open. A query
    /// writes no register: a request to write one ends it.
    pub open spec fn resume_running(self, event: EventView) -> Transition {
        match event {
            EventView::CallApplication { callee, argument } => (
                DispatcherView {
                    phase: PhaseView::Describing { kind: self.nested_kind(), argument },
                    runtime: self.runtime.begin_call(callee),
                    ..self
                },
                StepView::Request(RequestView::DescribeApplication { application_id: callee }),
            ),
            EventView::ReadState => (
                self,
                StepView::Reply(ReplyView::State(register_of(self.users, self.runtime.current()))),
            ),
            EventView::WriteState { state } => if self.query {
                self.fail(ExecutionErrorView::UnexpectedEvent)
            } else {
                (
                    DispatcherView {
                        users: self.users.insert(self.runtime.current(), state),
                        ..self
                    },
                    StepView::Reply(ReplyView::StateSaved),
                )
            },
            EventView::OpenSession { data } => if self.runtime.sessions.can_open() {
                (
                    DispatcherView { runtime: self.runtime.open_session(data), ..self },
                    StepView::Reply(
                        ReplyView::SessionOpened(
                            self.runtime.sessions.next_id(self.runtime.current()),
                        ),
                    ),
                )
            } else {
                (self, StepView::Reply(ReplyView::Refused(ExecutionErrorView::TooManySessions)))
            },
            EventView::CloseSession { session_id } => if self.runtime.sessions.can_close(
                session_id,
                self.runtime.current(),
            ) {
                (
                    DispatcherView { runtime: self.runtime.close_session(session_id), ..self },
                    StepView::Reply(ReplyView::SessionClosed),
                )
            } else if self.runtime.sessions.states.dom().contains(session_id) {
                (
                    self,
                    StepView::Reply(ReplyView::Refused(ExecutionErrorView::InvalidSessionOwner)),
                )
            } else {
                (self, StepView::Reply(ReplyView::Refused(ExecutionErrorView::InvalidSession)))
            },
            EventView::ApplicationReturned { result } => if self.query {
                self.fail(ExecutionErrorView::UnexpectedEvent)
            } else {
                (
                    DispatcherView { phase: PhaseView::Resolving { result }, ..self },
                    StepView::Request(
                        RequestView::DescribeApplicationWithDependencies {
                            application_id: self.runtime.current(),
                        },
                    ),
                )
            },
            EventView::QueryAnswered { response } => if !self.query {
                self.fail(ExecutionErrorView::UnexpectedEvent)
            } else if self.runtime.depth() > 1 {
                (
                    DispatcherView { runtime: self.runtime.end_call(), ..self },
                    StepView::Reply(ReplyView::Returned),
                )
            } else if !self.runtime.sessions.is_empty() {
                self.fail(ExecutionErrorView::SessionWasNotClosed)
            } else {
                self.finish(Ok(OutcomeView::Response(PayloadView::User(response))))
            },
            EventView::Failed { message } => self.fail(
                ExecutionErrorView::UserApplicationError(message),
            ),
            _ => self.fail(ExecutionErrorView::UnexpectedEvent),
        }
    }

    /// The driver reports `event` after the running application has returned
    /// `result`, while the registry looks up all that it depends on. The
    /// result is recorded behind the registrations that announce it. Then
    /// either the caller runs again, or, if the application was the one that
    /// the call tree started with, the call tree ends: with its results if
    /// every session has been closed, and with an error otherwise.
    pub open spec fn resume_resolving(self, result: UserEffects, event: EventView) -> Transition {
        match event {
            EventView::DependenciesDescribed { applications } => {
                let recorded = self.runtime.record(result, applications);
                if self.runtime.depth() > 1 {
                    (
                        DispatcherView {
                            phase: PhaseView::Running,
                            runtime: recorded.end_call(),
                            ..self
                        },
                        StepView::Reply(ReplyView::Returned),
                    )
                } else if !recorded.sessions.is_empty() {
                    self.fail(ExecutionErrorView::SessionWasNotClosed)
                } else {
                    self.finish(Ok(OutcomeView::Results(recorded.execution_results)))
                }
            },
            EventView::Failed { message } => self.fail(
                ExecutionErrorView::ApplicationResolutionError(message),
            ),
            _ => self.fail(ExecutionErrorView::UnexpectedEvent),
        }
    }

    /// The driver reports `event`. An event that the dispatcher is not
    /// waiting for ends the call tree.
    pub open spec fn resume(self, event: EventView) -> Transition {
        match self.phase {
            PhaseView::Idle => self.fail(ExecutionErrorView::UnexpectedEvent),
            PhaseView::SystemOperation { context } => self.resume_system_operation(context, event),
            PhaseView::SystemEffect => self.resume_system_effect(event),
            PhaseView::SystemQuery => self.resume_system_query(event),
            PhaseView::Describing { kind, argument } => self.resume_describing(
                kind,
                argument,
                event,
            ),
            PhaseView::Loading { kind, argument } => self.resume_loading(kind, argument, event),
            PhaseView::Running => self.resume_running(event),
            PhaseView::Resolving { result } => self.resume_resolving(result, event),
        }
    }
}

/// The state that the dispatcher reaches from `state` when its driver
/// reports `events` one after the other.
pub open spec fn run(state: DispatcherView, events: Seq<EventView>) -> DispatcherView
    decreases events.len(),
{
    if events.len() == 0 {
        state
    } else {
        run(state, events.drop_last()).resume(events.last()).0
    }
}

/// The step that the dispatcher takes on the last of `events`.
pub open spec fn last_step(state: DispatcherView, events: Seq<EventView>) -> StepView {
    run(state, events.drop_last()).resume(events.last()).1
}

/// The call tree that runs in `state` is still running after each of
/// `events`.
pub open spec fn running_throughout(state: DispatcherView, events: Seq<EventView>) -> bool {
    forall|n: int| 0 <= n <= events.len() ==> (#[trigger] run(state, events.take(n))).in_user_call()
}

/// A run of `n + 1` events is a run of `n` events and one more step.
pub proof fn lemma_run_step(state: DispatcherView, events: Seq<EventView>, n: int)
    requires
        0 <= n < events.len(),
    ensures
        run(state, events.take(n + 1)) == run(state, events.take(n)).resume(events[n]).0,
        last_step(state, events.take(n + 1)) == run(state, events.take(n)).resume(events[n]).1,
        events.take(events.len() as int) == events,
{
    assert(events.take(n + 1).drop_last() =~= events.take(n));
    assert(events.take(events.len() as int) =~= events);
}

} // verus!
