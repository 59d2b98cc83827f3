//! The execution state of a chain and its dispatcher.
//!
//! [`ExecutionStateView`] owns the state of the system application and the
//! registers of the user applications, and runs one call tree at a time. A
//! call tree is started by [`ExecutionStateView::execute_operation`],
//! [`ExecutionStateView::execute_effect`] or
//! [`ExecutionStateView::query_application`] and carried on by
//! [`ExecutionStateView::resume`] until a step says that it has finished.
//!
//! A call tree that fails yields no result. What its applications had
//! written into their registers before the failure stays written: whoever
//! keeps the state decides whether to keep or to restore it.

use vstd::prelude::*;
use crate::base::{
    ApplicationId, ChainId, EffectContext, OperationContext, QueryContext, UserApplicationId,
};
use crate::data::{
    copy_bytes, copy_system_effect, result_views, Effect, ExecutionError, ExecutionErrorView,
    ExecutionResult, Operation, Query, Response, SystemOperation, SystemQuery,
};
use crate::model::{
    kinds_agree, last_step, lemma_run_step, run, CallTreeView, DispatcherView,
};
use crate::protocol::{
    event_views, CallKind, Event, Outcome, Phase, PhaseView, Reply, Request, Step, StepView,
};
use crate::runtime::{ExecutionRuntime, RuntimeView};
use crate::system::{description_digest, SystemExecutionState, MAX_DESCRIPTION_LENGTH};
use crate::users::UserStates;

verus! {

/// The dispatcher of a chain: the chain that executes, and the call tree
/// that is running, if there is one.
#[derive(Debug)]
pub struct Dispatcher {
    /// The chain that executes.
    chain_id: ChainId,
    /// Where the running call tree stands.
    phase: Phase,
    /// Whether the running call tree answers a query.
    query: bool,
    /// What the calls of the running call tree share.
    runtime: ExecutionRuntime,
}

impl View for Dispatcher {
    type V = CallTreeView;

    closed spec fn view(&self) -> CallTreeView {
        CallTreeView {
            chain_id: self.chain_id,
            phase: self.phase@,
            query: self.query,
            runtime: self.runtime@,
        }
    }
}

impl Dispatcher {
    /// The invariant of the dispatcher: that of its runtime.
    pub closed spec fn wf(&self) -> bool {
        self.runtime.wf()
    }

    /// The dispatcher of the chain `chain_id`, with no call tree running.
    fn new(chain_id: ChainId) -> (dispatcher: Dispatcher)
        ensures
            dispatcher.wf(),
            dispatcher@ == (CallTreeView {
                chain_id,
                phase: PhaseView::Idle,
                query: false,
                runtime: RuntimeView::idle(chain_id),
            }),
    {
        Dispatcher {
            chain_id,
            phase: Phase::Idle,
            query: false,
            runtime: ExecutionRuntime::idle(chain_id),
        }
    }
}

/// The execution state of a chain.
#[derive(Debug)]
pub struct ExecutionStateView {
    /// System application.
    pub system: SystemExecutionState,
    /// User applications.
    pub users: UserStates,
    /// The dispatcher of the calls into both.
    pub dispatcher: Dispatcher,
}

impl View for ExecutionStateView {
    type V = DispatcherView;

    open spec fn view(&self) -> DispatcherView {
        self.dispatcher@.with_users(self.users@)
    }
}

impl ExecutionStateView {
    /// The invariant of the state: its tables hold no key twice, and what it
    /// stands for is a well-formed state of the dispatcher.
    pub open spec fn wf(&self) -> bool {
        &&& self.users.wf()
        &&& self.dispatcher.wf()
        &&& self@.wf()
    }

    /// The state of the chain `chain_id` before anything was executed on it.
    pub fn new(chain_id: ChainId) -> (view: ExecutionStateView)
        ensures
            view.wf(),
            view@ == (DispatcherView {
                chain_id,
                users: Map::empty(),
                phase: PhaseView::Idle,
                query: false,
                runtime: RuntimeView::idle(chain_id),
            }),
    {
        ExecutionStateView {
            system: SystemExecutionState::new(),
            users: UserStates::new(),
            dispatcher: Dispatcher::new(chain_id),
        }
    }

    /// Create an in-memory view where the system state is set. The chain is
    /// the one that the state describes, and no user application has written
    /// anything.
    pub fn from_system_state(state: SystemExecutionState) -> (view: ExecutionStateView)
        requires
            state.description is Some,
            state.description->0.encoding@.len() <= MAX_DESCRIPTION_LENGTH,
        ensures
            view.wf(),
            view.system == state,
            view@ == (DispatcherView {
                chain_id: description_digest(state.description->0.encoding@),
                users: Map::empty(),
                phase: PhaseView::Idle,
                query: false,
                runtime: RuntimeView::idle(description_digest(state.description->0.encoding@)),
            }),
    {
        let chain_id = state.description.as_ref().unwrap().id();
        ExecutionStateView {
            system: state,
            users: UserStates::new(),
            dispatcher: Dispatcher::new(chain_id),
        }
    }

    /// The chain that executes.
    pub fn chain_id(&self) -> (chain_id: ChainId)
        ensures
            chain_id == self@.chain_id,
    {
        self.dispatcher.chain_id
    }

    /// Whether no call tree is running.
    pub fn is_idle(&self) -> (idle: bool)
        ensures
            idle == self@.is_idle(),
    {
        match &self.dispatcher.phase {
            Phase::Idle => true,
            _ => false,
        }
    }

    /// Ends the running call tree with `outcome`.
    fn finish(&mut self, outcome: Result<Outcome, ExecutionError>) -> (step: Step)
        requires
            old(self).users.wf(),
        ensures
            final(self).wf(),
            final(self).system == old(self).system,
            final(self)@ == old(self)@.at_rest(),
            step == Step::Finished(outcome),
    {
        self.dispatcher.phase = Phase::Idle;
        self.dispatcher.query = false;
        self.dispatcher.runtime = ExecutionRuntime::idle(self.dispatcher.chain_id);
        Step::Finished(outcome)
    }

    /// Ends the running call tree with `error`.
    fn fail(&mut self, error: ExecutionError) -> (step: Step)
        requires
            old(self).users.wf(),
        ensures
            final(self).wf(),
            final(self).system == old(self).system,
            (final(self)@, step@) == old(self)@.fail(error@),
    {
        self.finish(Err(error))
    }

    /// Starts a call tree with a call of the user application
    /// `application_id`, after `results` have been produced.
    fn start_user_call(
        &mut self,
        application_id: UserApplicationId,
        kind: CallKind,
        argument: Vec<u8>,
        results: Vec<ExecutionResult>,
    ) -> (step: Step)
        requires
            old(self).users.wf(),
        ensures
            final(self).wf(),
            final(self).system == old(self).system,
            (final(self)@, step@) == old(self)@.start_user_call(
                application_id,
                kind,
                argument@,
                result_views(results@),
            ),
    {
        self.dispatcher.query = match kind {
            CallKind::Query(_) => true,
            _ => false,
        };
        self.dispatcher.phase = Phase::Describing { kind, argument };
        self.dispatcher.runtime = ExecutionRuntime::new(
            self.dispatcher.chain_id,
            application_id,
            results,
        );
        Step::Request(Request::DescribeApplication { application_id })
    }

    /// Starts the execution of `operation` for `application_id`.
    ///
    /// The call fails at once if `context` names another chain, and with
    /// `InvalidOperation` if the operation is not of the kind of the
    /// application; the state is then as it was. An operation of the system
    /// application is handed to it. An operation of a user application starts
    /// a call tree with that application.
    pub fn execute_operation(
        &mut self,
        application_id: ApplicationId,
        context: &OperationContext,
        operation: &Operation,
    ) -> (step: Step)
        requires
            old(self).wf(),
            old(self)@.is_idle(),
        ensures
            final(self).wf(),
            final(self).system == old(self).system,
            (final(self)@, step@) == old(self)@.execute_operation(
                application_id,
                *context,
                operation@,
            ),
            context.chain_id != old(self)@.chain_id ==> final(self)@ == old(self)@ && step@
                == StepView::Finished(Err(ExecutionErrorView::IncorrectChainId)),
            context.chain_id == old(self)@.chain_id && !kinds_agree(
                application_id,
                operation is System,
            ) ==> final(self)@ == old(self)@ && step@ == StepView::Finished(
                Err(ExecutionErrorView::InvalidOperation),
            ),
    {
        if context.chain_id != self.dispatcher.chain_id {
            return self.fail(ExecutionError::IncorrectChainId);
        }
        match (application_id, operation) {
            (ApplicationId::System, Operation::System(operation)) => {
                self.dispatcher.phase = Phase::SystemOperation { context: *context };
                Step::Request(
                    Request::ExecuteSystemOperation {
                        context: *context,
                        operation: SystemOperation(copy_bytes(&operation.0)),
                    },
                )
            },
            (ApplicationId::User(application_id), Operation::User(operation)) => {
                let results: Vec<ExecutionResult> = Vec::new();
                assert(result_views(results@) =~= Seq::empty());
                self.start_user_call(
                    application_id,
                    CallKind::Operation(*context),
                    copy_bytes(operation),
                    results,
                )
            },
            _ => self.fail(ExecutionError::InvalidOperation),
        }
    }

    /// Starts the execution of the incoming `effect` for `application_id`.
    ///
    /// The call fails at once if `context` names another chain, and with
    /// `InvalidEffect` if the effect is not of the kind of the application;
    /// the state is then as it was. An effect of the system application is
    /// handed to it. An effect of a user application starts a call tree with
    /// that application.
    pub fn execute_effect(
        &mut self,
        application_id: ApplicationId,
        context: &EffectContext,
        effect: &Effect,
    ) -> (step: Step)
        requires
            old(self).wf(),
            old(self)@.is_idle(),
        ensures
            final(self).wf(),
            final(self).system == old(self).system,
            (final(self)@, step@) == old(self)@.execute_effect(application_id, *context, effect@),
            context.chain_id != old(self)@.chain_id ==> final(self)@ == old(self)@ && step@
                == StepView::Finished(Err(ExecutionErrorView::IncorrectChainId)),
            context.chain_id == old(self)@.chain_id && !kinds_agree(
                application_id,
                effect is System,
            ) ==> final(self)@ == old(self)@ && step@ == StepView::Finished(
                Err(ExecutionErrorView::InvalidEffect),
            ),
    {
        if context.chain_id != self.dispatcher.chain_id {
            return self.fail(ExecutionError::IncorrectChainId);
        }
        match (application_id, effect) {
            (ApplicationId::System, Effect::System(effect)) => {
                self.dispatcher.phase = Phase::SystemEffect;
                Step::Request(
                    Request::ExecuteSystemEffect {
                        context: *context,
                        effect: copy_system_effect(effect),
                    },
                )
            },
            (ApplicationId::User(application_id), Effect::User(effect)) => {
                let results: Vec<ExecutionResult> = Vec::new();
                assert(result_views(results@) =~= Seq::empty());
                self.start_user_call(
                    application_id,
                    CallKind::Effect(*context),
                    copy_bytes(effect),
                    results,
                )
            },
            _ => self.fail(ExecutionError::InvalidEffect),
        }
    }

    /// Starts answering `query` for `application_id`.
    ///
    /// The call fails at once if `context` names another chain, and with
    /// `InvalidQuery` if the query is not of the kind of the application;
    /// the state is then as it was. A query of the system application is
    /// handed to it. A query of a user application starts a call tree with
    /// that application. No register can be written in it, and it yields its
    /// response only if every session that was opened in it has been closed.
    pub fn query_application(
        &mut self,
        application_id: ApplicationId,
        context: &QueryContext,
        query: &Query,
    ) -> (step: Step)
        requires
            old(self).wf(),
            old(self)@.is_idle(),
        ensures
            final(self).wf(),
            final(self).system == old(self).system,
            (final(self)@, step@) == old(self)@.query_application(
                application_id,
                *context,
                query@,
            ),
            context.chain_id != old(self)@.chain_id ==> final(self)@ == old(self)@ && step@
                == StepView::Finished(Err(ExecutionErrorView::IncorrectChainId)),
            context.chain_id == old(self)@.chain_id && !kinds_agree(
                application_id,
                query is System,
            ) ==> final(self)@ == old(self)@ && step@ == StepView::Finished(
                Err(ExecutionErrorView::InvalidQuery),
            ),
    {
        if context.chain_id != self.dispatcher.chain_id {
            return self.fail(ExecutionError::IncorrectChainId);
        }
        match (application_id, query) {
            (ApplicationId::System, Query::System(query)) => {
                self.dispatcher.phase = Phase::SystemQuery;
                Step::Request(
                    Request::QuerySystem {
                        context: *context,
                        query: SystemQuery(copy_bytes(&query.0)),
                    },
                )
            },
            (ApplicationId::User(application_id), Query::User(query)) => {
                let results: Vec<ExecutionResult> = Vec::new();
                assert(result_views(results@) =~= Seq::empty());
                self.start_user_call(
                    application_id,
                    CallKind::Query(*context),
                    copy_bytes(query),
                    results,
                )
            },
            _ => self.fail(ExecutionError::InvalidQuery),
        }
    }

    /// Carries on after the system application has executed an operation.
    fn resume_system_operation(&mut self, context: OperationContext, event: Event) -> (step: Step)
        requires
            old(self).wf(),
            old(self)@.phase == (PhaseView::SystemOperation { context }),
        ensures
            final(self).wf(),
            final(self).system == old(self).system,
            (final(self)@, step@) == old(self)@.resume(event@),
    {
        match event {
            Event::SystemOperationExecuted { result, new_application } => {
                let mut results: Vec<ExecutionResult> = Vec::new();
                results.push(ExecutionResult::System(result));
                assert(result_views(results@) =~= seq![ExecutionResult::System(result)@]);
                match new_application {
                    Some(application_id) => self.start_user_call(
                        application_id,
                        CallKind::Initialize(context),
                        Vec::new(),
                        results,
                    ),
                    None => self.finish(Ok(Outcome::Results(results))),
                }
            },
            Event::Failed { message } => self.fail(ExecutionError::SystemError(message)),
            _ => self.fail(ExecutionError::UnexpectedEvent),
        }
    }

    /// Carries on after the system application has executed an effect.
    fn resume_system_effect(&mut self, event: Event) -> (step: Step)
        requires
            old(self).wf(),
            old(self)@.phase is SystemEffect,
        ensures
            final(self).wf(),
            final(self).system == old(self).system,
            (final(self)@, step@) == old(self)@.resume(event@),
    {
        match event {
            Event::SystemEffectExecuted { result } => {
                let mut results: Vec<ExecutionResult> = Vec::new();
                results.push(ExecutionResult::System(result));
                assert(result_views(results@) =~= seq![ExecutionResult::System(result)@]);
                self.finish(Ok(Outcome::Results(results)))
            },
            Event::Failed { message } => self.fail(ExecutionError::SystemError(message)),
            _ => self.fail(ExecutionError::UnexpectedEvent),
        }
    }

    /// Carries on after the system application has answered a query.
    fn resume_system_query(&mut self, event: Event) -> (step: Step)
        requires
            old(self).wf(),
            old(self)@.phase is SystemQuery,
        ensures
            final(self).wf(),
            final(self).system == old(self).system,
            (final(self)@, step@) == old(self)@.resume(event@),
    {
        match event {
            Event::SystemQueryAnswered { response } => self.finish(
                Ok(Outcome::Response(Response::System(response))),
            ),
            Event::Failed { message } => self.fail(ExecutionError::SystemError(message)),
            _ => self.fail(ExecutionError::UnexpectedEvent),
        }
    }

    /// Carries on after the registry has looked up the application that is
    /// about to run.
    fn resume_describing(&mut self, event: Event) -> (step: Step)
        requires
            old(self).wf(),
            old(self)@.phase is Describing,
        ensures
            final(self).wf(),
            final(self).system == old(self).system,
            (final(self)@, step@) == old(self)@.resume(event@),
    {
        let mut phase = Phase::Idle;
        core::mem::swap(&mut self.dispatcher.phase, &mut phase);
        match phase {
            Phase::Describing { kind, argument } => match event {
                Event::ApplicationDescribed { description } => {
                    let argument = match kind {
                        CallKind::Initialize(_) => copy_bytes(&description.initialization_argument),
                        _ => argument,
                    };
                    self.dispatcher.phase = Phase::Loading { kind, argument };
                    Step::Request(
                        Request::LoadApplication {
                            application_id: self.dispatcher.runtime.application_id(),
                            description,
                        },
                    )
                },
                Event::Failed { message } => self.fail(
                    ExecutionError::ApplicationResolutionError(message),
                ),
                _ => self.fail(ExecutionError::UnexpectedEvent),
            },
            _ => self.fail(ExecutionError::UnexpectedEvent),
        }
    }

    /// Carries on after the loader has fetched the code of the application
    /// that is about to run.
    fn resume_loading(&mut self, event: Event) -> (step: Step)
        requires
            old(self).wf(),
            old(self)@.phase is Loading,
        ensures
            final(self).wf(),
            final(self).system == old(self).system,
            (final(self)@, step@) == old(self)@.resume(event@),
    {
        let mut phase = Phase::Idle;
        core::mem::swap(&mut self.dispatcher.phase, &mut phase);
        match phase {
            Phase::Loading { kind, argument } => match event {
                Event::ApplicationLoaded => {
                    self.dispatcher.phase = Phase::Running;
                    Step::Request(
                        Request::RunApplication {
                            application_id: self.dispatcher.runtime.application_id(),
                            kind,
                            argument,
                        },
                    )
                },
                Event::Failed { message } => self.fail(ExecutionError::LoadError(message)),
                _ => self.fail(ExecutionError::UnexpectedEvent),
            },
            _ => self.fail(ExecutionError::UnexpectedEvent),
        }
    }

    /// Carries on while the code of an application runs.
    fn resume_running(&mut self, event: Event) -> (step: Step)
        requires
            old(self).wf(),
            old(self)@.phase is Running,
        ensures
            final(self).wf(),
            final(self).system == old(self).system,
            (final(self)@, step@) == old(self)@.resume(event@),
    {
        let current = self.dispatcher.runtime.application_id();
        match event {
            Event::CallApplication { callee, argument } => {
                let kind = if self.dispatcher.query {
                    CallKind::Query(QueryContext { chain_id: self.dispatcher.chain_id })
                } else {
                    CallKind::Call { caller: current }
                };
                self.dispatcher.phase = Phase::Describing { kind, argument };
                self.dispatcher.runtime.begin_call(callee);
                Step::Request(Request::DescribeApplication { application_id: callee })
            },
            Event::ReadState => Step::Reply(Reply::State(self.users.load(current))),
            Event::WriteState { state } => {
                if self.dispatcher.query {
                    self.fail(ExecutionError::UnexpectedEvent)
                } else {
                    self.users.save(current, state);
                    Step::Reply(Reply::StateSaved)
                }
            },
            Event::OpenSession { data } => {
                match self.dispatcher.runtime.try_open_session(data) {
                    Ok(session_id) => Step::Reply(Reply::SessionOpened(session_id)),
                    Err(error) => Step::Reply(Reply::Refused(error)),
                }
            },
            Event::CloseSession { session_id } => {
                match self.dispatcher.runtime.try_close_session(session_id) {
                    Ok(()) => Step::Reply(Reply::SessionClosed),
                    Err(error) => Step::Reply(Reply::Refused(error)),
                }
            },
            Event::ApplicationReturned { result } => {
                if self.dispatcher.query {
                    self.fail(ExecutionError::UnexpectedEvent)
                } else {
                    self.dispatcher.phase = Phase::Resolving { result };
                    Step::Request(
                        Request::DescribeApplicationWithDependencies { application_id: current },
                    )
                }
            },
            Event::QueryAnswered { response } => {
                if !self.dispatcher.query {
                    self.fail(ExecutionError::UnexpectedEvent)
                } else if self.dispatcher.runtime.depth() > 1 {
                    self.dispatcher.runtime.end_call();
                    Step::Reply(Reply::Returned)
                } else if !self.dispatcher.runtime.sessions_closed() {
                    self.fail(ExecutionError::SessionWasNotClosed)
                } else {
                    self.finish(Ok(Outcome::Response(Response::User(response))))
                }
            },
            Event::Failed { message } => self.fail(ExecutionError::UserApplicationError(message)),
            _ => self.fail(ExecutionError::UnexpectedEvent),
        }
    }

    /// Carries on after the registry has looked up all that the application
    /// that has just returned depends on.
    fn resume_resolving(&mut self, event: Event) -> (step: Step)
        requires
            old(self).wf(),
            old(self)@.phase is Resolving,
        ensures
            final(self).wf(),
            final(self).system == old(self).system,
            (final(self)@, step@) == old(self)@.resume(event@),
    {
        let mut phase = Phase::Idle;
        core::mem::swap(&mut self.dispatcher.phase, &mut phase);
        match phase {
            Phase::Resolving { result } => match event {
                Event::DependenciesDescribed { applications } => {
                    let nested = self.dispatcher.runtime.depth() > 1;
                    self.dispatcher.runtime.record(result, &applications);
                    if nested {
                        self.dispatcher.runtime.end_call();
                        self.dispatcher.phase = Phase::Running;
                        Step::Reply(Reply::Returned)
                    } else if !self.dispatcher.runtime.sessions_closed() {
                        self.fail(ExecutionError::SessionWasNotClosed)
                    } else {
                        let mut runtime = ExecutionRuntime::idle(self.dispatcher.chain_id);
                        core::mem::swap(&mut self.dispatcher.runtime, &mut runtime);
                        self.finish(Ok(Outcome::Results(runtime.into_results())))
                    }
                },
                Event::Failed { message } => self.fail(
                    ExecutionError::ApplicationResolutionError(message),
                ),
                _ => self.fail(ExecutionError::UnexpectedEvent),
            },
            _ => self.fail(ExecutionError::UnexpectedEvent),
        }
    }

    /// Carries on with what the driver reports.
    ///
    /// The step that comes back is the next request to the driver, the reply
    /// to the running application, or the end of the call tree. An event that
    /// the dispatcher was not waiting for ends the call tree with
    /// `UnexpectedEvent`.
    pub fn resume(&mut self, event: Event) -> (step: Step)
        requires
            old(self).wf(),
        ensures
            final(self).wf(),
            final(self).system == old(self).system,
            (final(self)@, step@) == old(self)@.resume(event@),
    {
        match &self.dispatcher.phase {
            Phase::Idle => self.fail(ExecutionError::UnexpectedEvent),
            Phase::SystemOperation { context } => {
                let context = *context;
                self.resume_system_operation(context, event)
            },
            Phase::SystemEffect => self.resume_system_effect(event),
            Phase::SystemQuery => self.resume_system_query(event),
            Phase::Describing { .. } => self.resume_describing(event),
            Phase::Loading { .. } => self.resume_loading(event),
            Phase::Running => self.resume_running(event),
            Phase::Resolving { .. } => self.resume_resolving(event),
        }
    }

    /// Carries on with each of `events` in turn, as [`Self::resume`] does,
    /// and returns the step that the last of them led to.
    pub fn replay(&mut self, events: Vec<Event>) -> (last: Option<Step>)
        requires
            old(self).wf(),
        ensures
            final(self).wf(),
            final(self).system == old(self).system,
            final(self)@ == run(old(self)@, event_views(events@)),
            match last {
                Some(step) => events@.len() > 0 && step@ == last_step(
                    old(self)@,
                    event_views(events@),
                ),
                None => events@.len() == 0,
            },
    {
        let ghost all = event_views(events@);
        let ghost mut done: int = 0;
        let mut rest = events;
        let mut last: Option<Step> = None;
        while rest.len() > 0
            invariant
                self.wf(),
                self.system == old(self).system,
                0 <= done,
                done + rest@.len() == all.len(),
                event_views(rest@) == all.skip(done),
                self@ == run(old(self)@, all.take(done)),
                match last {
                    Some(step) => done > 0 && step@ == last_step(old(self)@, all.take(done)),
                    None => done == 0,
                },
            decreases rest@.len(),
        {
            let ghost before = rest@;
            let event = rest.remove(0);
            proof {
                assert(event@ == event_views(before)[0]);
                lemma_run_step(old(self)@, all, done);
                assert forall|j: int| 0 <= j < rest@.len() implies #[trigger] event_views(
                    rest@,
                )[j] == all.skip(done + 1)[j] by {
                    assert(event_views(before)[j + 1] == all.skip(done)[j + 1]);
                }
                done = done + 1;
            }
            last = Some(self.resume(event));
        }
        proof {
            assert(all.take(done) =~= all);
        }
        last
    }
}

} // verus!
