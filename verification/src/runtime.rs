//! The execution runtime: what one call tree shares among its calls.
//!
//! A call tree starts with one application and grows as applications call
//! each other. The runtime keeps the stack of the applications that are
//! running, the sessions that they have opened, and the results that the
//! calls have produced so far, in the order in which the calls ended.

use vstd::prelude::*;
use crate::base::{ChainId, Destination, SessionId, UserApplicationId};
use crate::data::{
    copy_descriptions, description_views, result_views, ExecutionError, ExecutionResult,
    ExecutionResultView, RawExecutionResult, SystemEffect, SystemEffectView, SystemEffects,
    UserApplicationDescription, UserApplicationDescriptionView, UserEffects,
};
use crate::session::{SessionManager, SessionManagerView};

verus! {

/// The effects that announce `applications` to every destination of
/// `effects`: one registration for each effect, at the same destination and
/// in the same order.
pub open spec fn registrations(
    effects: UserEffects,
    applications: Seq<UserApplicationDescriptionView>,
) -> SystemEffects {
    Seq::new(
        effects.len(),
        |i: int| (effects[i].0, SystemEffectView::RegisterApplications { applications }),
    )
}

/// What the end of a call of `application_id` adds to the results of its
/// call tree: the registrations of `applications`, unless the call produced
/// no effect, and then the effects of the call itself.
pub open spec fn user_results(
    application_id: UserApplicationId,
    effects: UserEffects,
    applications: Seq<UserApplicationDescriptionView>,
) -> Seq<ExecutionResultView> {
    if effects.len() > 0 {
        seq![
            ExecutionResultView::System(registrations(effects, applications)),
            ExecutionResultView::User(application_id, effects),
        ]
    } else {
        seq![ExecutionResultView::User(application_id, effects)]
    }
}

/// The runtime of a call tree, as contracts see it.
pub struct RuntimeView {
    /// The chain that executes.
    pub chain_id: ChainId,
    /// The applications that are running, the caller before the callee.
    pub application_ids: Seq<UserApplicationId>,
    /// The sessions of the call tree.
    pub sessions: SessionManagerView,
    /// The results of the calls that have ended.
    pub execution_results: Seq<ExecutionResultView>,
}

impl RuntimeView {
    /// The runtime of a call tree that starts with a call of
    /// `application_id`, after `execution_results` have been produced.
    pub open spec fn new(
        chain_id: ChainId,
        application_id: UserApplicationId,
        execution_results: Seq<ExecutionResultView>,
    ) -> RuntimeView {
        RuntimeView {
            chain_id,
            application_ids: seq![application_id],
            sessions: SessionManagerView::empty(),
            execution_results,
        }
    }

    /// The runtime of a chain on which no call tree is running.
    pub open spec fn idle(chain_id: ChainId) -> RuntimeView {
        RuntimeView {
            chain_id,
            application_ids: Seq::empty(),
            sessions: SessionManagerView::empty(),
            execution_results: Seq::empty(),
        }
    }

    /// The sessions are well formed.
    pub open spec fn wf(self) -> bool {
        self.sessions.wf()
    }

    /// How many applications are running.
    pub open spec fn depth(self) -> nat {
        self.application_ids.len()
    }

    /// The application that runs now: the last one that was called.
    pub open spec fn current(self) -> UserApplicationId {
        self.application_ids.last()
    }

    /// The runtime after the running application has called `callee`.
    pub open spec fn begin_call(self, callee: UserApplicationId) -> RuntimeView {
        RuntimeView { application_ids: self.application_ids.push(callee), ..self }
    }

    /// The runtime after the running application has returned to its caller.
    pub open spec fn end_call(self) -> RuntimeView {
        RuntimeView { application_ids: self.application_ids.drop_last(), ..self }
    }

    /// The runtime after the running application has opened a session that
    /// holds `data`.
    pub open spec fn open_session(self, data: Seq<u8>) -> RuntimeView {
        RuntimeView { sessions: self.sessions.open(self.current(), data), ..self }
    }

    /// The runtime after the session `id` has been closed.
    pub open spec fn close_session(self, id: SessionId) -> RuntimeView {
        RuntimeView { sessions: self.sessions.close(id), ..self }
    }

    /// The runtime after the call of the running application has ended with
    /// `effects`, and the registry has described the application together
    /// with what it depends on as `applications`.
    pub open spec fn record(
        self,
        effects: UserEffects,
        applications: Seq<UserApplicationDescriptionView>,
    ) -> RuntimeView {
        RuntimeView {
            execution_results: self.execution_results + user_results(
                self.current(),
                effects,
                applications,
            ),
            ..self
        }
    }
}

/// The runtime of one call tree.
#[derive(Debug)]
pub struct ExecutionRuntime {
    /// The chain that executes.
    chain_id: ChainId,
    /// The applications that are running, the caller before the callee.
    application_ids: Vec<UserApplicationId>,
    /// The sessions of the call tree.
    session_manager: SessionManager,
    /// The results of the calls that have ended.
    execution_results: Vec<ExecutionResult>,
}

impl View for ExecutionRuntime {
    type V = RuntimeView;

    closed spec fn view(&self) -> RuntimeView {
        RuntimeView {
            chain_id: self.chain_id,
            application_ids: self.application_ids@,
            sessions: self.session_manager@,
            execution_results: result_views(self.execution_results@),
        }
    }
}

impl ExecutionRuntime {
    /// The invariant of the runtime: that of its session manager.
    pub closed spec fn wf(&self) -> bool {
        self.session_manager.wf()
    }

    /// The runtime of a call tree that starts with a call of
    /// `application_id`, after `execution_results` have been produced.
    pub fn new(
        chain_id: ChainId,
        application_id: UserApplicationId,
        execution_results: Vec<ExecutionResult>,
    ) -> (runtime: ExecutionRuntime)
        ensures
            runtime.wf(),
            runtime@ == RuntimeView::new(
                chain_id,
                application_id,
                result_views(execution_results@),
            ),
    {
        let mut application_ids: Vec<UserApplicationId> = Vec::new();
        application_ids.push(application_id);
        ExecutionRuntime {
            chain_id,
            application_ids,
            session_manager: SessionManager::new(),
            execution_results,
        }
    }

    /// The runtime of a chain on which no call tree is running.
    pub fn idle(chain_id: ChainId) -> (runtime: ExecutionRuntime)
        ensures
            runtime.wf(),
            runtime@ == RuntimeView::idle(chain_id),
    {
        let runtime = ExecutionRuntime {
            chain_id,
            application_ids: Vec::new(),
            session_manager: SessionManager::new(),
            execution_results: Vec::new(),
        };
        assert(result_views(runtime.execution_results@) =~= Seq::empty());
        runtime
    }

    /// The chain that executes.
    pub fn chain_id(&self) -> (chain_id: ChainId)
        ensures
            chain_id == self@.chain_id,
    {
        self.chain_id
    }

    /// How many applications are running.
    pub fn depth(&self) -> (depth: usize)
        ensures
            depth == self@.depth(),
    {
        self.application_ids.len()
    }

    /// The application that runs now.
    pub fn application_id(&self) -> (application_id: UserApplicationId)
        requires
            self@.depth() > 0,
        ensures
            application_id == self@.current(),
    {
        self.application_ids[self.application_ids.len() - 1]
    }

    /// Enters a call of `callee` by the running application.
    pub fn begin_call(&mut self, callee: UserApplicationId)
        requires
            old(self).wf(),
        ensures
            final(self).wf(),
            final(self)@ == old(self)@.begin_call(callee),
    {
        self.application_ids.push(callee);
    }

    /// Leaves the call of the running application: its caller runs again.
    pub fn end_call(&mut self)
        requires
            old(self).wf(),
            old(self)@.depth() > 0,
        ensures
            final(self).wf(),
            final(self)@ == old(self)@.end_call(),
    {
        self.application_ids.pop();
    }

    /// Opens a session for the running application.
    pub fn try_open_session(&mut self, data: Vec<u8>) -> (result: Result<
        SessionId,
        ExecutionError,
    >)
        requires
            old(self).wf(),
            old(self)@.depth() > 0,
        ensures
            final(self).wf(),
            match result {
                Ok(id) => {
                    &&& old(self)@.sessions.can_open()
                    &&& id == old(self)@.sessions.next_id(old(self)@.current())
                    &&& final(self)@ == old(self)@.open_session(data@)
                },
                Err(error) => {
                    &&& !old(self)@.sessions.can_open()
                    &&& error == ExecutionError::TooManySessions
                    &&& final(self)@ == old(self)@
                },
            },
    {
        let owner = self.application_id();
        self.session_manager.try_open_session(owner, data)
    }

    /// Closes the session `id` on behalf of the running application.
    pub fn try_close_session(&mut self, id: SessionId) -> (result: Result<(), ExecutionError>)
        requires
            old(self).wf(),
            old(self)@.depth() > 0,
        ensures
            final(self).wf(),
            match result {
                Ok(()) => {
                    &&& old(self)@.sessions.can_close(id, old(self)@.current())
                    &&& final(self)@ == old(self)@.close_session(id)
                },
                Err(error) => {
                    &&& !old(self)@.sessions.can_close(id, old(self)@.current())
                    &&& final(self)@ == old(self)@
                    &&& error == if old(self)@.sessions.states.dom().contains(id) {
                        ExecutionError::InvalidSessionOwner
                    } else {
                        ExecutionError::InvalidSession
                    }
                },
            },
    {
        let caller = self.application_id();
        self.session_manager.try_close_session(id, caller)
    }

    /// Whether every session of the call tree has been closed.
    pub fn sessions_closed(&self) -> (closed: bool)
        requires
            self.wf(),
        ensures
            closed == self@.sessions.is_empty(),
    {
        self.session_manager.is_empty()
    }

    /// Records the end of the call of the running application. The call
    /// produced `result`; `applications` is what the registry gave for the
    /// application together with all that it depends on. Every destination
    /// of an effect of `result` is first told of `applications`.
    pub fn record(
        &mut self,
        result: RawExecutionResult<Vec<u8>>,
        applications: &Vec<UserApplicationDescription>,
    )
        requires
            old(self).wf(),
            old(self)@.depth() > 0,
        ensures
            final(self).wf(),
            final(self)@ == old(self)@.record(result@, description_views(applications@)),
    {
        let application_id = self.application_id();
        let mut system_result: RawExecutionResult<SystemEffect> = RawExecutionResult {
            effects: Vec::new(),
        };
        let mut i: usize = 0;
        while i < result.effects.len()
            invariant
                i <= result.effects@.len(),
                system_result.effects@.len() == i,
                forall|j: int|
                    0 <= j < i ==> {
                        &&& (#[trigger] system_result.effects@[j]).0 == result.effects@[j].0
                        &&& system_result.effects@[j].1@ == SystemEffectView::RegisterApplications {
                            applications: description_views(applications@),
                        }
                    },
            decreases result.effects.len() - i,
        {
            let destination: Destination = result.effects[i].0;
            let registration = SystemEffect::RegisterApplications {
                applications: copy_descriptions(applications),
            };
            system_result.effects.push((destination, registration));
            i = i + 1;
        }
        assert(system_result@ =~= registrations(result@, description_views(applications@)));
        let ghost before = self.execution_results@;
        if system_result.effects.len() > 0 {
            self.execution_results.push(ExecutionResult::System(system_result));
        }
        self.execution_results.push(ExecutionResult::User(application_id, result));
        assert(result_views(self.execution_results@) =~= result_views(before) + user_results(
            application_id,
            result@,
            description_views(applications@),
        ));
    }

    /// Ends the call tree and hands out its results.
    pub fn into_results(self) -> (results: Vec<ExecutionResult>)
        ensures
            result_views(results@) == self@.execution_results,
    {
        self.execution_results
    }
}

} // verus!
