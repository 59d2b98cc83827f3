//! What holds of every run of the dispatcher.
//!
//! The executable dispatcher follows the state machine of [`crate::model`]
//! step by step, so whatever is proved here of the state machine holds of
//! every call tree that the dispatcher runs, whatever its driver, the
//! registry, the loader and the applications do.

use vstd::prelude::*;
use crate::base::{
    ApplicationId, EffectContext, OperationContext, QueryContext, SessionId, UserApplicationId,
};
use crate::data::{
    EffectView, ExecutionErrorView, ExecutionResultView, PayloadView, SystemEffectView,
    SystemEffects, UserApplicationDescriptionView, UserEffects,
};
use crate::model::{
    kinds_agree, last_step, lemma_run_step, run, running_throughout, DispatcherView,
};
use crate::protocol::{
    CallKind, EventView, OutcomeView, PhaseView, ReplyView, RequestView, StepView,
};
use crate::runtime::{registrations, user_results, RuntimeView};
use crate::session::SessionManagerView;

verus! {

/// The sessions of a call tree stay well formed when one is opened.
proof fn lemma_open_keeps_wf(sessions: SessionManagerView, owner: UserApplicationId, data: Seq<u8>)
    requires
        sessions.wf(),
        sessions.can_open(),
    ensures
        sessions.open(owner, data).wf(),
        sessions.next_id(owner).index == sessions.opened,
        !sessions.states.dom().contains(sessions.next_id(owner)),
{
}

/// A call tree that is running after each event of a run is running at the
/// end of the run, and after each event of the run without its last event.
proof fn lemma_running_front(state: DispatcherView, events: Seq<EventView>)
    requires
        running_throughout(state, events),
    ensures
        run(state, events).in_user_call(),
        events.len() > 0 ==> running_throughout(state, events.drop_last()) && run(
            state,
            events.drop_last(),
        ).in_user_call(),
{
    assert(events.take(events.len() as int) =~= events);
    if events.len() > 0 {
        let front = events.drop_last();
        assert forall|n: int| 0 <= n <= front.len() implies (#[trigger] run(
            state,
            front.take(n),
        )).in_user_call() by {
            assert(front.take(n) =~= events.take(n));
        }
        assert(events.take(front.len() as int) =~= front);
    }
}

/// The invariant of the dispatcher holds after every step, the chain stays
/// the same, and a call tree that has reached a user application either goes
/// on or ends.
pub proof fn law_invariant_is_kept(state: DispatcherView, event: EventView)
    requires
        state.wf(),
    ensures
        state.resume(event).0.wf(),
        state.resume(event).0.chain_id == state.chain_id,
        state.in_user_call() ==> state.resume(event).0.in_user_call() || state.resume(event).0
            == state.at_rest(),
        state.resume(event).1 is Finished ==> state.resume(event).0 == state.at_rest(),
{
    assert(SessionManagerView::empty().wf());
    if state.phase is Running && event is OpenSession && state.runtime.sessions.can_open() {
        lemma_open_keeps_wf(state.runtime.sessions, state.runtime.current(), event->data);
    }
}

/// The invariant of the dispatcher holds when a call is started.
pub proof fn law_invariant_is_established(
    state: DispatcherView,
    application_id: ApplicationId,
    operation_context: OperationContext,
    operation: PayloadView,
    effect_context: EffectContext,
    effect: EffectView,
    query_context: QueryContext,
    query: PayloadView,
)
    requires
        state.wf(),
        state.is_idle(),
    ensures
        state.execute_operation(application_id, operation_context, operation).0.wf(),
        state.execute_effect(application_id, effect_context, effect).0.wf(),
        state.query_application(application_id, query_context, query).0.wf(),
{
    assert(SessionManagerView::empty().wf());
}

/// The invariant of the dispatcher holds all along a run.
pub proof fn law_invariant_holds_throughout(state: DispatcherView, events: Seq<EventView>)
    requires
        state.wf(),
    ensures
        run(state, events).wf(),
        run(state, events).chain_id == state.chain_id,
    decreases events.len(),
{
    if events.len() > 0 {
        law_invariant_holds_throughout(state, events.drop_last());
        law_invariant_is_kept(run(state, events.drop_last()), events.last());
    }
}

/// A call whose context names another chain than the one that executes
/// never yields a result: it ends at once with `IncorrectChainId`, and the
/// state of the chain is as it was.
pub proof fn law_foreign_context_is_refused(
    state: DispatcherView,
    application_id: ApplicationId,
    operation_context: OperationContext,
    operation: PayloadView,
    effect_context: EffectContext,
    effect: EffectView,
    query_context: QueryContext,
    query: PayloadView,
)
    requires
        state.wf(),
        state.is_idle(),
    ensures
        operation_context.chain_id != state.chain_id ==> state.execute_operation(
            application_id,
            operation_context,
            operation,
        ) == (state, StepView::Finished(Err(ExecutionErrorView::IncorrectChainId))),
        effect_context.chain_id != state.chain_id ==> state.execute_effect(
            application_id,
            effect_context,
            effect,
        ) == (state, StepView::Finished(Err(ExecutionErrorView::IncorrectChainId))),
        query_context.chain_id != state.chain_id ==> state.query_application(
            application_id,
            query_context,
            query,
        ) == (state, StepView::Finished(Err(ExecutionErrorView::IncorrectChainId))),
{
}

/// A payload that is not of the kind of the application that it targets is
/// refused with the error of its entry point, and the state of the chain is
/// as it was. This holds of both mismatches at each of the three entry
/// points.
pub proof fn law_mismatch_is_refused(
    state: DispatcherView,
    application_id: ApplicationId,
    operation_context: OperationContext,
    operation: PayloadView,
    effect_context: EffectContext,
    effect: EffectView,
    query_context: QueryContext,
    query: PayloadView,
)
    requires
        state.wf(),
        state.is_idle(),
        operation_context.chain_id == state.chain_id,
        effect_context.chain_id == state.chain_id,
        query_context.chain_id == state.chain_id,
    ensures
        !kinds_agree(application_id, operation is System) <==> state.execute_operation(
            application_id,
            operation_context,
            operation,
        ) == (state, StepView::Finished(Err(ExecutionErrorView::InvalidOperation))),
        !kinds_agree(application_id, effect is System) <==> state.execute_effect(
            application_id,
            effect_context,
            effect,
        ) == (state, StepView::Finished(Err(ExecutionErrorView::InvalidEffect))),
        !kinds_agree(application_id, query is System) <==> state.query_application(
            application_id,
            query_context,
            query,
        ) == (state, StepView::Finished(Err(ExecutionErrorView::InvalidQuery))),
{
}

/// When the system application reports that an operation has created an
/// application, that application is initialized in the same call tree, with
/// the argument that its description prescribes. If all goes well the
/// results are the result of the system application first, and then what the
/// initialization adds.
pub proof fn law_new_application_is_initialized(
    state: DispatcherView,
    context: OperationContext,
    result: SystemEffects,
    application_id: UserApplicationId,
    description: UserApplicationDescriptionView,
    effects: UserEffects,
    applications: Seq<UserApplicationDescriptionView>,
)
    requires
        state.wf(),
        state.phase == (PhaseView::SystemOperation { context }),
    ensures
        ({
            let events = seq![
                EventView::SystemOperationExecuted {
                    result,
                    new_application: Some(application_id),
                },
                EventView::ApplicationDescribed { description },
                EventView::ApplicationLoaded,
                EventView::ApplicationReturned { result: effects },
                EventView::DependenciesDescribed { applications },
            ];
            &&& last_step(state, events.take(1)) == StepView::Request(
                RequestView::DescribeApplication { application_id },
            )
            &&& last_step(state, events.take(2)) == StepView::Request(
                RequestView::LoadApplication { application_id, description },
            )
            &&& last_step(state, events.take(3)) == StepView::Request(
                RequestView::RunApplication {
                    application_id,
                    kind: CallKind::Initialize(context),
                    argument: description.initialization_argument,
                },
            )
            &&& last_step(state, events.take(4)) == StepView::Request(
                RequestView::DescribeApplicationWithDependencies { application_id },
            )
            &&& last_step(state, events) == StepView::Finished(
                Ok(
                    OutcomeView::Results(
                        seq![ExecutionResultView::System(result)] + user_results(
                            application_id,
                            effects,
                            applications,
                        ),
                    ),
                ),
            )
        }),
{
    let events = seq![
        EventView::SystemOperationExecuted { result, new_application: Some(application_id) },
        EventView::ApplicationDescribed { description },
        EventView::ApplicationLoaded,
        EventView::ApplicationReturned { result: effects },
        EventView::DependenciesDescribed { applications },
    ];
    lemma_run_step(state, events, 0);
    lemma_run_step(state, events, 1);
    lemma_run_step(state, events, 2);
    lemma_run_step(state, events, 3);
    lemma_run_step(state, events, 4);
    assert(events.take(0) =~= Seq::empty());
    let started = run(state, events.take(1));
    assert(started.runtime.current() == application_id);
    assert(run(state, events.take(4)).runtime == started.runtime);
    assert(started.runtime.sessions.is_empty());
}

/// The results of a call tree only grow: what has been produced stays, in
/// its place, whatever happens next in the call tree.
pub proof fn law_results_only_grow(state: DispatcherView, event: EventView)
    requires
        state.wf(),
        state.in_user_call(),
        state.resume(event).0.in_user_call(),
    ensures
        state.runtime.execution_results.is_prefix_of(
            state.resume(event).0.runtime.execution_results,
        ),
{
}

/// A call tree that ends well yields the results that it had produced
/// before its last step, followed by those of the application that it
/// started with.
pub proof fn law_outcome_extends_results(state: DispatcherView, event: EventView)
    requires
        state.wf(),
        state.in_user_call(),
        state.resume(event).1 matches StepView::Finished(Ok(OutcomeView::Results(_))),
    ensures
        state.phase is Resolving,
        event is DependenciesDescribed,
        state.runtime.application_ids.len() == 1,
        state.resume(event).1 == StepView::Finished(
            Ok(
                OutcomeView::Results(
                    state.runtime.execution_results + user_results(
                        state.runtime.application_ids[0],
                        state.phase->result,
                        event->applications,
                    ),
                ),
            ),
        ),
{
}

/// The results that a call tree has produced come first in what it yields:
/// if a call tree that had produced some results runs on and ends well, its
/// outcome begins with those results, in the same order.
pub proof fn law_earlier_results_come_first(
    state: DispatcherView,
    events: Seq<EventView>,
    last: EventView,
)
    requires
        state.wf(),
        state.in_user_call(),
        running_throughout(state, events),
        run(state, events).resume(last).1 matches StepView::Finished(Ok(OutcomeView::Results(_))),
    ensures
        run(state, events).resume(last).1 matches StepView::Finished(
            Ok(OutcomeView::Results(results)),
        ) && state.runtime.execution_results.is_prefix_of(results),
{
    law_invariant_holds_throughout(state, events);
    lemma_running_front(state, events);
    law_outcome_extends_results(run(state, events), last);
    lemma_results_grow_throughout(state, events);
}

/// The results of a call tree only grow all along a run.
proof fn lemma_results_grow_throughout(state: DispatcherView, events: Seq<EventView>)
    requires
        state.wf(),
        state.in_user_call(),
        running_throughout(state, events),
    ensures
        state.runtime.execution_results.is_prefix_of(run(state, events).runtime.execution_results),
    decreases events.len(),
{
    if events.len() > 0 {
        let front = events.drop_last();
        lemma_running_front(state, events);
        lemma_results_grow_throughout(state, front);
        law_invariant_holds_throughout(state, front);
        law_results_only_grow(run(state, front), events.last());
    }
}

/// When an application returns, the registry is asked for that application
/// and all that it depends on, and what it answers is what the
/// destinations of the effects are told: the results of the call tree grow
/// by the registrations of exactly those applications and by the result of
/// the call. If the application was called by another one, the caller then
/// runs again with the stack as it was before the call.
pub proof fn law_returned_application_is_announced(
    state: DispatcherView,
    result: UserEffects,
    applications: Seq<UserApplicationDescriptionView>,
)
    requires
        state.wf(),
        state.phase is Running,
        !state.query,
    ensures
        ({
            let (resolving, request) = state.resume(EventView::ApplicationReturned { result });
            let (next, step) = resolving.resume(EventView::DependenciesDescribed { applications });
            let results = state.runtime.execution_results + user_results(
                state.runtime.current(),
                result,
                applications,
            );
            &&& request == StepView::Request(
                RequestView::DescribeApplicationWithDependencies {
                    application_id: state.runtime.current(),
                },
            )
            &&& state.runtime.depth() > 1 ==> {
                &&& step == StepView::Reply(ReplyView::Returned)
                &&& next.phase is Running
                &&& next.runtime.execution_results == results
                &&& next.runtime.application_ids == state.runtime.application_ids.drop_last()
            }
            &&& state.runtime.depth() == 1 && state.runtime.sessions.is_empty() ==> step
                == StepView::Finished(Ok(OutcomeView::Results(results)))
            &&& state.runtime.depth() == 1 && !state.runtime.sessions.is_empty() ==> step
                == StepView::Finished(Err(ExecutionErrorView::SessionWasNotClosed))
        }),
{
}

/// Every effect of `effects` is announced in `announcements`: at the same
/// place stands a registration of `applications` for the same destination.
pub open spec fn announces(
    announcements: SystemEffects,
    effects: UserEffects,
    applications: Seq<UserApplicationDescriptionView>,
) -> bool {
    &&& announcements.len() == effects.len()
    &&& forall|i: int|
        0 <= i < effects.len() ==> (#[trigger] announcements[i]) == (
            effects[i].0,
            SystemEffectView::RegisterApplications { applications },
        )
}

/// The result `before` announces `effects`: it is a result of the system
/// application that registers, for each of the effects and at its
/// destination, one and the same list of applications.
pub open spec fn announced_by(before: ExecutionResultView, effects: UserEffects) -> bool {
    &&& before is System
    &&& exists|applications: Seq<UserApplicationDescriptionView>| #[trigger]
        announces(before->System_0, effects, applications)
}

/// In `results`, whatever a user application sends is announced first: a
/// result of a user application that holds an effect stands directly behind
/// a result that announces its effects.
pub open spec fn announced(results: Seq<ExecutionResultView>) -> bool {
    forall|i: int|
        0 <= i < results.len() && (#[trigger] results[i]) is User && results[i]->User_1.len() > 0
            ==> i > 0 && announced_by(results[i - 1], results[i]->User_1)
}

/// What the end of a call adds to the results announces the effects of the
/// call: if the call produced an effect, a registration of exactly the
/// applications that the registry gave stands before the result of the
/// call, once for each effect and at its destination.
pub proof fn law_effects_are_announced(
    application_id: UserApplicationId,
    effects: UserEffects,
    applications: Seq<UserApplicationDescriptionView>,
)
    ensures
        user_results(application_id, effects, applications).last() == ExecutionResultView::User(
            application_id,
            effects,
        ),
        effects.len() > 0 ==> {
            &&& user_results(application_id, effects, applications).len() == 2
            &&& user_results(application_id, effects, applications)[0] is System
            &&& announces(
                user_results(application_id, effects, applications)[0]->System_0,
                effects,
                applications,
            )
        },
        effects.len() == 0 ==> user_results(application_id, effects, applications).len() == 1,
        announced(user_results(application_id, effects, applications)),
{
    let added = user_results(application_id, effects, applications);
    if effects.len() > 0 {
        assert(announces(registrations(effects, applications), effects, applications));
        assert forall|i: int|
            0 <= i < added.len() && (#[trigger] added[i]) is User && added[i]->User_1.len()
                > 0 implies i > 0 && announced_by(added[i - 1], added[i]->User_1) by {
            assert(i == 1);
            assert(announces(added[0]->System_0, added[1]->User_1, applications));
        }
    }
}

/// Appending announced results to announced results gives announced
/// results.
proof fn lemma_announced_concat(
    front: Seq<ExecutionResultView>,
    back: Seq<ExecutionResultView>,
)
    requires
        announced(front),
        announced(back),
    ensures
        announced(front + back),
{
    let all = front + back;
    assert forall|i: int|
        0 <= i < all.len() && (#[trigger] all[i]) is User && all[i]->User_1.len() > 0 implies i
        > 0 && announced_by(all[i - 1], all[i]->User_1) by {
        if i < front.len() {
            assert(all[i] == front[i]);
            assert(front[i] is User);
            assert(all[i - 1] == front[i - 1]);
        } else {
            let j = i - front.len();
            assert(all[i] == back[j]);
            assert(back[j] is User);
            assert(all[i - 1] == back[j - 1]);
        }
    }
}

/// Whatever a user application sends is announced first, all along a call
/// tree and in what the call tree yields.
pub proof fn law_results_stay_announced(state: DispatcherView, event: EventView)
    requires
        state.wf(),
        state.in_user_call(),
        announced(state.runtime.execution_results),
    ensures
        state.resume(event).0.in_user_call() ==> announced(
            state.resume(event).0.runtime.execution_results,
        ),
        state.resume(event).1 matches StepView::Finished(Ok(OutcomeView::Results(results)))
            ==> announced(results),
{
    if state.phase is Resolving && event is DependenciesDescribed {
        let added = user_results(
            state.runtime.current(),
            state.phase->result,
            event->applications,
        );
        law_effects_are_announced(
            state.runtime.current(),
            state.phase->result,
            event->applications,
        );
        lemma_announced_concat(state.runtime.execution_results, added);
    }
}

/// A call tree starts with results in which nothing is left to announce.
pub proof fn law_results_start_announced(
    state: DispatcherView,
    application_id: UserApplicationId,
    kind: CallKind,
    argument: Seq<u8>,
    result: SystemEffects,
)
    ensures
        announced(
            state.start_user_call(
                application_id,
                kind,
                argument,
                Seq::empty(),
            ).0.runtime.execution_results,
        ),
        announced(
            state.start_user_call(
                application_id,
                kind,
                argument,
                seq![ExecutionResultView::System(result)],
            ).0.runtime.execution_results,
        ),
{
}

/// One step of a call tree leaves the stack of applications as it is, puts
/// one application on it, or takes the last one off when it is not the only
/// one.
pub proof fn law_stack_discipline(state: DispatcherView, event: EventView)
    requires
        state.wf(),
        state.in_user_call(),
        state.resume(event).0.in_user_call(),
    ensures
        ({
            let before = state.runtime.application_ids;
            let after = state.resume(event).0.runtime.application_ids;
            ||| after == before
            ||| after.len() == before.len() + 1 && after.drop_last() == before
            ||| before.len() > 1 && after == before.drop_last()
        }),
{
    let before = state.runtime.application_ids;
    let after = state.resume(event).0.runtime.application_ids;
    if state.phase is Running && event is CallApplication {
        assert(after.drop_last() =~= before);
    }
}

/// As long as a run goes no lower on the stack than where it began, the
/// applications that were on the stack at the beginning stay there.
proof fn lemma_stack_is_kept_below(state: DispatcherView, events: Seq<EventView>)
    requires
        state.wf(),
        state.in_user_call(),
        forall|n: int|
            0 <= n <= events.len() ==> (#[trigger] run(state, events.take(n))).runtime.depth()
                >= state.runtime.depth(),
    ensures
        run(state, events).in_user_call(),
        run(state, events).wf(),
        run(state, events).runtime.application_ids.take(state.runtime.depth() as int)
            == state.runtime.application_ids,
    decreases events.len(),
{
    let depth = state.runtime.depth() as int;
    if events.len() == 0 {
        assert(state.runtime.application_ids.take(depth) =~= state.runtime.application_ids);
    } else {
        let front = events.drop_last();
        assert forall|n: int| 0 <= n <= front.len() implies (#[trigger] run(
            state,
            front.take(n),
        )).runtime.depth() >= state.runtime.depth() by {
            assert(front.take(n) =~= events.take(n));
        }
        lemma_stack_is_kept_below(state, front);
        let before = run(state, front);
        let after = before.resume(events.last()).0;
        assert(events.take(events.len() as int) =~= events);
        assert(run(state, events.take(events.len() as int)).runtime.depth() >= depth);
        assert(after == run(state, events));
        law_invariant_is_kept(before, events.last());
        assert(after.in_user_call());
        law_stack_discipline(before, events.last());
        assert(after.runtime.application_ids.take(depth) =~= before.runtime.application_ids.take(
            depth,
        ));
    }
}

/// Calls of applications by applications, however deep, restore the stack:
/// if a run stays above the point of the stack where it began until its last
/// step, and comes back to that point with its last step, then the stack is
/// what it was when the run began.
pub proof fn law_nested_calls_restore_stack(state: DispatcherView, events: Seq<EventView>)
    requires
        state.wf(),
        state.in_user_call(),
        forall|n: int|
            0 < n < events.len() ==> (#[trigger] run(state, events.take(n))).runtime.depth()
                > state.runtime.depth(),
        run(state, events).runtime.depth() == state.runtime.depth(),
    ensures
        run(state, events).runtime.application_ids == state.runtime.application_ids,
{
    assert forall|n: int| 0 <= n <= events.len() implies (#[trigger] run(
        state,
        events.take(n),
    )).runtime.depth() >= state.runtime.depth() by {
        if n == 0 {
            assert(events.take(0) =~= Seq::empty());
        } else if n == events.len() {
            assert(events.take(n) =~= events);
        }
    }
    lemma_stack_is_kept_below(state, events);
    let depth = state.runtime.depth() as int;
    assert(run(state, events).runtime.application_ids.take(depth) =~= run(
        state,
        events,
    ).runtime.application_ids);
}

/// A call tree ends well only on the application that it started with: when
/// its last step yields an outcome, that application is the only one on the
/// stack.
pub proof fn law_call_tree_ends_on_its_root(
    state: DispatcherView,
    application_id: UserApplicationId,
    kind: CallKind,
    argument: Seq<u8>,
    results: Seq<ExecutionResultView>,
    events: Seq<EventView>,
    last: EventView,
)
    requires
        state.wf(),
        !state.in_user_call(),
        running_throughout(
            state.start_user_call(application_id, kind, argument, results).0,
            events,
        ),
        run(state.start_user_call(application_id, kind, argument, results).0, events).resume(
            last,
        ).1 matches StepView::Finished(Ok(_)),
    ensures
        run(
            state.start_user_call(application_id, kind, argument, results).0,
            events,
        ).runtime.application_ids == seq![application_id],
{
    let start = state.start_user_call(application_id, kind, argument, results).0;
    assert(RuntimeView::new(state.chain_id, application_id, results).wf());
    assert(start.wf());
    assert(start.runtime.depth() == 1);
    assert forall|n: int| 0 <= n <= events.len() implies (#[trigger] run(
        start,
        events.take(n),
    )).runtime.depth() >= start.runtime.depth() by {
        law_invariant_holds_throughout(start, events.take(n));
    }
    lemma_stack_is_kept_below(start, events);
    let end = run(start, events);
    assert(end.runtime.depth() == 1);
    assert(end.runtime.application_ids.take(1) =~= end.runtime.application_ids);
}

/// The session that `event` opens in `state`, if it opens one.
pub open spec fn session_opened_by(state: DispatcherView, event: EventView) -> Option<SessionId> {
    if state.phase is Running && event is OpenSession
        && state.runtime.sessions.can_open() {
        Some(state.runtime.sessions.next_id(state.runtime.current()))
    } else {
        None
    }
}

/// The session that `event` closes in `state`, if it closes one.
pub open spec fn session_closed_by(state: DispatcherView, event: EventView) -> Option<SessionId> {
    if state.phase is Running && event is CloseSession
        && state.runtime.sessions.can_close(event->session_id, state.runtime.current()) {
        Some(event->session_id)
    } else {
        None
    }
}

/// The sessions that are opened in the course of `events`.
pub open spec fn sessions_opened(state: DispatcherView, events: Seq<EventView>) -> Set<SessionId>
    decreases events.len(),
{
    if events.len() == 0 {
        Set::empty()
    } else {
        let before = sessions_opened(state, events.drop_last());
        match session_opened_by(run(state, events.drop_last()), events.last()) {
            Some(id) => before.insert(id),
            None => before,
        }
    }
}

/// The sessions that are closed in the course of `events`.
pub open spec fn sessions_closed(state: DispatcherView, events: Seq<EventView>) -> Set<SessionId>
    decreases events.len(),
{
    if events.len() == 0 {
        Set::empty()
    } else {
        let before = sessions_closed(state, events.drop_last());
        match session_closed_by(run(state, events.drop_last()), events.last()) {
            Some(id) => before.insert(id),
            None => before,
        }
    }
}

/// One step of a call tree changes the open sessions by the one session
/// that it opens or closes, and by nothing else.
pub proof fn law_sessions_change_by_request_only(state: DispatcherView, event: EventView)
    requires
        state.wf(),
        state.in_user_call(),
        state.resume(event).0.in_user_call(),
    ensures
        ({
            let before = state.runtime.sessions;
            let after = state.resume(event).0.runtime.sessions;
            match (session_opened_by(state, event), session_closed_by(state, event)) {
                (Some(id), _) => {
                    &&& !before.states.dom().contains(id)
                    &&& id.index == before.opened
                    &&& after.opened == before.opened + 1
                    &&& after.states.dom() == before.states.dom().insert(id)
                },
                (None, Some(id)) => {
                    &&& before.states.dom().contains(id)
                    &&& after.opened == before.opened
                    &&& after.states.dom() == before.states.dom().remove(id)
                },
                (None, None) => after == before,
            }
        }),
{
    if session_opened_by(state, event) is Some {
        lemma_open_keeps_wf(state.runtime.sessions, state.runtime.current(), event->data);
    }
}

/// At every point of a call tree, the open sessions are those that were open
/// at the beginning or were opened since, less those that were closed since.
/// A session that was closed is never open again.
pub proof fn law_open_sessions_are_those_not_closed(state: DispatcherView, events: Seq<EventView>)
    requires
        state.wf(),
        state.in_user_call(),
        running_throughout(state, events),
    ensures
        run(state, events).runtime.sessions.states.dom() == (state.runtime.sessions.states.dom()
            + sessions_opened(state, events)) - sessions_closed(state, events),
        forall|id: SessionId| #[trigger]
            sessions_closed(state, events).contains(id) ==> id.index < run(
                state,
                events,
            ).runtime.sessions.opened,
    decreases events.len(),
{
    let start = state.runtime.sessions.states.dom();
    if events.len() == 0 {
        assert(start =~= (start + Set::<SessionId>::empty()) - Set::<SessionId>::empty());
    } else {
        let front = events.drop_last();
        let last = events.last();
        lemma_running_front(state, events);
        law_open_sessions_are_those_not_closed(state, front);
        let before = run(state, front);
        law_invariant_holds_throughout(state, front);
        law_sessions_change_by_request_only(before, last);
        let opened = sessions_opened(state, front);
        let closed = sessions_closed(state, front);
        let after = run(state, events).runtime.sessions;
        match (session_opened_by(before, last), session_closed_by(before, last)) {
            (Some(id), _) => {
                assert(!closed.contains(id));
                assert(after.states.dom() =~= (start + opened.insert(id)) - closed);
            },
            (None, Some(id)) => {
                assert(after.states.dom() =~= (start + opened) - closed.insert(id));
            },
            (None, None) => {},
        }
    }
}

/// A call tree whose applications close every session that they open ends
/// with no session open, and so yields its results, or, if it is a query,
/// its response.
pub proof fn law_closing_every_session_leaves_none_open(
    state: DispatcherView,
    events: Seq<EventView>,
    applications: Seq<UserApplicationDescriptionView>,
    response: Seq<u8>,
)
    requires
        state.wf(),
        state.in_user_call(),
        state.runtime.sessions.is_empty(),
        running_throughout(state, events),
        sessions_opened(state, events).subset_of(sessions_closed(state, events)),
    ensures
        run(state, events).runtime.sessions.is_empty(),
        run(state, events).phase is Resolving && run(state, events).runtime.depth() == 1
            ==> run(state, events).resume(
            EventView::DependenciesDescribed { applications },
        ).1 matches StepView::Finished(Ok(OutcomeView::Results(_))),
        run(state, events).phase is Running && run(state, events).query && run(
            state,
            events,
        ).runtime.depth() == 1 ==> run(state, events).resume(
            EventView::QueryAnswered { response },
        ).1 == StepView::Finished(Ok(OutcomeView::Response(PayloadView::User(response)))),
{
    law_open_sessions_are_those_not_closed(state, events);
    let end = run(state, events);
    assert(end.runtime.sessions.states.dom() =~= Set::empty());
}

/// A call tree in which an application has opened a session and nobody has
/// closed it cannot end well: when the application that it started with has
/// returned, or has answered if the call tree is a query, the call tree
/// fails with `SessionWasNotClosed`, and yields neither result nor response.
pub proof fn law_open_session_fails_the_call(
    state: DispatcherView,
    events: Seq<EventView>,
    session_id: SessionId,
    applications: Seq<UserApplicationDescriptionView>,
    response: Seq<u8>,
)
    requires
        state.wf(),
        state.in_user_call(),
        running_throughout(state, events),
        sessions_opened(state, events).contains(session_id),
        !sessions_closed(state, events).contains(session_id),
        run(state, events).runtime.depth() == 1,
    ensures
        run(state, events).runtime.sessions.states.dom().contains(session_id),
        run(state, events).phase is Resolving ==> run(state, events).resume(
            EventView::DependenciesDescribed { applications },
        ) == (
            run(state, events).at_rest(),
            StepView::Finished(Err(ExecutionErrorView::SessionWasNotClosed)),
        ),
        run(state, events).phase is Running && run(state, events).query ==> run(
            state,
            events,
        ).resume(EventView::QueryAnswered { response }) == (
            run(state, events).at_rest(),
            StepView::Finished(Err(ExecutionErrorView::SessionWasNotClosed)),
        ),
{
    law_open_sessions_are_those_not_closed(state, events);
    let end = run(state, events);
    assert(end.runtime.sessions.states.dom().contains(session_id));
    if end.runtime.sessions.is_empty() {
        assert(Set::<SessionId>::empty().contains(session_id));
    }
    if end.phase is Resolving {
        let recorded = end.runtime.record(end.phase->result, applications);
        assert(recorded.sessions == end.runtime.sessions);
    }
}

/// Sessions never outlive their call tree: when a call tree ends, however it
/// ends, the dispatcher is idle and keeps no session, so the next call tree
/// starts without any. The step that ends a call tree writes no register.
pub proof fn law_sessions_end_with_their_call_tree(state: DispatcherView, event: EventView)
    requires
        state.wf(),
        state.resume(event).1 is Finished,
    ensures
        state.resume(event).0.is_idle(),
        state.resume(event).0.runtime.sessions == SessionManagerView::empty(),
        state.resume(event).0.runtime.application_ids.len() == 0,
        state.resume(event).0.users == state.users,
{
}

/// A query ends on its sessions as every other call tree does: when the
/// application that the query started with answers, the query yields the
/// answer if no session is open, and fails with `SessionWasNotClosed` if one
/// is. Either way no session is left for the next call tree.
pub proof fn law_query_ends_without_open_sessions(state: DispatcherView, response: Seq<u8>)
    requires
        state.wf(),
        state.phase is Running,
        state.query,
        state.runtime.depth() == 1,
    ensures
        state.resume(EventView::QueryAnswered { response }) == (
            state.at_rest(),
            StepView::Finished(
                if state.runtime.sessions.is_empty() {
                    Ok(OutcomeView::Response(PayloadView::User(response)))
                } else {
                    Err(ExecutionErrorView::SessionWasNotClosed)
                },
            ),
        ),
        state.at_rest().runtime.sessions == SessionManagerView::empty(),
{
}

/// A query writes nothing: the registers of the chain are the same after
/// every step of the call tree of a query.
pub proof fn law_query_writes_nothing(state: DispatcherView, event: EventView)
    requires
        state.wf(),
        state.query,
    ensures
        state.resume(event).0.users == state.users,
{
}

} // verus!
