use linera_execution::base::{
    ApplicationId, BytecodeId, ChainId, CryptoHash, Destination, EffectContext, EffectId,
    OperationContext, QueryContext, UserApplicationId,
};
use linera_execution::data::{
    Effect, ExecutionError, ExecutionResult, Operation, Query, RawExecutionResult, Response,
    SystemEffect, SystemOperation, SystemQuery, SystemResponse, UserApplicationDescription,
};
use linera_execution::execution::ExecutionStateView;
use linera_execution::protocol::{CallKind, Event, Outcome, Request, Step};

fn chain(n: u64) -> ChainId {
    ChainId(CryptoHash::new(n, 0, 0, 0))
}

fn application(n: u64) -> UserApplicationId {
    UserApplicationId(CryptoHash::new(0, 0, 0, n))
}

fn description(n: u64, argument: &[u8], required: &[u64]) -> UserApplicationDescription {
    UserApplicationDescription {
        bytecode_id: BytecodeId(CryptoHash::new(n, n, n, n)),
        initialization_argument: argument.to_vec(),
        required_application_ids: required.iter().map(|id| application(*id)).collect(),
    }
}

fn operation_context(chain_id: ChainId) -> OperationContext {
    OperationContext { chain_id, height: 3, index: 1 }
}

fn effect_context(chain_id: ChainId) -> EffectContext {
    EffectContext {
        chain_id,
        height: 5,
        effect_id: EffectId { chain_id: chain(77), height: 2, index: 0 },
    }
}

fn failed(error: ExecutionError) -> Step {
    Step::Finished(Err(error))
}

#[test]
fn operation_of_the_wrong_kind_is_invalid() {
    let mut view = ExecutionStateView::new(chain(1));
    let context = operation_context(chain(1));
    let step = view.execute_operation(ApplicationId::System, &context, &Operation::User(vec![1]));
    assert_eq!(step, failed(ExecutionError::InvalidOperation));
    assert!(view.is_idle());
    let step = view.execute_operation(
        ApplicationId::User(application(1)),
        &context,
        &Operation::System(SystemOperation(vec![7])),
    );
    assert_eq!(step, failed(ExecutionError::InvalidOperation));
    assert!(view.is_idle());
}

#[test]
fn effect_of_the_wrong_kind_is_invalid() {
    let mut view = ExecutionStateView::new(chain(1));
    let context = effect_context(chain(1));
    let step = view.execute_effect(ApplicationId::System, &context, &Effect::User(vec![1]));
    assert_eq!(step, failed(ExecutionError::InvalidEffect));
    assert!(view.is_idle());
    let step = view.execute_effect(
        ApplicationId::User(application(1)),
        &context,
        &Effect::System(SystemEffect::Other(vec![7])),
    );
    assert_eq!(step, failed(ExecutionError::InvalidEffect));
    assert!(view.is_idle());
}

#[test]
fn query_of_the_wrong_kind_is_invalid() {
    let mut view = ExecutionStateView::new(chain(1));
    let context = QueryContext { chain_id: chain(1) };
    let step = view.query_application(ApplicationId::System, &context, &Query::User(vec![1]));
    assert_eq!(step, failed(ExecutionError::InvalidQuery));
    assert!(view.is_idle());
    let step = view.query_application(
        ApplicationId::User(application(1)),
        &context,
        &Query::System(SystemQuery(vec![7])),
    );
    assert_eq!(step, failed(ExecutionError::InvalidQuery));
    assert!(view.is_idle());
}

#[test]
fn context_of_another_chain_is_refused() {
    let mut view = ExecutionStateView::new(chain(1));
    let step = view.execute_operation(
        ApplicationId::System,
        &operation_context(chain(2)),
        &Operation::System(SystemOperation(vec![])),
    );
    assert_eq!(step, failed(ExecutionError::IncorrectChainId));
    let step = view.execute_effect(
        ApplicationId::User(application(1)),
        &effect_context(chain(2)),
        &Effect::User(vec![1]),
    );
    assert_eq!(step, failed(ExecutionError::IncorrectChainId));
    let step = view.query_application(
        ApplicationId::System,
        &QueryContext { chain_id: chain(2) },
        &Query::System(SystemQuery(vec![])),
    );
    assert_eq!(step, failed(ExecutionError::IncorrectChainId));
    assert!(view.is_idle());
}

#[test]
fn context_of_another_chain_is_refused_before_the_kind_is_looked_at() {
    let mut view = ExecutionStateView::new(chain(1));
    let step = view.execute_operation(
        ApplicationId::System,
        &operation_context(chain(2)),
        &Operation::User(vec![1]),
    );
    assert_eq!(step, failed(ExecutionError::IncorrectChainId));
}

#[test]
fn system_operation_yields_the_system_result() {
    let mut view = ExecutionStateView::new(chain(1));
    let context = operation_context(chain(1));
    let step = view.execute_operation(
        ApplicationId::System,
        &context,
        &Operation::System(SystemOperation(vec![1, 2, 3])),
    );
    assert_eq!(
        step,
        Step::Request(Request::ExecuteSystemOperation {
            context,
            operation: SystemOperation(vec![1, 2, 3]),
        })
    );
    assert!(!view.is_idle());
    let result = RawExecutionResult {
        effects: vec![(Destination::Recipient(chain(2)), SystemEffect::Other(vec![9]))],
    };
    let step = view.resume(Event::SystemOperationExecuted {
        result: result.clone(),
        new_application: None,
    });
    assert_eq!(
        step,
        Step::Finished(Ok(Outcome::Results(vec![ExecutionResult::System(result)])))
    );
    assert!(view.is_idle());
}

#[test]
fn system_operation_failure_is_carried_unchanged() {
    let mut view = ExecutionStateView::new(chain(1));
    view.execute_operation(
        ApplicationId::System,
        &operation_context(chain(1)),
        &Operation::System(SystemOperation(vec![])),
    );
    let step = view.resume(Event::Failed { message: "insufficient balance".to_string() });
    assert_eq!(step, failed(ExecutionError::SystemError("insufficient balance".to_string())));
    assert!(view.is_idle());
}

#[test]
fn system_effect_yields_the_system_result() {
    let mut view = ExecutionStateView::new(chain(1));
    let context = effect_context(chain(1));
    let effect = SystemEffect::RegisterApplications { applications: vec![description(1, &[4], &[])] };
    let step =
        view.execute_effect(ApplicationId::System, &context, &Effect::System(effect.clone()));
    assert_eq!(step, Step::Request(Request::ExecuteSystemEffect { context, effect }));
    let result: RawExecutionResult<SystemEffect> = RawExecutionResult { effects: vec![] };
    let step = view.resume(Event::SystemEffectExecuted { result: result.clone() });
    assert_eq!(
        step,
        Step::Finished(Ok(Outcome::Results(vec![ExecutionResult::System(result)])))
    );
    assert!(view.is_idle());
}

#[test]
fn system_effect_never_starts_an_application() {
    let mut view = ExecutionStateView::new(chain(1));
    view.execute_effect(
        ApplicationId::System,
        &effect_context(chain(1)),
        &Effect::System(SystemEffect::Other(vec![])),
    );
    let step = view.resume(Event::SystemOperationExecuted {
        result: RawExecutionResult { effects: vec![] },
        new_application: Some(application(1)),
    });
    assert_eq!(step, failed(ExecutionError::UnexpectedEvent));
    assert!(view.is_idle());
}

#[test]
fn system_query_yields_the_system_response() {
    let mut view = ExecutionStateView::new(chain(1));
    let context = QueryContext { chain_id: chain(1) };
    let step = view.query_application(
        ApplicationId::System,
        &context,
        &Query::System(SystemQuery(vec![5])),
    );
    assert_eq!(step, Step::Request(Request::QuerySystem { context, query: SystemQuery(vec![5]) }));
    let step = view.resume(Event::SystemQueryAnswered { response: SystemResponse(vec![6]) });
    assert_eq!(
        step,
        Step::Finished(Ok(Outcome::Response(Response::System(SystemResponse(vec![6])))))
    );
    assert!(view.is_idle());
}

#[test]
fn user_operation_registers_the_application_at_each_destination() {
    // Chain 1 hosts application 10, which depends on nothing. The operation
    // makes it send one effect to chain 4; it opens no session.
    let mut view = ExecutionStateView::new(chain(1));
    let context = operation_context(chain(1));
    let a = application(10);
    let describes_a = description(10, &[], &[]);
    let step =
        view.execute_operation(ApplicationId::User(a), &context, &Operation::User(vec![42]));
    assert_eq!(step, Step::Request(Request::DescribeApplication { application_id: a }));
    let step = view.resume(Event::ApplicationDescribed { description: describes_a.clone() });
    assert_eq!(
        step,
        Step::Request(Request::LoadApplication {
            application_id: a,
            description: describes_a.clone(),
        })
    );
    let step = view.resume(Event::ApplicationLoaded);
    assert_eq!(
        step,
        Step::Request(Request::RunApplication {
            application_id: a,
            kind: CallKind::Operation(context),
            argument: vec![42],
        })
    );
    let destination = Destination::Recipient(chain(4));
    let result = RawExecutionResult { effects: vec![(destination, vec![1, 1])] };
    let step = view.resume(Event::ApplicationReturned { result: result.clone() });
    assert_eq!(
        step,
        Step::Request(Request::DescribeApplicationWithDependencies { application_id: a })
    );
    let step = view.resume(Event::DependenciesDescribed { applications: vec![describes_a.clone()] });
    assert_eq!(
        step,
        Step::Finished(Ok(Outcome::Results(vec![
            ExecutionResult::System(RawExecutionResult {
                effects: vec![(
                    destination,
                    SystemEffect::RegisterApplications { applications: vec![describes_a] },
                )],
            }),
            ExecutionResult::User(a, result),
        ])))
    );
    assert!(view.is_idle());
}

#[test]
fn user_effect_without_effects_registers_nothing() {
    let mut view = ExecutionStateView::new(chain(1));
    let context = effect_context(chain(1));
    let a = application(10);
    view.execute_effect(ApplicationId::User(a), &context, &Effect::User(vec![8]));
    view.resume(Event::ApplicationDescribed { description: description(10, &[1], &[]) });
    let step = view.resume(Event::ApplicationLoaded);
    assert_eq!(
        step,
        Step::Request(Request::RunApplication {
            application_id: a,
            kind: CallKind::Effect(context),
            argument: vec![8],
        })
    );
    let result: RawExecutionResult<Vec<u8>> = RawExecutionResult { effects: vec![] };
    view.resume(Event::ApplicationReturned { result: result.clone() });
    let step = view.resume(Event::DependenciesDescribed {
        applications: vec![description(10, &[1], &[])],
    });
    assert_eq!(
        step,
        Step::Finished(Ok(Outcome::Results(vec![ExecutionResult::User(a, result)])))
    );
}

#[test]
fn every_effect_gets_its_own_registration_in_order() {
    let mut view = ExecutionStateView::new(chain(1));
    let a = application(10);
    let closure = vec![description(11, &[], &[]), description(10, &[], &[11])];
    view.execute_operation(
        ApplicationId::User(a),
        &operation_context(chain(1)),
        &Operation::User(vec![]),
    );
    view.resume(Event::ApplicationDescribed { description: description(10, &[], &[11]) });
    view.resume(Event::ApplicationLoaded);
    let first = Destination::Recipient(chain(4));
    let second = Destination::Subscribers(7);
    let result = RawExecutionResult {
        effects: vec![(first, vec![1]), (second, vec![2]), (first, vec![3])],
    };
    view.resume(Event::ApplicationReturned { result: result.clone() });
    let step = view.resume(Event::DependenciesDescribed { applications: closure.clone() });
    let registration = SystemEffect::RegisterApplications { applications: closure };
    assert_eq!(
        step,
        Step::Finished(Ok(Outcome::Results(vec![
            ExecutionResult::System(RawExecutionResult {
                effects: vec![
                    (first, registration.clone()),
                    (second, registration.clone()),
                    (first, registration),
                ],
            }),
            ExecutionResult::User(a, result),
        ])))
    );
}

#[test]
fn new_application_is_initialized_after_the_system_result() {
    let mut view = ExecutionStateView::new(chain(1));
    let context = operation_context(chain(1));
    let a = application(10);
    view.execute_operation(
        ApplicationId::System,
        &context,
        &Operation::System(SystemOperation(vec![1])),
    );
    let system_result = RawExecutionResult {
        effects: vec![(Destination::Recipient(chain(9)), SystemEffect::Other(vec![3]))],
    };
    let step = view.resume(Event::SystemOperationExecuted {
        result: system_result.clone(),
        new_application: Some(a),
    });
    assert_eq!(step, Step::Request(Request::DescribeApplication { application_id: a }));
    let describes_a = description(10, &[5, 6], &[]);
    view.resume(Event::ApplicationDescribed { description: describes_a.clone() });
    let step = view.resume(Event::ApplicationLoaded);
    assert_eq!(
        step,
        Step::Request(Request::RunApplication {
            application_id: a,
            kind: CallKind::Initialize(context),
            argument: vec![5, 6],
        })
    );
    let destination = Destination::Recipient(chain(2));
    let result = RawExecutionResult { effects: vec![(destination, vec![0])] };
    view.resume(Event::ApplicationReturned { result: result.clone() });
    let step = view.resume(Event::DependenciesDescribed { applications: vec![describes_a.clone()] });
    assert_eq!(
        step,
        Step::Finished(Ok(Outcome::Results(vec![
            ExecutionResult::System(system_result),
            ExecutionResult::System(RawExecutionResult {
                effects: vec![(
                    destination,
                    SystemEffect::RegisterApplications { applications: vec![describes_a] },
                )],
            }),
            ExecutionResult::User(a, result),
        ])))
    );
}

#[test]
fn unknown_application_fails_the_call() {
    let mut view = ExecutionStateView::new(chain(1));
    view.execute_operation(
        ApplicationId::User(application(10)),
        &operation_context(chain(1)),
        &Operation::User(vec![]),
    );
    let step = view.resume(Event::Failed { message: "unknown application".to_string() });
    assert_eq!(
        step,
        failed(ExecutionError::ApplicationResolutionError("unknown application".to_string()))
    );
    assert!(view.is_idle());
}

#[test]
fn unavailable_bytecode_fails_the_call() {
    let mut view = ExecutionStateView::new(chain(1));
    view.execute_operation(
        ApplicationId::User(application(10)),
        &operation_context(chain(1)),
        &Operation::User(vec![]),
    );
    view.resume(Event::ApplicationDescribed { description: description(10, &[], &[]) });
    let step = view.resume(Event::Failed { message: "corrupt bytecode".to_string() });
    assert_eq!(step, failed(ExecutionError::LoadError("corrupt bytecode".to_string())));
    assert!(view.is_idle());
}

#[test]
fn application_failure_is_carried_unchanged() {
    let mut view = ExecutionStateView::new(chain(1));
    view.execute_operation(
        ApplicationId::User(application(10)),
        &operation_context(chain(1)),
        &Operation::User(vec![]),
    );
    view.resume(Event::ApplicationDescribed { description: description(10, &[], &[]) });
    view.resume(Event::ApplicationLoaded);
    let step = view.resume(Event::Failed { message: "out of fuel".to_string() });
    assert_eq!(step, failed(ExecutionError::UserApplicationError("out of fuel".to_string())));
    assert!(view.is_idle());
}

#[test]
fn unresolved_dependencies_fail_the_call() {
    let mut view = ExecutionStateView::new(chain(1));
    view.execute_operation(
        ApplicationId::User(application(10)),
        &operation_context(chain(1)),
        &Operation::User(vec![]),
    );
    view.resume(Event::ApplicationDescribed { description: description(10, &[], &[11]) });
    view.resume(Event::ApplicationLoaded);
    view.resume(Event::ApplicationReturned { result: RawExecutionResult { effects: vec![] } });
    let step = view.resume(Event::Failed { message: "missing dependency".to_string() });
    assert_eq!(
        step,
        failed(ExecutionError::ApplicationResolutionError("missing dependency".to_string()))
    );
}

#[test]
fn event_without_a_call_is_unexpected() {
    let mut view = ExecutionStateView::new(chain(1));
    let step = view.resume(Event::ApplicationLoaded);
    assert_eq!(step, failed(ExecutionError::UnexpectedEvent));
    assert!(view.is_idle());
}

#[test]
fn event_out_of_turn_ends_the_call() {
    let mut view = ExecutionStateView::new(chain(1));
    view.execute_operation(
        ApplicationId::User(application(10)),
        &operation_context(chain(1)),
        &Operation::User(vec![]),
    );
    let step = view.resume(Event::ApplicationLoaded);
    assert_eq!(step, failed(ExecutionError::UnexpectedEvent));
    assert!(view.is_idle());
    assert_eq!(view.chain_id(), chain(1));
}

#[test]
fn system_result_stays_first_when_the_initialization_calls_others() {
    let mut view = ExecutionStateView::new(chain(1));
    let context = operation_context(chain(1));
    view.execute_operation(
        ApplicationId::System,
        &context,
        &Operation::System(SystemOperation(vec![1])),
    );
    let system_result: RawExecutionResult<SystemEffect> = RawExecutionResult { effects: vec![] };
    view.resume(Event::SystemOperationExecuted {
        result: system_result.clone(),
        new_application: Some(application(10)),
    });
    view.resume(Event::ApplicationDescribed { description: description(10, &[1], &[11]) });
    view.resume(Event::ApplicationLoaded);
    view.resume(Event::CallApplication { callee: application(11), argument: vec![] });
    view.resume(Event::ApplicationDescribed { description: description(11, &[], &[]) });
    view.resume(Event::ApplicationLoaded);
    let to = Destination::Recipient(chain(3));
    let inner = RawExecutionResult { effects: vec![(to, vec![11])] };
    view.resume(Event::ApplicationReturned { result: inner.clone() });
    view.resume(Event::DependenciesDescribed { applications: vec![description(11, &[], &[])] });
    let outer: RawExecutionResult<Vec<u8>> = RawExecutionResult { effects: vec![] };
    view.resume(Event::ApplicationReturned { result: outer.clone() });
    let step = view.resume(Event::DependenciesDescribed {
        applications: vec![description(11, &[], &[]), description(10, &[1], &[11])],
    });
    assert_eq!(
        step,
        Step::Finished(Ok(Outcome::Results(vec![
            ExecutionResult::System(system_result),
            ExecutionResult::System(RawExecutionResult {
                effects: vec![(
                    to,
                    SystemEffect::RegisterApplications {
                        applications: vec![description(11, &[], &[])],
                    },
                )],
            }),
            ExecutionResult::User(application(11), inner),
            ExecutionResult::User(application(10), outer),
        ])))
    );
}
