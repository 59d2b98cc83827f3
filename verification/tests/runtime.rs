use linera_execution::base::{
    BytecodeId, ChainId, CryptoHash, Destination, SessionId, UserApplicationId,
};
use linera_execution::data::{
    copy_bytes, copy_description, copy_descriptions, copy_system_effect, ExecutionError,
    ExecutionResult, RawExecutionResult, SystemEffect, UserApplicationDescription,
};
use linera_execution::runtime::ExecutionRuntime;
use linera_execution::session::SessionManager;

fn chain(n: u64) -> ChainId {
    ChainId(CryptoHash::new(n, 0, 0, 0))
}

fn application(n: u64) -> UserApplicationId {
    UserApplicationId(CryptoHash::new(0, 0, 0, n))
}

fn description(n: u64) -> UserApplicationDescription {
    UserApplicationDescription {
        bytecode_id: BytecodeId(CryptoHash::new(n, 0, 0, 0)),
        initialization_argument: vec![n as u8],
        required_application_ids: vec![application(n + 1), application(n + 2)],
    }
}

#[test]
fn session_manager_starts_empty() {
    let manager = SessionManager::new();
    assert!(manager.is_empty());
}

#[test]
fn session_manager_is_empty_again_once_all_is_closed() {
    let mut manager = SessionManager::new();
    let first = manager.try_open_session(application(1), vec![1]).unwrap();
    let second = manager.try_open_session(application(2), vec![2]).unwrap();
    assert_eq!(first, SessionId { application_id: application(1), index: 0 });
    assert_eq!(second, SessionId { application_id: application(2), index: 1 });
    assert!(!manager.is_empty());
    assert_eq!(manager.try_close_session(first, application(1)), Ok(()));
    assert!(!manager.is_empty());
    assert_eq!(manager.try_close_session(second, application(2)), Ok(()));
    assert!(manager.is_empty());
}

#[test]
fn session_manager_refuses_what_it_cannot_close() {
    let mut manager = SessionManager::new();
    let unknown = SessionId { application_id: application(1), index: 0 };
    assert_eq!(
        manager.try_close_session(unknown, application(1)),
        Err(ExecutionError::InvalidSession)
    );
    let id = manager.try_open_session(application(1), vec![]).unwrap();
    assert_eq!(
        manager.try_close_session(id, application(2)),
        Err(ExecutionError::InvalidSessionOwner)
    );
    assert!(!manager.is_empty());
    let other = SessionId { application_id: application(2), index: 0 };
    assert_eq!(
        manager.try_close_session(other, application(2)),
        Err(ExecutionError::InvalidSession)
    );
    assert_eq!(manager.try_close_session(id, application(1)), Ok(()));
    assert_eq!(
        manager.try_close_session(id, application(1)),
        Err(ExecutionError::InvalidSession)
    );
}

#[test]
fn session_numbers_are_not_used_again() {
    let mut manager = SessionManager::new();
    let first = manager.try_open_session(application(1), vec![]).unwrap();
    manager.try_close_session(first, application(1)).unwrap();
    let second = manager.try_open_session(application(1), vec![]).unwrap();
    assert_eq!(second.index, 1);
    assert_ne!(first, second);
}

#[test]
fn runtime_starts_with_one_application_and_the_given_results() {
    let earlier = vec![ExecutionResult::System(RawExecutionResult { effects: vec![] })];
    let runtime = ExecutionRuntime::new(chain(1), application(1), earlier.clone());
    assert_eq!(runtime.chain_id(), chain(1));
    assert_eq!(runtime.depth(), 1);
    assert_eq!(runtime.application_id(), application(1));
    assert!(runtime.sessions_closed());
    assert_eq!(runtime.into_results(), earlier);
}

#[test]
fn runtime_at_rest_runs_no_application() {
    let runtime = ExecutionRuntime::idle(chain(1));
    assert_eq!(runtime.depth(), 0);
    assert!(runtime.sessions_closed());
    assert_eq!(runtime.into_results(), vec![]);
}

#[test]
fn runtime_tracks_the_running_application() {
    let mut runtime = ExecutionRuntime::new(chain(1), application(1), vec![]);
    runtime.begin_call(application(2));
    runtime.begin_call(application(3));
    assert_eq!(runtime.depth(), 3);
    assert_eq!(runtime.application_id(), application(3));
    runtime.end_call();
    assert_eq!(runtime.application_id(), application(2));
    runtime.end_call();
    assert_eq!(runtime.depth(), 1);
    assert_eq!(runtime.application_id(), application(1));
}

#[test]
fn runtime_opens_sessions_for_the_running_application() {
    let mut runtime = ExecutionRuntime::new(chain(1), application(1), vec![]);
    runtime.begin_call(application(2));
    let id = runtime.try_open_session(vec![1]).unwrap();
    assert_eq!(id, SessionId { application_id: application(2), index: 0 });
    assert!(!runtime.sessions_closed());
    runtime.end_call();
    assert_eq!(runtime.try_close_session(id), Err(ExecutionError::InvalidSessionOwner));
    runtime.begin_call(application(2));
    assert_eq!(runtime.try_close_session(id), Ok(()));
    assert!(runtime.sessions_closed());
}

#[test]
fn runtime_records_registrations_before_the_result() {
    let mut runtime = ExecutionRuntime::new(chain(1), application(1), vec![]);
    let applications = vec![description(2), description(1)];
    let to = Destination::Recipient(chain(3));
    let channel = Destination::Subscribers(4);
    let result = RawExecutionResult { effects: vec![(to, vec![1]), (channel, vec![2])] };
    runtime.record(result.clone(), &applications);
    runtime.record(RawExecutionResult { effects: vec![] }, &applications);
    let registration = SystemEffect::RegisterApplications { applications };
    assert_eq!(
        runtime.into_results(),
        vec![
            ExecutionResult::System(RawExecutionResult {
                effects: vec![(to, registration.clone()), (channel, registration)],
            }),
            ExecutionResult::User(application(1), result),
            ExecutionResult::User(application(1), RawExecutionResult { effects: vec![] }),
        ]
    );
}

#[test]
fn copies_are_equal_to_what_they_copy() {
    assert_eq!(copy_bytes(&vec![]), Vec::<u8>::new());
    assert_eq!(copy_bytes(&vec![1, 2, 3]), vec![1, 2, 3]);
    assert_eq!(copy_description(&description(5)), description(5));
    let descriptions = vec![description(1), description(2), description(3)];
    assert_eq!(copy_descriptions(&descriptions), descriptions);
    let registration = SystemEffect::RegisterApplications { applications: descriptions };
    assert_eq!(copy_system_effect(&registration), registration);
    let other = SystemEffect::Other(vec![7, 8]);
    assert_eq!(copy_system_effect(&other), other);
}
