//! The values that cross the dispatcher: application descriptions, payloads,
//! execution results and errors, each with its mathematical view.

use vstd::prelude::*;
use crate::base::{BytecodeId, Destination, UserApplicationId};

verus! {

/// What is needed to load a user application and to run it for the first
/// time.
#[derive(Clone, Debug, PartialEq, Eq)]
pub struct UserApplicationDescription {
    /// The bytecode to load.
    pub bytecode_id: BytecodeId,
    /// The argument of the first call, `initialize`.
    pub initialization_argument: Vec<u8>,
    /// The applications that this one calls directly.
    pub required_application_ids: Vec<UserApplicationId>,
}

/// The view of a [`UserApplicationDescription`].
pub struct UserApplicationDescriptionView {
    pub bytecode_id: BytecodeId,
    pub initialization_argument: Seq<u8>,
    pub required_application_ids: Seq<UserApplicationId>,
}

impl View for UserApplicationDescription {
    type V = UserApplicationDescriptionView;

    open spec fn view(&self) -> UserApplicationDescriptionView {
        UserApplicationDescriptionView {
            bytecode_id: self.bytecode_id,
            initialization_argument: self.initialization_argument@,
            required_application_ids: self.required_application_ids@,
        }
    }
}

/// The views of the descriptions in `descriptions`, in the same order.
pub open spec fn description_views(descriptions: Seq<UserApplicationDescription>) -> Seq<
    UserApplicationDescriptionView,
> {
    Seq::new(descriptions.len(), |i: int| descriptions[i]@)
}

/// An effect addressed to the system application of another chain.
#[derive(Clone, Debug, PartialEq, Eq)]
pub enum SystemEffect {
    /// Makes the given applications known to the receiving chain.
    RegisterApplications { applications: Vec<UserApplicationDescription> },
    /// Any other system effect, carried in its encoded form.
    Other(Vec<u8>),
}

/// The view of a [`SystemEffect`].
pub enum SystemEffectView {
    RegisterApplications { applications: Seq<UserApplicationDescriptionView> },
    Other(Seq<u8>),
}

impl View for SystemEffect {
    type V = SystemEffectView;

    open spec fn view(&self) -> SystemEffectView {
        match self {
            SystemEffect::RegisterApplications { applications } => {
                SystemEffectView::RegisterApplications {
                    applications: description_views(applications@),
                }
            },
            SystemEffect::Other(bytes) => SystemEffectView::Other(bytes@),
        }
    }
}

/// What one call of an application produced: the effects to send, in the
/// order in which they were produced.
#[derive(Clone, Debug, PartialEq, Eq)]
pub struct RawExecutionResult<Effect> {
    pub effects: Vec<(Destination, Effect)>,
}

impl<Effect: View> View for RawExecutionResult<Effect> {
    type V = Seq<(Destination, Effect::V)>;

    open spec fn view(&self) -> Seq<(Destination, Effect::V)> {
        Seq::new(self.effects@.len(), |i: int| (self.effects@[i].0, self.effects@[i].1@))
    }
}

/// The effects of a user application, as contracts see them.
pub type UserEffects = Seq<(Destination, Seq<u8>)>;

/// The effects of the system application, as contracts see them.
pub type SystemEffects = Seq<(Destination, SystemEffectView)>;

/// One entry of the outcome of an operation or an effect.
#[derive(Clone, Debug, PartialEq, Eq)]
pub enum ExecutionResult {
    /// Effects for the system application of their destinations.
    System(RawExecutionResult<SystemEffect>),
    /// Effects for the given user application at their destinations.
    User(UserApplicationId, RawExecutionResult<Vec<u8>>),
}

/// The view of an [`ExecutionResult`].
pub enum ExecutionResultView {
    System(SystemEffects),
    User(UserApplicationId, UserEffects),
}

impl View for ExecutionResult {
    type V = ExecutionResultView;

    open spec fn view(&self) -> ExecutionResultView {
        match self {
            ExecutionResult::System(result) => ExecutionResultView::System(result@),
            ExecutionResult::User(id, result) => ExecutionResultView::User(*id, result@),
        }
    }
}

/// The views of the results in `results`, in the same order.
pub open spec fn result_views(results: Seq<ExecutionResult>) -> Seq<ExecutionResultView> {
    Seq::new(results.len(), |i: int| results[i]@)
}

/// A payload for either kind of application. The system payload is carried
/// to the system application untouched; the user payload is a byte string
/// that only the application understands.
#[derive(Clone, Debug, PartialEq, Eq)]
pub enum Operation {
    System(SystemOperation),
    User(Vec<u8>),
}

/// An operation of the system application, in its encoded form.
#[derive(Clone, Debug, PartialEq, Eq)]
pub struct SystemOperation(pub Vec<u8>);

/// An incoming effect for either kind of application.
#[derive(Clone, Debug, PartialEq, Eq)]
pub enum Effect {
    System(SystemEffect),
    User(Vec<u8>),
}

/// A query for either kind of application.
#[derive(Clone, Debug, PartialEq, Eq)]
pub enum Query {
    System(SystemQuery),
    User(Vec<u8>),
}

/// A query of the system application, in its encoded form.
#[derive(Clone, Debug, PartialEq, Eq)]
pub struct SystemQuery(pub Vec<u8>);

/// The answer to a query.
#[derive(Clone, Debug, PartialEq, Eq)]
pub enum Response {
    System(SystemResponse),
    User(Vec<u8>),
}

/// An answer of the system application, in its encoded form.
#[derive(Clone, Debug, PartialEq, Eq)]
pub struct SystemResponse(pub Vec<u8>);

/// The view of an [`Operation`], a [`Query`] or a [`Response`]: which kind of
/// application it belongs to, and its bytes.
pub enum PayloadView {
    System(Seq<u8>),
    User(Seq<u8>),
}

impl View for Operation {
    type V = PayloadView;

    open spec fn view(&self) -> PayloadView {
        match self {
            Operation::System(operation) => PayloadView::System(operation.0@),
            Operation::User(bytes) => PayloadView::User(bytes@),
        }
    }
}

impl View for Query {
    type V = PayloadView;

    open spec fn view(&self) -> PayloadView {
        match self {
            Query::System(query) => PayloadView::System(query.0@),
            Query::User(bytes) => PayloadView::User(bytes@),
        }
    }
}

impl View for Response {
    type V = PayloadView;

    open spec fn view(&self) -> PayloadView {
        match self {
            Response::System(response) => PayloadView::System(response.0@),
            Response::User(bytes) => PayloadView::User(bytes@),
        }
    }
}

/// The view of an [`Effect`].
pub enum EffectView {
    System(SystemEffectView),
    User(Seq<u8>),
}

impl View for Effect {
    type V = EffectView;

    open spec fn view(&self) -> EffectView {
        match self {
            Effect::System(effect) => EffectView::System(effect@),
            Effect::User(bytes) => EffectView::User(bytes@),
        }
    }
}

/// Why a call did not yield a result.
#[derive(Clone, Debug, PartialEq, Eq)]
pub enum ExecutionError {
    /// The operation is not of the kind of the application it targets.
    InvalidOperation,
    /// The effect is not of the kind of the application it targets.
    InvalidEffect,
    /// The query is not of the kind of the application it targets.
    InvalidQuery,
    /// The system application failed; its message is carried unchanged.
    SystemError(String),
    /// The registry does not know the application.
    ApplicationResolutionError(String),
    /// The bytecode of the application could not be loaded.
    LoadError(String),
    /// The application itself failed; its message is carried unchanged.
    UserApplicationError(String),
    /// The call tree ended while a session was still open.
    SessionWasNotClosed,
    /// The session is not open.
    InvalidSession,
    /// The session belongs to another application.
    InvalidSessionOwner,
    /// The call tree has opened as many sessions as can be numbered.
    TooManySessions,
    /// The context names another chain than the one that executes.
    IncorrectChainId,
    /// What came in is not what the dispatcher was waiting for. A query that
    /// asks to write a register ends in this way too.
    UnexpectedEvent,
}

/// The view of an [`ExecutionError`].
pub enum ExecutionErrorView {
    InvalidOperation,
    InvalidEffect,
    InvalidQuery,
    SystemError(Seq<char>),
    ApplicationResolutionError(Seq<char>),
    LoadError(Seq<char>),
    UserApplicationError(Seq<char>),
    SessionWasNotClosed,
    InvalidSession,
    InvalidSessionOwner,
    TooManySessions,
    IncorrectChainId,
    UnexpectedEvent,
}

impl View for ExecutionError {
    type V = ExecutionErrorView;

    open spec fn view(&self) -> ExecutionErrorView {
        match self {
            ExecutionError::InvalidOperation => ExecutionErrorView::InvalidOperation,
            ExecutionError::InvalidEffect => ExecutionErrorView::InvalidEffect,
            ExecutionError::InvalidQuery => ExecutionErrorView::InvalidQuery,
            ExecutionError::SystemError(message) => ExecutionErrorView::SystemError(message@),
            ExecutionError::ApplicationResolutionError(message) => {
                ExecutionErrorView::ApplicationResolutionError(message@)
            },
            ExecutionError::LoadError(message) => ExecutionErrorView::LoadError(message@),
            ExecutionError::UserApplicationError(message) => {
                ExecutionErrorView::UserApplicationError(message@)
            },
            ExecutionError::SessionWasNotClosed => ExecutionErrorView::SessionWasNotClosed,
            ExecutionError::InvalidSession => ExecutionErrorView::InvalidSession,
            ExecutionError::InvalidSessionOwner => ExecutionErrorView::InvalidSessionOwner,
            ExecutionError::TooManySessions => ExecutionErrorView::TooManySessions,
            ExecutionError::IncorrectChainId => ExecutionErrorView::IncorrectChainId,
            ExecutionError::UnexpectedEvent => ExecutionErrorView::UnexpectedEvent,
        }
    }
}

/// A copy of `bytes`.
pub fn copy_bytes(bytes: &Vec<u8>) -> (copy: Vec<u8>)
    ensures
        copy@ == bytes@,
{
    let mut copy: Vec<u8> = Vec::new();
    let mut i: usize = 0;
    while i < bytes.len()
        invariant
            i <= bytes.len(),
            copy@ == bytes@.take(i as int),
        decreases bytes.len() - i,
    {
        copy.push(bytes[i]);
        i = i + 1;
    }
    copy
}

/// A copy of `description`.
pub fn copy_description(description: &UserApplicationDescription) -> (copy:
    UserApplicationDescription)
    ensures
        copy@ == description@,
{
    let mut ids: Vec<UserApplicationId> = Vec::new();
    let mut i: usize = 0;
    while i < description.required_application_ids.len()
        invariant
            i <= description.required_application_ids.len(),
            ids@ == description.required_application_ids@.take(i as int),
        decreases description.required_application_ids.len() - i,
    {
        ids.push(description.required_application_ids[i]);
        i = i + 1;
    }
    assert(ids@ =~= description.required_application_ids@);
    UserApplicationDescription {
        bytecode_id: description.bytecode_id,
        initialization_argument: copy_bytes(&description.initialization_argument),
        required_application_ids: ids,
    }
}

/// A copy of `descriptions`, in the same order.
pub fn copy_descriptions(descriptions: &Vec<UserApplicationDescription>) -> (copy: Vec<
    UserApplicationDescription,
>)
    ensures
        description_views(copy@) == description_views(descriptions@),
{
    let mut copy: Vec<UserApplicationDescription> = Vec::new();
    let mut i: usize = 0;
    while i < descriptions.len()
        invariant
            i <= descriptions.len(),
            copy@.len() == i,
            forall|j: int| 0 <= j < i ==> (#[trigger] copy@[j])@ == descriptions@[j]@,
        decreases descriptions.len() - i,
    {
        copy.push(copy_description(&descriptions[i]));
        i = i + 1;
    }
    copy
}

/// A copy of `effect`.
pub fn copy_system_effect(effect: &SystemEffect) -> (copy: SystemEffect)
    ensures
        copy@ == effect@,
{
    match effect {
        SystemEffect::RegisterApplications { applications } => {
            SystemEffect::RegisterApplications { applications: copy_descriptions(applications) }
        },
        SystemEffect::Other(bytes) => SystemEffect::Other(copy_bytes(bytes)),
    }
}

} // verus!
