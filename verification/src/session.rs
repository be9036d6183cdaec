//! A request on its way: where it stands, and the steps that need no manager.

use vstd::prelude::*;
use crate::config::{bundle_spec_path, OciSpec};
use crate::error::{Error, Label, Violation};
use crate::model;
use crate::protocol::{Access, Call, ContainerCall, Event, SandboxCall, Step, Target};
use crate::types::{ContainerConfig, ExitStatus, ProcessId, Reply, Request, RequestKind, Response};

verus! {

/// Where a session stands: the call whose outcome it waits for, and what it
/// keeps for the steps to come.
#[derive(Debug, PartialEq, Eq)]
pub enum Stage<I> {
    /// The container's OCI runtime spec is being read.
    LoadingSpec { config: ContainerConfig },
    /// Waits for exclusive access to the manager.
    AwaitingExclusive { config: ContainerConfig, spec: OciSpec },
    /// No annotation gave a configuration path: the environment is asked.
    ReadingEnvironment { config: ContainerConfig },
    /// The configuration is being loaded.
    LoadingConfig { config: ContainerConfig },
    /// The selected backend runs its one-time setup.
    InitializingBackend { config: ContainerConfig, backend: usize },
    /// The backend builds the instance.
    BuildingInstance { config: ContainerConfig },
    /// The sandbox of the new instance starts; the instance is not published
    /// yet.
    StartingSandbox { config: ContainerConfig, candidate: I },
    /// The container-process manager creates the container.
    Creating,
    /// Waits for shared access to the manager.
    AwaitingShared { request: Request },
    /// The container-process manager serves the one call of this operation.
    Delegating { kind: RequestKind },
    /// Asked whether the sandbox goes down with the container.
    QueryingShutdown,
    /// The sandbox shuts down.
    ShuttingDown,
    /// Waits for the process to exit.
    Waiting { process: ProcessId },
    /// Asked whether the process that exited is the sandbox's own container.
    QueryingSandboxContainer { status: ExitStatus },
    /// The sandbox stops.
    StoppingSandbox { status: ExitStatus },
    /// The session is over.
    Finished,
}

/// The state of a session as the protocol defines it.
#[derive(Debug, PartialEq, Eq)]
pub struct Flow<I> {
    /// Whether the request came to the router through the message entry: its
    /// failures then bear the router's label.
    pub delegated: bool,
    pub stage: Stage<I>,
}

/// A request on its way, with the instance it works on.
#[derive(Debug, PartialEq, Eq)]
pub struct Session<I> {
    pub flow: Flow<I>,
    /// A clone of the manager's instance, taken under the lock when the session
    /// was let through.
    pub handle: Option<I>,
}

impl<I> Stage<I> {
    /// The access to the manager that the session holds at this stage, and with
    /// which its next step is taken.
    pub open spec fn spec_access(&self) -> Access {
        match *self {
            Stage::AwaitingExclusive { .. }
            | Stage::ReadingEnvironment { .. }
            | Stage::LoadingConfig { .. }
            | Stage::InitializingBackend { .. }
            | Stage::BuildingInstance { .. }
            | Stage::StartingSandbox { .. }
            | Stage::Creating => Access::Exclusive,
            Stage::AwaitingShared { .. } => Access::Shared,
            Stage::LoadingSpec { .. }
            | Stage::Delegating { .. }
            | Stage::QueryingShutdown
            | Stage::ShuttingDown
            | Stage::Waiting { .. }
            | Stage::QueryingSandboxContainer { .. }
            | Stage::StoppingSandbox { .. }
            | Stage::Finished => Access::Detached,
        }
    }

    #[verifier::when_used_as_spec(spec_access)]
    pub fn access(&self) -> (access: Access)
        ensures
            access == self.spec_access(),
    {
        match self {
            Stage::AwaitingExclusive { .. }
            | Stage::ReadingEnvironment { .. }
            | Stage::LoadingConfig { .. }
            | Stage::InitializingBackend { .. }
            | Stage::BuildingInstance { .. }
            | Stage::StartingSandbox { .. }
            | Stage::Creating => Access::Exclusive,
            Stage::AwaitingShared { .. } => Access::Shared,
            Stage::LoadingSpec { .. }
            | Stage::Delegating { .. }
            | Stage::QueryingShutdown
            | Stage::ShuttingDown
            | Stage::Waiting { .. }
            | Stage::QueryingSandboxContainer { .. }
            | Stage::StoppingSandbox { .. }
            | Stage::Finished => Access::Detached,
        }
    }

    /// Who serves the call that the session waits for; nobody once it is over.
    pub open spec fn spec_target(&self) -> Option<Target> {
        match *self {
            Stage::LoadingSpec { .. }
            | Stage::AwaitingExclusive { .. }
            | Stage::ReadingEnvironment { .. }
            | Stage::LoadingConfig { .. }
            | Stage::AwaitingShared { .. } => Some(Target::Driver),
            Stage::InitializingBackend { .. } | Stage::BuildingInstance { .. } => Some(
                Target::Backend,
            ),
            Stage::StartingSandbox { .. }
            | Stage::ShuttingDown
            | Stage::StoppingSandbox { .. } => Some(Target::Sandbox),
            Stage::Creating
            | Stage::Delegating { .. }
            | Stage::QueryingShutdown
            | Stage::Waiting { .. }
            | Stage::QueryingSandboxContainer { .. } => Some(Target::ContainerManager),
            Stage::Finished => None,
        }
    }

    #[verifier::when_used_as_spec(spec_target)]
    pub fn target(&self) -> (target: Option<Target>)
        ensures
            target == self.spec_target(),
    {
        match self {
            Stage::LoadingSpec { .. }
            | Stage::AwaitingExclusive { .. }
            | Stage::ReadingEnvironment { .. }
            | Stage::LoadingConfig { .. }
            | Stage::AwaitingShared { .. } => Some(Target::Driver),
            Stage::InitializingBackend { .. } | Stage::BuildingInstance { .. } => Some(
                Target::Backend,
            ),
            Stage::StartingSandbox { .. }
            | Stage::ShuttingDown
            | Stage::StoppingSandbox { .. } => Some(Target::Sandbox),
            Stage::Creating
            | Stage::Delegating { .. }
            | Stage::QueryingShutdown
            | Stage::Waiting { .. }
            | Stage::QueryingSandboxContainer { .. } => Some(Target::ContainerManager),
            Stage::Finished => None,
        }
    }
}

/// The session goes on: it makes `call` and waits at `stage` for the outcome.
pub(crate) fn proceed<I>(delegated: bool, stage: Stage<I>, call: Call) -> (next: (Flow<I>, Step))
    ensures
        (next.0, next.1@) == model::proceed(delegated, stage, call@),
{
    (Flow { delegated, stage }, Step::Perform(call))
}

/// The session ends with `response`.
pub(crate) fn succeed<I>(delegated: bool, response: Response) -> (next: (Flow<I>, Step))
    ensures
        (next.0, next.1@) == model::succeed::<I>(delegated, response),
{
    (Flow { delegated, stage: Stage::Finished }, Step::Done(Ok(response)))
}

/// The session ends with `error`, under the router's label where that is due.
pub(crate) fn fail<I>(delegated: bool, error: Error) -> (next: (Flow<I>, Step))
    ensures
        (next.0, next.1@) == model::fail::<I>(delegated, error),
{
    let error = if delegated {
        error.context(Label::HandlerRequest)
    } else {
        error
    };
    (Flow { delegated, stage: Stage::Finished }, Step::Done(Err(error)))
}

/// The session ends because the event does not answer its call.
pub(crate) fn unexpected<I>(delegated: bool) -> (next: (Flow<I>, Step))
    ensures
        (next.0, next.1@) == model::unexpected::<I>(delegated),
{
    fail(delegated, Error::Violation(Violation::UnexpectedEvent))
}

/// Ends an operation that one call to the container-process manager serves.
fn conclude<I>(delegated: bool, kind: RequestKind, event: Event<I>) -> (next: (Flow<I>, Step))
    ensures
        (next.0, next.1@) == model::conclude(delegated, kind, event),
{
    match event {
        Event::ContainerManager(Ok(reply)) => match Response::shaped(kind, reply) {
            Some(response) => succeed(delegated, response),
            None => unexpected(delegated),
        },
        Event::ContainerManager(Err(report)) => fail(
            delegated,
            Error::Failed(report).context(Label::Operation(kind)),
        ),
        _ => unexpected(delegated),
    }
}

impl<I> Session<I> {
    /// Opens a session for a request that arrives at the message entry, and
    /// gives its first call. A request to create a container has its path taken
    /// here: the OCI runtime spec inside its bundle is read before anything is
    /// locked. Every other request is handed to the router.
    pub fn message(request: Request) -> (opened: (Session<I>, Step))
        ensures
            (opened.0.flow, opened.1@) == model::open_message::<I>(request),
            opened.0.handle is None,
            opened.0.equipped(),
    {
        match request {
            Request::CreateContainer(config) => {
                let path = bundle_spec_path(config.bundle.as_str());
                (
                    Session {
                        flow: Flow { delegated: false, stage: Stage::LoadingSpec { config } },
                        handle: None,
                    },
                    Step::Perform(Call::LoadSpec { path }),
                )
            },
            request => (
                Session {
                    flow: Flow { delegated: true, stage: Stage::AwaitingShared { request } },
                    handle: None,
                },
                Step::Perform(Call::Lock(Access::Shared)),
            ),
        }
    }

    /// Opens a session for a request that arrives at the router directly, and
    /// gives its first call.
    pub fn request(request: Request) -> (opened: (Session<I>, Step))
        ensures
            (opened.0.flow, opened.1@) == model::open_request::<I>(request),
            opened.0.handle is None,
            opened.0.equipped(),
    {
        (
            Session {
                flow: Flow { delegated: false, stage: Stage::AwaitingShared { request } },
                handle: None,
            },
            Step::Perform(Call::Lock(Access::Shared)),
        )
    }

    /// Takes a step without the manager: `event` is the outcome of the call
    /// that the session waited for. A session whose step needs the manager
    /// ends here with a violation.
    pub fn resume(self, event: Event<I>) -> (next: (Session<I>, Step))
        ensures
            (next.0.flow, next.1@) == model::resume(self.flow, event),
            next.0.handle == self.handle,
            self.equipped() ==> next.0.equipped(),
    {
        let Session { flow, handle } = self;
        let Flow { delegated, stage } = flow;
        let (flow, step) = match stage {
            Stage::LoadingSpec { config } => match event {
                Event::SpecLoaded(Ok(spec)) => proceed(
                    delegated,
                    Stage::AwaitingExclusive { config, spec },
                    Call::Lock(Access::Exclusive),
                ),
                Event::SpecLoaded(Err(report)) => fail(
                    delegated,
                    Error::Failed(report).context(Label::LoadSpec),
                ),
                _ => unexpected(delegated),
            },
            Stage::Creating => conclude(delegated, RequestKind::CreateContainer, event),
            Stage::Delegating { kind } => conclude(delegated, kind, event),
            Stage::QueryingShutdown => match event {
                Event::Answer(needed) => if needed {
                    proceed(delegated, Stage::ShuttingDown, Call::Sandbox(SandboxCall::Shutdown))
                } else {
                    succeed(delegated, Response::ShutdownContainer)
                },
                _ => unexpected(delegated),
            },
            Stage::ShuttingDown => match event {
                Event::Sandbox(Ok(_)) => succeed(delegated, Response::ShutdownContainer),
                Event::Sandbox(Err(report)) => fail(
                    delegated,
                    Error::Failed(report).context(Label::Operation(RequestKind::ShutdownContainer)),
                ),
                _ => unexpected(delegated),
            },
            Stage::Waiting { process } => match event {
                Event::ContainerManager(Ok(Reply::Exit(status))) => proceed(
                    delegated,
                    Stage::QueryingSandboxContainer { status },
                    Call::ContainerManager(ContainerCall::IsSandboxContainer(process)),
                ),
                Event::ContainerManager(Err(report)) => fail(
                    delegated,
                    Error::Failed(report).context(Label::Operation(RequestKind::WaitProcess)),
                ),
                _ => unexpected(delegated),
            },
            Stage::QueryingSandboxContainer { status } => match event {
                Event::Answer(own) => if own {
                    proceed(
                        delegated,
                        Stage::StoppingSandbox { status },
                        Call::Sandbox(SandboxCall::Stop),
                    )
                } else {
                    succeed(delegated, Response::WaitProcess(status))
                },
                _ => unexpected(delegated),
            },
            Stage::StoppingSandbox { status } => match event {
                Event::Sandbox(Ok(_)) => succeed(delegated, Response::WaitProcess(status)),
                Event::Sandbox(Err(report)) => fail(
                    delegated,
                    Error::Failed(report).context(Label::StopSandbox),
                ),
                _ => unexpected(delegated),
            },
            Stage::Finished => unexpected(delegated),
            _ => fail(delegated, Error::Violation(Violation::AccessRequired)),
        };
        (Session { flow, handle }, step)
    }

    /// The access to the manager with which the next step is to be taken.
    pub fn access(&self) -> (access: Access)
        ensures
            access == self.flow.stage.spec_access(),
    {
        self.flow.stage.access()
    }

    /// Whether the session is over.
    pub fn is_finished(&self) -> (finished: bool)
        ensures
            finished == (self.flow.stage is Finished),
    {
        match self.flow.stage {
            Stage::Finished => true,
            _ => false,
        }
    }

    /// The instance whose sandbox controller or container-process manager
    /// serves the session's calls: while the sandbox starts, the instance that
    /// is not published yet; else the clone that the session was handed.
    pub open spec fn spec_instance(&self) -> Option<I> {
        match self.flow.stage {
            Stage::StartingSandbox { candidate, .. } => Some(candidate),
            _ => self.handle,
        }
    }

    pub fn instance(&self) -> (instance: Option<&I>)
        ensures
            instance is Some <==> self.spec_instance() is Some,
            instance matches Some(held) ==> *held == self.spec_instance()->0,
    {
        match &self.flow.stage {
            Stage::StartingSandbox { candidate, .. } => Some(candidate),
            _ => self.handle.as_ref(),
        }
    }

    /// Whether the session has the instance that its pending call is for.
    pub open spec fn equipped(&self) -> bool {
        (self.flow.stage.spec_target() == Some(Target::Sandbox) || self.flow.stage.spec_target()
            == Some(Target::ContainerManager)) ==> self.spec_instance() is Some
    }
}

} // verus!
