//! The protocol, as functions of the mathematical state.
//!
//! A session moves in steps. Each step takes the state of the manager, where the
//! session stands and the outcome of the call it waited for, and gives the state
//! of the manager after the step, where the session stands then, and the next
//! call or the session's result. The executable steps are proved to compute
//! exactly these functions.

use vstd::prelude::*;
use crate::config::{config_path, spec_file_path, KATA_CONF_FILE};
use crate::error::{Error, Label, Violation};
use crate::protocol::{Access, CallView, ContainerCall, Event, SandboxCall, StepView};
use crate::registry::selected;
use crate::session::{Flow, Stage};
use crate::types::{ContainerConfig, Reply, Request, RequestKind, Response};

verus! {

/// The manager as the protocol sees it.
pub struct ManagerView<I> {
    /// The identity of the sandbox.
    pub id: Seq<char>,
    /// The names of the registered backends, in order.
    pub registry: Seq<Seq<char>>,
    /// The runtime instance, once one has been brought up.
    pub instance: Option<I>,
}

impl<I> ManagerView<I> {
    /// Whether a manager can look like this: its backends can be counted.
    pub open spec fn valid(self) -> bool {
        self.registry.len() <= usize::MAX
    }
}

/// What a step leads to.
pub struct Transition<I> {
    pub manager: ManagerView<I>,
    pub flow: Flow<I>,
    pub step: StepView,
}

/// `error`, handed up through the stage `label`.
pub open spec fn under(label: Label, error: Error) -> Error {
    Error::Context(label, Box::new(error))
}

/// The session goes on: it makes `call` and waits at `stage` for the outcome.
pub open spec fn proceed<I>(delegated: bool, stage: Stage<I>, call: CallView) -> (
    Flow<I>,
    StepView,
) {
    (Flow { delegated, stage }, StepView::Perform(call))
}

/// The session ends with `response`.
pub open spec fn succeed<I>(delegated: bool, response: Response) -> (Flow<I>, StepView) {
    (Flow { delegated, stage: Stage::Finished }, StepView::Done(Ok(response)))
}

/// The session ends with `error`, which bears the router's label where the
/// request came to the router through the message entry.
pub open spec fn fail<I>(delegated: bool, error: Error) -> (Flow<I>, StepView) {
    (
        Flow { delegated, stage: Stage::Finished },
        StepView::Done(
            Err(
                if delegated {
                    under(Label::HandlerRequest, error)
                } else {
                    error
                },
            ),
        ),
    )
}

/// The session ends because `event` does not answer the call it waited for.
pub open spec fn unexpected<I>(delegated: bool) -> (Flow<I>, StepView) {
    fail(delegated, Error::Violation(Violation::UnexpectedEvent))
}

/// A session for `request` that entered by the message entry. A request to
/// create a container first has its OCI runtime spec read; every other request
/// goes to the router, which first waits for shared access.
pub open spec fn open_message<I>(request: Request) -> (Flow<I>, StepView) {
    match request {
        Request::CreateContainer(config) => (
            Flow { delegated: false, stage: Stage::LoadingSpec { config } },
            StepView::Perform(CallView::LoadSpec { path: spec_file_path(config.bundle@) }),
        ),
        _ => (
            Flow { delegated: true, stage: Stage::AwaitingShared { request } },
            StepView::Perform(CallView::Lock(Access::Shared)),
        ),
    }
}

/// A session for `request` that entered the router directly.
pub open spec fn open_request<I>(request: Request) -> (Flow<I>, StepView) {
    (
        Flow { delegated: false, stage: Stage::AwaitingShared { request } },
        StepView::Perform(CallView::Lock(Access::Shared)),
    )
}

/// The end of an operation of kind `kind` that one call to the container-process
/// manager serves: its response with the payload that the call handed back, or
/// its failure under the operation's label.
pub open spec fn conclude<I>(delegated: bool, kind: RequestKind, event: Event<I>) -> (
    Flow<I>,
    StepView,
) {
    match event {
        Event::ContainerManager(Ok(reply)) => match Response::spec_shaped(kind, reply) {
            Some(response) => succeed(delegated, response),
            None => unexpected(delegated),
        },
        Event::ContainerManager(Err(report)) => fail(
            delegated,
            under(Label::Operation(kind), Error::Failed(report)),
        ),
        _ => unexpected(delegated),
    }
}

/// A step that needs no manager.
pub open spec fn resume<I>(flow: Flow<I>, event: Event<I>) -> (Flow<I>, StepView) {
    match flow.stage {
        Stage::LoadingSpec { config } => match event {
            Event::SpecLoaded(Ok(spec)) => proceed(
                flow.delegated,
                Stage::AwaitingExclusive { config, spec },
                CallView::Lock(Access::Exclusive),
            ),
            Event::SpecLoaded(Err(report)) => fail(
                flow.delegated,
                under(Label::LoadSpec, Error::Failed(report)),
            ),
            _ => unexpected(flow.delegated),
        },
        Stage::Creating => conclude(flow.delegated, RequestKind::CreateContainer, event),
        Stage::Delegating { kind } => conclude(flow.delegated, kind, event),
        Stage::QueryingShutdown => match event {
            Event::Answer(needed) => if needed {
                proceed(
                    flow.delegated,
                    Stage::ShuttingDown,
                    CallView::Sandbox(SandboxCall::Shutdown),
                )
            } else {
                succeed(flow.delegated, Response::ShutdownContainer)
            },
            _ => unexpected(flow.delegated),
        },
        Stage::ShuttingDown => match event {
            Event::Sandbox(Ok(_)) => succeed(flow.delegated, Response::ShutdownContainer),
            Event::Sandbox(Err(report)) => fail(
                flow.delegated,
                under(Label::Operation(RequestKind::ShutdownContainer), Error::Failed(report)),
            ),
            _ => unexpected(flow.delegated),
        },
        Stage::Waiting { process } => match event {
            Event::ContainerManager(Ok(Reply::Exit(status))) => proceed(
                flow.delegated,
                Stage::QueryingSandboxContainer { status },
                CallView::ContainerManager(ContainerCall::IsSandboxContainer(process)),
            ),
            Event::ContainerManager(Err(report)) => fail(
                flow.delegated,
                under(Label::Operation(RequestKind::WaitProcess), Error::Failed(report)),
            ),
            _ => unexpected(flow.delegated),
        },
        Stage::QueryingSandboxContainer { status } => match event {
            Event::Answer(own) => if own {
                proceed(
                    flow.delegated,
                    Stage::StoppingSandbox { status },
                    CallView::Sandbox(SandboxCall::Stop),
                )
            } else {
                succeed(flow.delegated, Response::WaitProcess(status))
            },
            _ => unexpected(flow.delegated),
        },
        Stage::StoppingSandbox { status } => match event {
            Event::Sandbox(Ok(_)) => succeed(flow.delegated, Response::WaitProcess(status)),
            Event::Sandbox(Err(report)) => fail(
                flow.delegated,
                under(Label::StopSandbox, Error::Failed(report)),
            ),
            _ => unexpected(flow.delegated),
        },
        Stage::Finished => unexpected(flow.delegated),
        _ => fail(flow.delegated, Error::Violation(Violation::AccessRequired)),
    }
}

/// The router's table: the first call that serves `request`, and the stage at
/// which the session waits for its outcome.
pub open spec fn route<I>(delegated: bool, request: Request) -> (Flow<I>, StepView) {
    match request {
        Request::CreateContainer(_) => fail(delegated, Error::Violation(Violation::CreateInRouter)),
        Request::CloseProcessIO(process) => proceed(
            delegated,
            Stage::Delegating { kind: RequestKind::CloseProcessIO },
            CallView::ContainerManager(ContainerCall::CloseProcessIO(process)),
        ),
        Request::DeleteProcess(process) => proceed(
            delegated,
            Stage::Delegating { kind: RequestKind::DeleteProcess },
            CallView::ContainerManager(ContainerCall::DeleteProcess(process)),
        ),
        Request::ExecProcess(exec) => proceed(
            delegated,
            Stage::Delegating { kind: RequestKind::ExecProcess },
            CallView::ContainerManager(ContainerCall::ExecProcess(exec)),
        ),
        Request::KillProcess(kill) => proceed(
            delegated,
            Stage::Delegating { kind: RequestKind::KillProcess },
            CallView::ContainerManager(ContainerCall::KillProcess(kill)),
        ),
        Request::ShutdownContainer(container) => proceed(
            delegated,
            Stage::QueryingShutdown,
            CallView::ContainerManager(ContainerCall::NeedShutdownSandbox(container)),
        ),
        Request::WaitProcess(process) => proceed(
            delegated,
            Stage::Waiting { process },
            CallView::ContainerManager(ContainerCall::WaitProcess(process)),
        ),
        Request::StartProcess(process) => proceed(
            delegated,
            Stage::Delegating { kind: RequestKind::StartProcess },
            CallView::ContainerManager(ContainerCall::StartProcess(process)),
        ),
        Request::StateProcess(process) => proceed(
            delegated,
            Stage::Delegating { kind: RequestKind::StateProcess },
            CallView::ContainerManager(ContainerCall::StateProcess(process)),
        ),
        Request::PauseContainer(container) => proceed(
            delegated,
            Stage::Delegating { kind: RequestKind::PauseContainer },
            CallView::ContainerManager(ContainerCall::PauseContainer(container)),
        ),
        Request::ResumeContainer(container) => proceed(
            delegated,
            Stage::Delegating { kind: RequestKind::ResumeContainer },
            CallView::ContainerManager(ContainerCall::ResumeContainer(container)),
        ),
        Request::ResizeProcessPTY(resize) => proceed(
            delegated,
            Stage::Delegating { kind: RequestKind::ResizeProcessPTY },
            CallView::ContainerManager(ContainerCall::ResizeProcessPTY(resize)),
        ),
        Request::StatsContainer(container) => proceed(
            delegated,
            Stage::Delegating { kind: RequestKind::StatsContainer },
            CallView::ContainerManager(ContainerCall::StatsContainer(container)),
        ),
        Request::UpdateContainer(update) => proceed(
            delegated,
            Stage::Delegating { kind: RequestKind::UpdateContainer },
            CallView::ContainerManager(ContainerCall::UpdateContainer(update)),
        ),
        Request::Pid => proceed(
            delegated,
            Stage::Delegating { kind: RequestKind::Pid },
            CallView::ContainerManager(ContainerCall::Pid),
        ),
        Request::ConnectContainer(container) => proceed(
            delegated,
            Stage::Delegating { kind: RequestKind::ConnectContainer },
            CallView::ContainerManager(ContainerCall::ConnectContainer(container)),
        ),
    }
}

/// A step under shared access. A session that waited for that access is routed
/// if an instance exists, and fails as not ready if none does. Any other
/// session takes the step that needs no manager.
pub open spec fn handler_request<I>(instance: Option<I>, flow: Flow<I>, event: Event<I>) -> (
    Flow<I>,
    StepView,
) {
    match flow.stage {
        Stage::AwaitingShared { request } => match event {
            Event::Granted => if instance is Some {
                route(flow.delegated, request)
            } else {
                fail(flow.delegated, Error::NotReady)
            },
            _ => unexpected(flow.delegated),
        },
        _ => resume(flow, event),
    }
}

/// A failure of the bring-up, under the labels of the initialization.
pub open spec fn init_failure(label: Label, report: String) -> Error {
    under(
        Label::TryInitRuntimeHandler,
        under(Label::InitRuntimeHandler, under(label, Error::Failed(report))),
    )
}

/// The choice of the backend for the runtime that the configuration names: the
/// first backend registered under exactly that name, whose setup is then run.
/// A name that no backend bears ends the session as unsupported.
pub open spec fn select_runtime_handler<I>(
    registry: Seq<Seq<char>>,
    delegated: bool,
    config: ContainerConfig,
    name: String,
) -> (Flow<I>, StepView) {
    match selected(registry, name@) {
        Some(backend) => proceed(
            delegated,
            Stage::InitializingBackend { config, backend: backend as usize },
            CallView::InitBackend { backend },
        ),
        None => fail(
            delegated,
            under(
                Label::TryInitRuntimeHandler,
                under(Label::InitRuntimeHandler, Error::UnsupportedRuntime(name)),
            ),
        ),
    }
}

/// The first step of initialization, once exclusive access is held. Where an
/// instance exists nothing is read and nothing is built: the container is
/// created at once. Otherwise the configuration is located: at the path that
/// an annotation of the OCI runtime spec gives, or else where the environment
/// says.
pub open spec fn try_init<I>(manager: ManagerView<I>, flow: Flow<I>, event: Event<I>) -> (
    Flow<I>,
    StepView,
) {
    match flow.stage {
        Stage::AwaitingExclusive { config, spec } => match event {
            Event::Granted => if manager.instance is Some {
                proceed(
                    flow.delegated,
                    Stage::Creating,
                    CallView::ContainerManager(ContainerCall::CreateContainer(config)),
                )
            } else if spec.sandbox_config_path is Some {
                proceed(
                    flow.delegated,
                    Stage::LoadingConfig { config },
                    CallView::LoadConfig { path: config_path(spec.sandbox_config_path, None) },
                )
            } else {
                proceed(
                    flow.delegated,
                    Stage::ReadingEnvironment { config },
                    CallView::ReadEnvironment { name: KATA_CONF_FILE@ },
                )
            },
            _ => unexpected(flow.delegated),
        },
        Stage::ReadingEnvironment { config } => match event {
            Event::Environment(value) => proceed(
                flow.delegated,
                Stage::LoadingConfig { config },
                CallView::LoadConfig { path: config_path(None, value) },
            ),
            _ => unexpected(flow.delegated),
        },
        Stage::LoadingConfig { config } => match event {
            Event::ConfigLoaded(Ok(name)) => select_runtime_handler(
                manager.registry,
                flow.delegated,
                config,
                name,
            ),
            Event::ConfigLoaded(Err(report)) => fail(
                flow.delegated,
                under(
                    Label::TryInitRuntimeHandler,
                    under(Label::LoadConfig, under(Label::LoadTomlConfig, Error::Failed(report))),
                ),
            ),
            _ => unexpected(flow.delegated),
        },
        _ => unexpected(flow.delegated),
    }
}

/// The bring-up of the selected backend: its one-time setup, then the
/// construction of an instance for this sandbox, then the start of the
/// instance's sandbox. Only when the sandbox has started is the instance
/// published; a failure on the way leaves the manager as it was.
pub open spec fn init_runtime_handler<I>(
    manager: ManagerView<I>,
    flow: Flow<I>,
    event: Event<I>,
) -> Transition<I> {
    match flow.stage {
        Stage::InitializingBackend { config, backend } => {
            let (next, step) = match event {
                Event::BackendInitialized(Ok(_)) => proceed(
                    flow.delegated,
                    Stage::BuildingInstance { config },
                    CallView::NewInstance { backend: backend as int, id: manager.id },
                ),
                Event::BackendInitialized(Err(report)) => fail(
                    flow.delegated,
                    init_failure(Label::InitBackend, report),
                ),
                _ => unexpected(flow.delegated),
            };
            Transition { manager, flow: next, step }
        },
        Stage::BuildingInstance { config } => {
            let (next, step) = match event {
                Event::InstanceBuilt(Ok(candidate)) => proceed(
                    flow.delegated,
                    Stage::StartingSandbox { config, candidate },
                    CallView::Sandbox(SandboxCall::Start),
                ),
                Event::InstanceBuilt(Err(report)) => fail(
                    flow.delegated,
                    init_failure(Label::NewRuntimeInstance, report),
                ),
                _ => unexpected(flow.delegated),
            };
            Transition { manager, flow: next, step }
        },
        Stage::StartingSandbox { config, candidate } => match event {
            Event::Sandbox(Ok(_)) => if manager.instance is None {
                let (next, step) = proceed(
                    flow.delegated,
                    Stage::Creating,
                    CallView::ContainerManager(ContainerCall::CreateContainer(config)),
                );
                Transition {
                    manager: ManagerView { instance: Some(candidate), ..manager },
                    flow: next,
                    step,
                }
            } else {
                let (next, step) = fail(
                    flow.delegated,
                    Error::Violation(Violation::AlreadyInitialized),
                );
                Transition { manager, flow: next, step }
            },
            Event::Sandbox(Err(report)) => {
                let (next, step) = fail(flow.delegated, init_failure(Label::StartSandbox, report));
                Transition { manager, flow: next, step }
            },
            _ => {
                let (next, step) = unexpected(flow.delegated);
                Transition { manager, flow: next, step }
            },
        },
        _ => {
            let (next, step) = unexpected(flow.delegated);
            Transition { manager, flow: next, step }
        },
    }
}

/// A step under exclusive access: a step of initialization where the session
/// stands in it, and else the step that shared access allows.
pub open spec fn handler_message<I>(
    manager: ManagerView<I>,
    flow: Flow<I>,
    event: Event<I>,
) -> Transition<I> {
    match flow.stage {
        Stage::AwaitingExclusive { .. }
        | Stage::ReadingEnvironment { .. }
        | Stage::LoadingConfig { .. } => {
            let (next, step) = try_init(manager, flow, event);
            Transition { manager, flow: next, step }
        },
        Stage::InitializingBackend { .. }
        | Stage::BuildingInstance { .. }
        | Stage::StartingSandbox { .. } => init_runtime_handler(manager, flow, event),
        _ => {
            let (next, step) = handler_request(manager.instance, flow, event);
            Transition { manager, flow: next, step }
        },
    }
}

/// Whether a step under shared access hands the session a clone of the
/// manager's instance: the step that lets a request through to the router.
pub open spec fn admits<I>(instance: Option<I>, flow: Flow<I>, event: Event<I>) -> bool {
    flow.stage is AwaitingShared && event is Granted && instance is Some
}

/// Whether a step under exclusive access hands the session a clone of the
/// manager's instance: a step that shared access allows and that does so, the
/// step that finds the runtime already up, and the step that publishes a new
/// instance.
pub open spec fn attaches<I>(manager: ManagerView<I>, flow: Flow<I>, event: Event<I>) -> bool {
    match flow.stage {
        Stage::AwaitingExclusive { .. } => event is Granted && manager.instance is Some,
        Stage::StartingSandbox { .. } => event matches Event::Sandbox(Ok(_))
            && manager.instance is None,
        _ => admits(manager.instance, flow, event),
    }
}

} // verus!
