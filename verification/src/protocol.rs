//! What passes between the coordination core and its driver.
//!
//! The core decides; it performs no outside work itself. Each step of a session
//! ends in a [`Step`]: either the one [`Call`] that the driver is to make next,
//! or the end of the session with its result. The driver makes the call and
//! hands its outcome back as an [`Event`].

use vstd::prelude::*;
use crate::config::OciSpec;
use crate::error::Error;
use crate::types::{
    ContainerConfig, ContainerId, ExecProcessRequest, KillRequest, ProcessId, Reply,
    ResizePtyRequest, Response, UpdateRequest,
};

verus! {

/// How much of the manager a session holds.
#[derive(Debug, Clone, Copy, PartialEq, Eq, Structural)]
pub enum Access {
    /// Nothing: the session reads and writes no manager state.
    Detached,
    /// Read access, which any number of sessions may hold at once.
    Shared,
    /// Write access, which one session holds alone.
    Exclusive,
}

/// Who serves a call.
#[derive(Debug, Clone, Copy, PartialEq, Eq, Structural)]
pub enum Target {
    /// The driver itself: the lock around the manager, files, the environment.
    Driver,
    /// The runtime backend that was selected.
    Backend,
    /// The sandbox controller of the instance.
    Sandbox,
    /// The container-process manager of the instance.
    ContainerManager,
}

/// A call to the sandbox controller.
#[derive(Debug, Clone, Copy, PartialEq, Eq, Structural)]
pub enum SandboxCall {
    Start,
    Stop,
    Shutdown,
}

/// A call to the container-process manager, with its argument.
#[derive(Debug, PartialEq, Eq)]
pub enum ContainerCall {
    CreateContainer(ContainerConfig),
    CloseProcessIO(ProcessId),
    DeleteProcess(ProcessId),
    ExecProcess(ExecProcessRequest),
    KillProcess(KillRequest),
    /// Asks whether the sandbox is to shut down when this container does.
    NeedShutdownSandbox(ContainerId),
    WaitProcess(ProcessId),
    /// Asks whether this process is the sandbox's own container.
    IsSandboxContainer(ProcessId),
    StartProcess(ProcessId),
    StateProcess(ProcessId),
    PauseContainer(ContainerId),
    ResumeContainer(ContainerId),
    ResizeProcessPTY(ResizePtyRequest),
    StatsContainer(ContainerId),
    UpdateContainer(UpdateRequest),
    Pid,
    ConnectContainer(ContainerId),
}

/// The outside work that a session asks of its driver.
#[derive(Debug, PartialEq, Eq)]
pub enum Call {
    /// Wait for this access to the manager, then take the next step with it.
    Lock(Access),
    /// Read the container's OCI runtime spec at `path`.
    LoadSpec { path: String },
    /// Read the environment variable `name`.
    ReadEnvironment { name: String },
    /// Load the configuration at `path`; an empty path stands for the default
    /// location.
    LoadConfig { path: String },
    /// Run the one-time setup of the backend at this place of the registry.
    InitBackend { backend: usize },
    /// Let that backend build an instance for the sandbox `id`, with a sending
    /// handle of the manager's event channel.
    NewInstance { backend: usize, id: String },
    /// Call the sandbox controller of the session's instance.
    Sandbox(SandboxCall),
    /// Call the container-process manager of the session's instance.
    ContainerManager(ContainerCall),
}

/// A [`Call`] as contracts speak of it: its paths and names as sequences of
/// characters.
pub enum CallView {
    Lock(Access),
    LoadSpec { path: Seq<char> },
    ReadEnvironment { name: Seq<char> },
    LoadConfig { path: Seq<char> },
    InitBackend { backend: int },
    NewInstance { backend: int, id: Seq<char> },
    Sandbox(SandboxCall),
    ContainerManager(ContainerCall),
}

/// The outcome of a call. A failure comes as the collaborator's report.
#[derive(Debug, PartialEq, Eq)]
pub enum Event<I> {
    /// The access asked for is held.
    Granted,
    SpecLoaded(Result<OciSpec, String>),
    /// The value of the environment variable, if it is set.
    Environment(Option<String>),
    /// The runtime name that the configuration gives.
    ConfigLoaded(Result<String, String>),
    BackendInitialized(Result<(), String>),
    InstanceBuilt(Result<I, String>),
    Sandbox(Result<(), String>),
    ContainerManager(Result<Reply, String>),
    /// The container-process manager's answer to a yes-or-no question.
    Answer(bool),
}

/// How a step of a session ends.
#[derive(Debug, PartialEq, Eq)]
pub enum Step {
    /// The driver makes this call and hands its outcome to the next step.
    Perform(Call),
    /// The session is over, and this is what the request's sender gets.
    Done(Result<Response, Error>),
}

/// A [`Step`] as contracts speak of it.
pub enum StepView {
    Perform(CallView),
    Done(Result<Response, Error>),
}

impl Access {
    /// Whether one session may hold `self` while another holds `other`.
    pub open spec fn spec_compatible(&self, other: Access) -> bool {
        *self is Detached || other is Detached || (*self is Shared && other is Shared)
    }

    #[verifier::when_used_as_spec(spec_compatible)]
    pub fn compatible(&self, other: Access) -> (both: bool)
        ensures
            both == self.spec_compatible(other),
    {
        match (self, other) {
            (Access::Detached, _) => true,
            (_, Access::Detached) => true,
            (Access::Shared, Access::Shared) => true,
            _ => false,
        }
    }
}

impl View for Call {
    type V = CallView;

    open spec fn view(&self) -> CallView {
        match *self {
            Call::Lock(access) => CallView::Lock(access),
            Call::LoadSpec { path } => CallView::LoadSpec { path: path@ },
            Call::ReadEnvironment { name } => CallView::ReadEnvironment { name: name@ },
            Call::LoadConfig { path } => CallView::LoadConfig { path: path@ },
            Call::InitBackend { backend } => CallView::InitBackend { backend: backend as int },
            Call::NewInstance { backend, id } => CallView::NewInstance {
                backend: backend as int,
                id: id@,
            },
            Call::Sandbox(call) => CallView::Sandbox(call),
            Call::ContainerManager(call) => CallView::ContainerManager(call),
        }
    }
}

impl CallView {
    pub open spec fn target(self) -> Target {
        match self {
            CallView::Lock(_)
            | CallView::LoadSpec { .. }
            | CallView::ReadEnvironment { .. }
            | CallView::LoadConfig { .. } => Target::Driver,
            CallView::InitBackend { .. } | CallView::NewInstance { .. } => Target::Backend,
            CallView::Sandbox(_) => Target::Sandbox,
            CallView::ContainerManager(_) => Target::ContainerManager,
        }
    }
}

impl Call {
    /// Who is to serve the call.
    pub fn target(&self) -> (target: Target)
        ensures
            target == self@.target(),
    {
        match self {
            Call::Lock(_)
            | Call::LoadSpec { .. }
            | Call::ReadEnvironment { .. }
            | Call::LoadConfig { .. } => Target::Driver,
            Call::InitBackend { .. } | Call::NewInstance { .. } => Target::Backend,
            Call::Sandbox(_) => Target::Sandbox,
            Call::ContainerManager(_) => Target::ContainerManager,
        }
    }
}

impl View for Step {
    type V = StepView;

    open spec fn view(&self) -> StepView {
        match *self {
            Step::Perform(call) => StepView::Perform(call@),
            Step::Done(result) => StepView::Done(result),
        }
    }
}

} // verus!
