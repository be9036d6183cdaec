//! The requests a control plane sends for one sandbox, and the responses it gets.
//!
//! The coordination core never looks inside these values, with one exception:
//! the bundle directory of a container to create. Everything else is carried to
//! the collaborator that owns it, and back, unchanged.

use vstd::prelude::*;

verus! {

/// Names one process: the container it runs in and, for a process started inside
/// a running container, the identifier given at exec time (empty for the
/// container's own first process).
#[derive(Debug, PartialEq, Eq)]
pub struct ProcessId {
    pub container_id: String,
    pub exec_id: String,
}

impl Clone for ProcessId {
    fn clone(&self) -> (copy: Self)
        ensures
            copy == *self,
    {
        ProcessId { container_id: self.container_id.clone(), exec_id: self.exec_id.clone() }
    }
}

/// Names one container of the sandbox.
#[derive(Debug, PartialEq, Eq)]
pub struct ContainerId {
    pub container_id: String,
}

/// What is needed to create a container: where its bundle lies, and the
/// parameters the container-process manager will read.
#[derive(Debug, PartialEq, Eq)]
pub struct ContainerConfig {
    pub container_id: String,
    /// Directory of the bundle; the container's OCI runtime spec lies in it.
    pub bundle: String,
    pub terminal: bool,
    pub options: Vec<u8>,
}

/// Parameters of a process to start inside a running container.
#[derive(Debug, PartialEq, Eq)]
pub struct ExecProcessRequest {
    pub process: ProcessId,
    pub terminal: bool,
    pub spec: Vec<u8>,
}

/// A signal for one process, or for every process of its container.
#[derive(Debug, PartialEq, Eq)]
pub struct KillRequest {
    pub process: ProcessId,
    pub signal: u32,
    pub all: bool,
}

/// New dimensions for the terminal of a process.
#[derive(Debug, PartialEq, Eq)]
pub struct ResizePtyRequest {
    pub process: ProcessId,
    pub width: u32,
    pub height: u32,
}

/// New resource limits for a container, in their encoded form.
#[derive(Debug, PartialEq, Eq)]
pub struct UpdateRequest {
    pub container_id: String,
    pub value: Vec<u8>,
}

/// A process id of the host: that of the shim which serves a process.
#[derive(Debug, Clone, Copy, PartialEq, Eq)]
pub struct Pid {
    pub pid: u32,
}

#[derive(Debug, Clone, Copy, PartialEq, Eq)]
pub enum ProcessStatus {
    Unknown,
    Created,
    Running,
    Stopped,
    Paused,
    Pausing,
}

/// A snapshot of one process.
#[derive(Debug, PartialEq, Eq)]
pub struct ProcessState {
    pub process: ProcessId,
    pub pid: Pid,
    pub status: ProcessStatus,
    pub exit_code: i32,
}

/// How a process ended.
#[derive(Debug, Clone, Copy, PartialEq, Eq)]
pub struct ExitStatus {
    pub exit_code: i32,
}

/// A snapshot of a container's resource usage, in its encoded form.
#[derive(Debug, PartialEq, Eq)]
pub struct StatsInfo {
    pub value: Vec<u8>,
}

/// How a client reaches the shim that serves a container.
#[derive(Debug, Clone, Copy, PartialEq, Eq)]
pub struct ConnectionInfo {
    pub pid: Pid,
}

/// One request of the control plane.
#[derive(Debug, PartialEq, Eq)]
pub enum Request {
    CreateContainer(ContainerConfig),
    CloseProcessIO(ProcessId),
    DeleteProcess(ProcessId),
    ExecProcess(ExecProcessRequest),
    KillProcess(KillRequest),
    ShutdownContainer(ContainerId),
    WaitProcess(ProcessId),
    StartProcess(ProcessId),
    StateProcess(ProcessId),
    PauseContainer(ContainerId),
    ResumeContainer(ContainerId),
    ResizeProcessPTY(ResizePtyRequest),
    StatsContainer(ContainerId),
    UpdateContainer(UpdateRequest),
    Pid,
    ConnectContainer(ContainerId),
}

/// The answer to a request; each request has the response of the same name.
#[derive(Debug, PartialEq, Eq)]
pub enum Response {
    CreateContainer(Pid),
    CloseProcessIO,
    DeleteProcess(ProcessState),
    ExecProcess,
    KillProcess,
    ShutdownContainer,
    WaitProcess(ExitStatus),
    StartProcess(Pid),
    StateProcess(ProcessState),
    PauseContainer,
    ResumeContainer,
    ResizeProcessPTY,
    StatsContainer(StatsInfo),
    UpdateContainer,
    Pid(Pid),
    ConnectContainer(ConnectionInfo),
}

/// The sixteen operations, without their parameters.
#[derive(Debug, Clone, Copy, PartialEq, Eq, Structural)]
pub enum RequestKind {
    CreateContainer,
    CloseProcessIO,
    DeleteProcess,
    ExecProcess,
    KillProcess,
    ShutdownContainer,
    WaitProcess,
    StartProcess,
    StateProcess,
    PauseContainer,
    ResumeContainer,
    ResizeProcessPTY,
    StatsContainer,
    UpdateContainer,
    Pid,
    ConnectContainer,
}

/// What the container-process manager hands back when an operation succeeds.
#[derive(Debug, PartialEq, Eq)]
pub enum Reply {
    /// The operation has nothing to report.
    Done,
    State(ProcessState),
    Exit(ExitStatus),
    Stats(StatsInfo),
    Pid(Pid),
    Connection(ConnectionInfo),
}

impl Request {
    /// The operation this request asks for.
    pub open spec fn spec_kind(&self) -> RequestKind {
        match *self {
            Request::CreateContainer(_) => RequestKind::CreateContainer,
            Request::CloseProcessIO(_) => RequestKind::CloseProcessIO,
            Request::DeleteProcess(_) => RequestKind::DeleteProcess,
            Request::ExecProcess(_) => RequestKind::ExecProcess,
            Request::KillProcess(_) => RequestKind::KillProcess,
            Request::ShutdownContainer(_) => RequestKind::ShutdownContainer,
            Request::WaitProcess(_) => RequestKind::WaitProcess,
            Request::StartProcess(_) => RequestKind::StartProcess,
            Request::StateProcess(_) => RequestKind::StateProcess,
            Request::PauseContainer(_) => RequestKind::PauseContainer,
            Request::ResumeContainer(_) => RequestKind::ResumeContainer,
            Request::ResizeProcessPTY(_) => RequestKind::ResizeProcessPTY,
            Request::StatsContainer(_) => RequestKind::StatsContainer,
            Request::UpdateContainer(_) => RequestKind::UpdateContainer,
            Request::Pid => RequestKind::Pid,
            Request::ConnectContainer(_) => RequestKind::ConnectContainer,
        }
    }

    #[verifier::when_used_as_spec(spec_kind)]
    pub fn kind(&self) -> (kind: RequestKind)
        ensures
            kind == self.spec_kind(),
    {
        match self {
            Request::CreateContainer(_) => RequestKind::CreateContainer,
            Request::CloseProcessIO(_) => RequestKind::CloseProcessIO,
            Request::DeleteProcess(_) => RequestKind::DeleteProcess,
            Request::ExecProcess(_) => RequestKind::ExecProcess,
            Request::KillProcess(_) => RequestKind::KillProcess,
            Request::ShutdownContainer(_) => RequestKind::ShutdownContainer,
            Request::WaitProcess(_) => RequestKind::WaitProcess,
            Request::StartProcess(_) => RequestKind::StartProcess,
            Request::StateProcess(_) => RequestKind::StateProcess,
            Request::PauseContainer(_) => RequestKind::PauseContainer,
            Request::ResumeContainer(_) => RequestKind::ResumeContainer,
            Request::ResizeProcessPTY(_) => RequestKind::ResizeProcessPTY,
            Request::StatsContainer(_) => RequestKind::StatsContainer,
            Request::UpdateContainer(_) => RequestKind::UpdateContainer,
            Request::Pid => RequestKind::Pid,
            Request::ConnectContainer(_) => RequestKind::ConnectContainer,
        }
    }
}

impl Response {
    /// The operation this response answers.
    pub open spec fn spec_kind(&self) -> RequestKind {
        match *self {
            Response::CreateContainer(_) => RequestKind::CreateContainer,
            Response::CloseProcessIO => RequestKind::CloseProcessIO,
            Response::DeleteProcess(_) => RequestKind::DeleteProcess,
            Response::ExecProcess => RequestKind::ExecProcess,
            Response::KillProcess => RequestKind::KillProcess,
            Response::ShutdownContainer => RequestKind::ShutdownContainer,
            Response::WaitProcess(_) => RequestKind::WaitProcess,
            Response::StartProcess(_) => RequestKind::StartProcess,
            Response::StateProcess(_) => RequestKind::StateProcess,
            Response::PauseContainer => RequestKind::PauseContainer,
            Response::ResumeContainer => RequestKind::ResumeContainer,
            Response::ResizeProcessPTY => RequestKind::ResizeProcessPTY,
            Response::StatsContainer(_) => RequestKind::StatsContainer,
            Response::UpdateContainer => RequestKind::UpdateContainer,
            Response::Pid(_) => RequestKind::Pid,
            Response::ConnectContainer(_) => RequestKind::ConnectContainer,
        }
    }

    #[verifier::when_used_as_spec(spec_kind)]
    pub fn kind(&self) -> (kind: RequestKind)
        ensures
            kind == self.spec_kind(),
    {
        match self {
            Response::CreateContainer(_) => RequestKind::CreateContainer,
            Response::CloseProcessIO => RequestKind::CloseProcessIO,
            Response::DeleteProcess(_) => RequestKind::DeleteProcess,
            Response::ExecProcess => RequestKind::ExecProcess,
            Response::KillProcess => RequestKind::KillProcess,
            Response::ShutdownContainer => RequestKind::ShutdownContainer,
            Response::WaitProcess(_) => RequestKind::WaitProcess,
            Response::StartProcess(_) => RequestKind::StartProcess,
            Response::StateProcess(_) => RequestKind::StateProcess,
            Response::PauseContainer => RequestKind::PauseContainer,
            Response::ResumeContainer => RequestKind::ResumeContainer,
            Response::ResizeProcessPTY => RequestKind::ResizeProcessPTY,
            Response::StatsContainer(_) => RequestKind::StatsContainer,
            Response::UpdateContainer => RequestKind::UpdateContainer,
            Response::Pid(_) => RequestKind::Pid,
            Response::ConnectContainer(_) => RequestKind::ConnectContainer,
        }
    }

    /// The response to an operation of kind `kind` whose collaborator handed
    /// back `reply`: the response of that kind, carrying the reply's payload.
    /// There is none where the reply is not of the shape that the operation
    /// yields.
    pub open spec fn spec_shaped(kind: RequestKind, reply: Reply) -> Option<Response> {
        match (kind, reply) {
            (RequestKind::CreateContainer, Reply::Pid(p)) => Some(Response::CreateContainer(p)),
            (RequestKind::CloseProcessIO, Reply::Done) => Some(Response::CloseProcessIO),
            (RequestKind::DeleteProcess, Reply::State(s)) => Some(Response::DeleteProcess(s)),
            (RequestKind::ExecProcess, Reply::Done) => Some(Response::ExecProcess),
            (RequestKind::KillProcess, Reply::Done) => Some(Response::KillProcess),
            (RequestKind::ShutdownContainer, Reply::Done) => Some(Response::ShutdownContainer),
            (RequestKind::WaitProcess, Reply::Exit(s)) => Some(Response::WaitProcess(s)),
            (RequestKind::StartProcess, Reply::Pid(p)) => Some(Response::StartProcess(p)),
            (RequestKind::StateProcess, Reply::State(s)) => Some(Response::StateProcess(s)),
            (RequestKind::PauseContainer, Reply::Done) => Some(Response::PauseContainer),
            (RequestKind::ResumeContainer, Reply::Done) => Some(Response::ResumeContainer),
            (RequestKind::ResizeProcessPTY, Reply::Done) => Some(Response::ResizeProcessPTY),
            (RequestKind::StatsContainer, Reply::Stats(s)) => Some(Response::StatsContainer(s)),
            (RequestKind::UpdateContainer, Reply::Done) => Some(Response::UpdateContainer),
            (RequestKind::Pid, Reply::Pid(p)) => Some(Response::Pid(p)),
            (RequestKind::ConnectContainer, Reply::Connection(c)) => Some(
                Response::ConnectContainer(c),
            ),
            _ => None,
        }
    }

    #[verifier::when_used_as_spec(spec_shaped)]
    pub fn shaped(kind: RequestKind, reply: Reply) -> (response: Option<Response>)
        ensures
            response == Response::spec_shaped(kind, reply),
            response matches Some(r) ==> r.spec_kind() == kind,
    {
        match (kind, reply) {
            (RequestKind::CreateContainer, Reply::Pid(p)) => Some(Response::CreateContainer(p)),
            (RequestKind::CloseProcessIO, Reply::Done) => Some(Response::CloseProcessIO),
            (RequestKind::DeleteProcess, Reply::State(s)) => Some(Response::DeleteProcess(s)),
            (RequestKind::ExecProcess, Reply::Done) => Some(Response::ExecProcess),
            (RequestKind::KillProcess, Reply::Done) => Some(Response::KillProcess),
            (RequestKind::ShutdownContainer, Reply::Done) => Some(Response::ShutdownContainer),
            (RequestKind::WaitProcess, Reply::Exit(s)) => Some(Response::WaitProcess(s)),
            (RequestKind::StartProcess, Reply::Pid(p)) => Some(Response::StartProcess(p)),
            (RequestKind::StateProcess, Reply::State(s)) => Some(Response::StateProcess(s)),
            (RequestKind::PauseContainer, Reply::Done) => Some(Response::PauseContainer),
            (RequestKind::ResumeContainer, Reply::Done) => Some(Response::ResumeContainer),
            (RequestKind::ResizeProcessPTY, Reply::Done) => Some(Response::ResizeProcessPTY),
            (RequestKind::StatsContainer, Reply::Stats(s)) => Some(Response::StatsContainer(s)),
            (RequestKind::UpdateContainer, Reply::Done) => Some(Response::UpdateContainer),
            (RequestKind::Pid, Reply::Pid(p)) => Some(Response::Pid(p)),
            (RequestKind::ConnectContainer, Reply::Connection(c)) => Some(
                Response::ConnectContainer(c),
            ),
            _ => None,
        }
    }
}

} // verus!
