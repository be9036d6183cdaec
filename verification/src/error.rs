//! Failures of a request, each under the labels of the stages it passed through.

use vstd::prelude::*;
use vstd::string::StringExecFns;
use crate::types::RequestKind;

verus! {

/// The stage at which a failure was met or through which it was handed up.
#[derive(Debug, Clone, Copy, PartialEq, Eq, Structural)]
pub enum Label {
    LoadSpec,
    TryInitRuntimeHandler,
    LoadConfig,
    LoadTomlConfig,
    InitRuntimeHandler,
    InitBackend,
    NewRuntimeInstance,
    StartSandbox,
    StopSandbox,
    HandlerRequest,
    /// The call that serves an operation of this kind.
    Operation(RequestKind),
}

/// A use of the protocol that a correct driver never makes.
#[derive(Debug, Clone, Copy, PartialEq, Eq, Structural)]
pub enum Violation {
    /// A request to create a container reached the general router.
    CreateInRouter,
    /// The event does not answer the call that the session waits for.
    UnexpectedEvent,
    /// The step needs the manager, or exclusive access to it, and was taken
    /// without.
    AccessRequired,
    /// A second instance was about to be published.
    AlreadyInitialized,
}

/// The classes of failure that a caller may want to tell apart.
#[derive(Debug, Clone, Copy, PartialEq, Eq, Structural)]
pub enum ErrorKind {
    /// The container's OCI runtime spec or the configuration could not be read.
    ConfigResolution,
    /// The configuration names a runtime that is not registered.
    UnsupportedBackend,
    /// The backend's setup, or the construction of its instance, failed.
    BringUp,
    /// The sandbox did not start.
    SandboxStart,
    /// An operation arrived before any container was created.
    NotReady,
    /// A collaborator reported a failure of the operation handed to it.
    Delegated,
    /// The protocol was not followed.
    ProtocolViolation,
}

/// Why a request failed. The cause sits innermost; each `Context` around it
/// names a stage that handed the failure up, the outermost last added.
#[derive(Debug, PartialEq, Eq)]
pub enum Error {
    /// No runtime instance exists yet.
    NotReady,
    /// The configured runtime name, which no registered backend bears.
    UnsupportedRuntime(String),
    Violation(Violation),
    /// What a collaborator reported, in its own words.
    Failed(String),
    Context(Label, Box<Error>),
}

impl Label {
    /// The kind of failure that a collaborator's report is, by the stage that
    /// met it.
    pub open spec fn spec_failure_kind(&self) -> ErrorKind {
        match *self {
            Label::LoadSpec
            | Label::LoadConfig
            | Label::LoadTomlConfig => ErrorKind::ConfigResolution,
            Label::TryInitRuntimeHandler
            | Label::InitRuntimeHandler
            | Label::InitBackend
            | Label::NewRuntimeInstance => ErrorKind::BringUp,
            Label::StartSandbox => ErrorKind::SandboxStart,
            Label::StopSandbox
            | Label::HandlerRequest
            | Label::Operation(_) => ErrorKind::Delegated,
        }
    }

    #[verifier::when_used_as_spec(spec_failure_kind)]
    pub fn failure_kind(&self) -> (kind: ErrorKind)
        ensures
            kind == self.spec_failure_kind(),
    {
        match self {
            Label::LoadSpec
            | Label::LoadConfig
            | Label::LoadTomlConfig => ErrorKind::ConfigResolution,
            Label::TryInitRuntimeHandler
            | Label::InitRuntimeHandler
            | Label::InitBackend
            | Label::NewRuntimeInstance => ErrorKind::BringUp,
            Label::StartSandbox => ErrorKind::SandboxStart,
            Label::StopSandbox
            | Label::HandlerRequest
            | Label::Operation(_) => ErrorKind::Delegated,
        }
    }

    /// The words that stand for the label in a message.
    pub open spec fn spec_text(&self) -> Seq<char> {
        match *self {
            Label::LoadSpec => "load spec"@,
            Label::TryInitRuntimeHandler => "try init runtime handler"@,
            Label::LoadConfig => "load config"@,
            Label::LoadTomlConfig => "load toml config"@,
            Label::InitRuntimeHandler => "init runtime handler"@,
            Label::InitBackend => "init backend"@,
            Label::NewRuntimeInstance => "new runtime instance"@,
            Label::StartSandbox => "start sandbox"@,
            Label::StopSandbox => "stop sandbox"@,
            Label::HandlerRequest => "handler request"@,
            Label::Operation(kind) => match kind {
                RequestKind::CreateContainer => "create container"@,
                RequestKind::CloseProcessIO => "close io"@,
                RequestKind::DeleteProcess => "do delete"@,
                RequestKind::ExecProcess => "exec"@,
                RequestKind::KillProcess => "kill process"@,
                RequestKind::ShutdownContainer => "do shutdown"@,
                RequestKind::WaitProcess => "wait process"@,
                RequestKind::StartProcess => "start process"@,
                RequestKind::StateProcess => "state process"@,
                RequestKind::PauseContainer => "pause container"@,
                RequestKind::ResumeContainer => "resume container"@,
                RequestKind::ResizeProcessPTY => "resize pty"@,
                RequestKind::StatsContainer => "stats container"@,
                RequestKind::UpdateContainer => "update container"@,
                RequestKind::Pid => "pid"@,
                RequestKind::ConnectContainer => "connect"@,
            },
        }
    }

    pub fn text(&self) -> (text: &'static str)
        ensures
            text@ == self.spec_text(),
    {
        match self {
            Label::LoadSpec => "load spec",
            Label::TryInitRuntimeHandler => "try init runtime handler",
            Label::LoadConfig => "load config",
            Label::LoadTomlConfig => "load toml config",
            Label::InitRuntimeHandler => "init runtime handler",
            Label::InitBackend => "init backend",
            Label::NewRuntimeInstance => "new runtime instance",
            Label::StartSandbox => "start sandbox",
            Label::StopSandbox => "stop sandbox",
            Label::HandlerRequest => "handler request",
            Label::Operation(kind) => match kind {
                RequestKind::CreateContainer => "create container",
                RequestKind::CloseProcessIO => "close io",
                RequestKind::DeleteProcess => "do delete",
                RequestKind::ExecProcess => "exec",
                RequestKind::KillProcess => "kill process",
                RequestKind::ShutdownContainer => "do shutdown",
                RequestKind::WaitProcess => "wait process",
                RequestKind::StartProcess => "start process",
                RequestKind::StateProcess => "state process",
                RequestKind::PauseContainer => "pause container",
                RequestKind::ResumeContainer => "resume container",
                RequestKind::ResizeProcessPTY => "resize pty",
                RequestKind::StatsContainer => "stats container",
                RequestKind::UpdateContainer => "update container",
                RequestKind::Pid => "pid",
                RequestKind::ConnectContainer => "connect",
            },
        }
    }
}

impl Violation {
    pub open spec fn spec_text(&self) -> Seq<char> {
        match *self {
            Violation::CreateInRouter => "Unreachable request CreateContainer"@,
            Violation::UnexpectedEvent => "unexpected event"@,
            Violation::AccessRequired => "access to the manager required"@,
            Violation::AlreadyInitialized => "runtime already initialized"@,
        }
    }

    pub fn text(&self) -> (text: &'static str)
        ensures
            text@ == self.spec_text(),
    {
        match self {
            Violation::CreateInRouter => "Unreachable request CreateContainer",
            Violation::UnexpectedEvent => "unexpected event",
            Violation::AccessRequired => "access to the manager required",
            Violation::AlreadyInitialized => "runtime already initialized",
        }
    }
}

impl Error {
    /// The failure `self`, handed up through the stage `label`.
    pub fn context(self, label: Label) -> (wrapped: Error)
        ensures
            wrapped == Error::Context(label, Box::new(self)),
    {
        Error::Context(label, Box::new(self))
    }

    /// The labels around the cause, outermost first.
    pub open spec fn spec_labels(&self) -> Seq<Label>
        decreases *self,
    {
        match *self {
            Error::Context(label, inner) => seq![label] + inner.spec_labels(),
            _ => Seq::empty(),
        }
    }

    /// The cause, without the labels around it.
    pub open spec fn spec_cause(&self) -> Error
        decreases *self,
    {
        match *self {
            Error::Context(_, inner) => inner.spec_cause(),
            _ => *self,
        }
    }

    /// The class of the failure: that of its cause; for a collaborator's report,
    /// that of the stage which met it (the innermost label).
    pub open spec fn spec_kind(&self) -> ErrorKind
        decreases *self,
    {
        match *self {
            Error::NotReady => ErrorKind::NotReady,
            Error::UnsupportedRuntime(_) => ErrorKind::UnsupportedBackend,
            Error::Violation(_) => ErrorKind::ProtocolViolation,
            Error::Failed(_) => ErrorKind::Delegated,
            Error::Context(label, inner) => if *inner is Failed {
                label.spec_failure_kind()
            } else {
                inner.spec_kind()
            },
        }
    }

    /// The message: each label, outermost first, then the cause, with a colon
    /// and a space between them.
    pub open spec fn spec_message(&self) -> Seq<char>
        decreases *self,
    {
        match *self {
            Error::NotReady => "runtime not ready"@,
            Error::UnsupportedRuntime(name) => "Unsupported runtime: "@ + name@,
            Error::Violation(violation) => violation.spec_text(),
            Error::Failed(report) => report@,
            Error::Context(label, inner) => label.spec_text() + ": "@ + inner.spec_message(),
        }
    }

    pub fn labels(&self) -> (labels: Vec<Label>)
        ensures
            labels@ == self.spec_labels(),
        decreases *self,
    {
        match self {
            Error::Context(label, inner) => {
                let mut labels: Vec<Label> = Vec::new();
                labels.push(*label);
                let mut rest = inner.labels();
                labels.append(&mut rest);
                labels
            },
            _ => Vec::new(),
        }
    }

    pub fn cause(&self) -> (cause: &Error)
        ensures
            *cause == self.spec_cause(),
            !(*cause is Context),
        decreases *self,
    {
        match self {
            Error::Context(_, inner) => inner.cause(),
            _ => self,
        }
    }

    #[verifier::when_used_as_spec(spec_kind)]
    pub fn kind(&self) -> (kind: ErrorKind)
        ensures
            kind == self.spec_kind(),
        decreases *self,
    {
        match self {
            Error::NotReady => ErrorKind::NotReady,
            Error::UnsupportedRuntime(_) => ErrorKind::UnsupportedBackend,
            Error::Violation(_) => ErrorKind::ProtocolViolation,
            Error::Failed(_) => ErrorKind::Delegated,
            Error::Context(label, inner) => match **inner {
                Error::Failed(_) => label.failure_kind(),
                _ => inner.kind(),
            },
        }
    }

    pub fn message(&self) -> (message: String)
        ensures
            message@ == self.spec_message(),
        decreases *self,
    {
        match self {
            Error::NotReady => String::from_str("runtime not ready"),
            Error::UnsupportedRuntime(name) => {
                let mut message = String::from_str("Unsupported runtime: ");
                message.append(name.as_str());
                message
            },
            Error::Violation(violation) => String::from_str(violation.text()),
            Error::Failed(report) => report.clone(),
            Error::Context(label, inner) => {
                let mut message = String::from_str(label.text());
                message.append(": ");
                let rest = inner.message();
                message.append(rest.as_str());
                message
            },
        }
    }
}

} // verus!

