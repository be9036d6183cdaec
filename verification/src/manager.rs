//! The manager of one sandbox: its state, and the steps that read or change it.

use vstd::prelude::*;
use tokio::sync::mpsc::Sender;
use crate::channel::clone_sender;
use crate::config::{resolve_config_path, KATA_CONF_FILE};
use crate::error::{Error, Label, Violation};
use crate::model;
use crate::model::{ManagerView, Transition};
use crate::protocol::{Call, ContainerCall, Event, SandboxCall, Step};
use crate::registry::Registry;
use crate::session::{fail, proceed, unexpected, Flow, Session, Stage};
use crate::types::{ContainerConfig, Request, RequestKind};
use vstd::string::StringExecFns;

verus! {

/// The state that the lock protects: the sandbox's identity, the sending handle
/// of the event channel, the backends to choose from, and the runtime instance
/// once there is one.
#[verifier::reject_recursive_types(M)]
struct RuntimeHandlerManagerInner<M, I> {
    id: String,
    msg_sender: Sender<M>,
    registry: Registry,
    runtime_instance: Option<I>,
}

/// The manager of one sandbox.
///
/// It brings the sandbox's runtime up on the first request to create a
/// container, once, and routes every later request to the instance. It is meant
/// to live behind a reader-writer lock: [`Self::handler_message`] takes the
/// steps of a session under the write lock, [`Self::handler_request`] those
/// under the read lock, and [`Session::resume`] those that need no lock.
#[verifier::reject_recursive_types(M)]
pub struct RuntimeHandlerManager<M, I> {
    inner: RuntimeHandlerManagerInner<M, I>,
}

impl<M, I> View for RuntimeHandlerManagerInner<M, I> {
    type V = ManagerView<I>;

    closed spec fn view(&self) -> ManagerView<I> {
        ManagerView { id: self.id@, registry: self.registry@, instance: self.runtime_instance }
    }
}

impl<M, I> View for RuntimeHandlerManager<M, I> {
    type V = ManagerView<I>;

    closed spec fn view(&self) -> ManagerView<I> {
        self.inner@
    }
}

/// What a step owes the session's handle: a clone of the manager's instance
/// where the step attaches one, and else the handle that the session had.
pub open spec fn handle_kept<I: Clone>(
    attached: bool,
    instance: Option<I>,
    session: Session<I>,
    next: Session<I>,
) -> bool {
    if attached {
        next.handle matches Some(handle) && instance matches Some(published) && cloned(
            published,
            handle,
        )
    } else {
        next.handle == session.handle
    }
}

/// The router's table, with the request's argument moved into its call.
fn route<I>(delegated: bool, request: Request) -> (next: (Flow<I>, Step))
    ensures
        (next.0, next.1@) == model::route::<I>(delegated, request),
{
    match request {
        Request::CreateContainer(_) => fail(delegated, Error::Violation(Violation::CreateInRouter)),
        Request::CloseProcessIO(process) => proceed(
            delegated,
            Stage::Delegating { kind: RequestKind::CloseProcessIO },
            Call::ContainerManager(ContainerCall::CloseProcessIO(process)),
        ),
        Request::DeleteProcess(process) => proceed(
            delegated,
            Stage::Delegating { kind: RequestKind::DeleteProcess },
            Call::ContainerManager(ContainerCall::DeleteProcess(process)),
        ),
        Request::ExecProcess(exec) => proceed(
            delegated,
            Stage::Delegating { kind: RequestKind::ExecProcess },
            Call::ContainerManager(ContainerCall::ExecProcess(exec)),
        ),
        Request::KillProcess(kill) => proceed(
            delegated,
            Stage::Delegating { kind: RequestKind::KillProcess },
            Call::ContainerManager(ContainerCall::KillProcess(kill)),
        ),
        Request::ShutdownContainer(container) => proceed(
            delegated,
            Stage::QueryingShutdown,
            Call::ContainerManager(ContainerCall::NeedShutdownSandbox(container)),
        ),
        Request::WaitProcess(process) => {
            let waited = process.clone();
            proceed(
                delegated,
                Stage::Waiting { process },
                Call::ContainerManager(ContainerCall::WaitProcess(waited)),
            )
        },
        Request::StartProcess(process) => proceed(
            delegated,
            Stage::Delegating { kind: RequestKind::StartProcess },
            Call::ContainerManager(ContainerCall::StartProcess(process)),
        ),
        Request::StateProcess(process) => proceed(
            delegated,
            Stage::Delegating { kind: RequestKind::StateProcess },
            Call::ContainerManager(ContainerCall::StateProcess(process)),
        ),
        Request::PauseContainer(container) => proceed(
            delegated,
            Stage::Delegating { kind: RequestKind::PauseContainer },
            Call::ContainerManager(ContainerCall::PauseContainer(container)),
        ),
        Request::ResumeContainer(container) => proceed(
            delegated,
            Stage::Delegating { kind: RequestKind::ResumeContainer },
            Call::ContainerManager(ContainerCall::ResumeContainer(container)),
        ),
        Request::ResizeProcessPTY(resize) => proceed(
            delegated,
            Stage::Delegating { kind: RequestKind::ResizeProcessPTY },
            Call::ContainerManager(ContainerCall::ResizeProcessPTY(resize)),
        ),
        Request::StatsContainer(container) => proceed(
            delegated,
            Stage::Delegating { kind: RequestKind::StatsContainer },
            Call::ContainerManager(ContainerCall::StatsContainer(container)),
        ),
        Request::UpdateContainer(update) => proceed(
            delegated,
            Stage::Delegating { kind: RequestKind::UpdateContainer },
            Call::ContainerManager(ContainerCall::UpdateContainer(update)),
        ),
        Request::Pid => proceed(
            delegated,
            Stage::Delegating { kind: RequestKind::Pid },
            Call::ContainerManager(ContainerCall::Pid),
        ),
        Request::ConnectContainer(container) => proceed(
            delegated,
            Stage::Delegating { kind: RequestKind::ConnectContainer },
            Call::ContainerManager(ContainerCall::ConnectContainer(container)),
        ),
    }
}

/// A failure of the bring-up, under the labels of the initialization.
fn init_failure(label: Label, report: String) -> (error: Error)
    ensures
        error == model::init_failure(label, report),
{
    Error::Failed(report).context(label).context(Label::InitRuntimeHandler).context(
        Label::TryInitRuntimeHandler,
    )
}

impl<M, I: Clone> RuntimeHandlerManagerInner<M, I> {
    fn new(id: &str, msg_sender: Sender<M>, registry: Registry) -> (inner: Result<Self, Error>)
        ensures
            inner matches Ok(state) && state@ == (ManagerView::<I> {
                id: id@,
                registry: registry@,
                instance: None,
            }) && state.msg_sender == msg_sender,
    {
        Ok(
            RuntimeHandlerManagerInner {
                id: String::from_str(id),
                msg_sender,
                registry,
                runtime_instance: None,
            },
        )
    }

    /// Chooses the backend for the runtime called `name`, and asks for its
    /// setup.
    fn select_runtime_handler(
        &self,
        delegated: bool,
        config: ContainerConfig,
        name: String,
    ) -> (next: (Flow<I>, Step))
        ensures
            (next.0, next.1@) == model::select_runtime_handler::<I>(
                self@.registry,
                delegated,
                config,
                name,
            ),
    {
        match self.registry.select(name.as_str()) {
            Some(backend) => proceed(
                delegated,
                Stage::InitializingBackend { config, backend },
                Call::InitBackend { backend },
            ),
            None => fail(
                delegated,
                Error::UnsupportedRuntime(name).context(Label::InitRuntimeHandler).context(
                    Label::TryInitRuntimeHandler,
                ),
            ),
        }
    }

    /// The steps of the bring-up, from the backend's setup to the publication
    /// of the instance whose sandbox has started.
    fn init_runtime_handler(&mut self, session: Session<I>, event: Event<I>) -> (next: (
        Session<I>,
        Step,
    ))
        requires
            session.flow.stage is InitializingBackend || session.flow.stage is BuildingInstance
                || session.flow.stage is StartingSandbox,
        ensures
            (Transition { manager: final(self)@, flow: next.0.flow, step: next.1@ })
                == model::init_runtime_handler(old(self)@, session.flow, event),
            final(self).msg_sender == old(self).msg_sender,
            handle_kept(
                model::attaches(old(self)@, session.flow, event),
                final(self)@.instance,
                session,
                next.0,
            ),
    {
        let Session { flow, handle } = session;
        let Flow { delegated, stage } = flow;
        match stage {
            Stage::InitializingBackend { config, backend } => {
                let (flow, step) = match event {
                    Event::BackendInitialized(Ok(_)) => proceed(
                        delegated,
                        Stage::BuildingInstance { config },
                        Call::NewInstance { backend, id: self.id.clone() },
                    ),
                    Event::BackendInitialized(Err(report)) => fail(
                        delegated,
                        init_failure(Label::InitBackend, report),
                    ),
                    _ => unexpected(delegated),
                };
                (Session { flow, handle }, step)
            },
            Stage::BuildingInstance { config } => {
                let (flow, step) = match event {
                    Event::InstanceBuilt(Ok(candidate)) => proceed(
                        delegated,
                        Stage::StartingSandbox { config, candidate },
                        Call::Sandbox(SandboxCall::Start),
                    ),
                    Event::InstanceBuilt(Err(report)) => fail(
                        delegated,
                        init_failure(Label::NewRuntimeInstance, report),
                    ),
                    _ => unexpected(delegated),
                };
                (Session { flow, handle }, step)
            },
            Stage::StartingSandbox { config, candidate } => match event {
                Event::Sandbox(Ok(_)) => if self.runtime_instance.is_none() {
                    self.runtime_instance = Some(candidate);
                    let handle = self.get_runtime_instance();
                    let (flow, step) = proceed(
                        delegated,
                        Stage::Creating,
                        Call::ContainerManager(ContainerCall::CreateContainer(config)),
                    );
                    (Session { flow, handle }, step)
                } else {
                    let (flow, step) = fail(
                        delegated,
                        Error::Violation(Violation::AlreadyInitialized),
                    );
                    (Session { flow, handle }, step)
                },
                Event::Sandbox(Err(report)) => {
                    let (flow, step) = fail(delegated, init_failure(Label::StartSandbox, report));
                    (Session { flow, handle }, step)
                },
                _ => {
                    let (flow, step) = unexpected(delegated);
                    (Session { flow, handle }, step)
                },
            },
            _ => {
                let (flow, step) = unexpected(delegated);
                (Session { flow, handle }, step)
            },
        }
    }

    /// The steps before the bring-up. With an instance in place the session
    /// goes straight on to create its container. Without one, the configuration
    /// is located and loaded, and the backend it names is selected.
    fn try_init(&self, session: Session<I>, event: Event<I>) -> (next: (Session<I>, Step))
        requires
            session.flow.stage is AwaitingExclusive || session.flow.stage is ReadingEnvironment
                || session.flow.stage is LoadingConfig,
        ensures
            (next.0.flow, next.1@) == model::try_init(self@, session.flow, event),
            handle_kept(
                model::attaches(self@, session.flow, event),
                self@.instance,
                session,
                next.0,
            ),
    {
        let Session { flow, handle } = session;
        let Flow { delegated, stage } = flow;
        match stage {
            Stage::AwaitingExclusive { config, spec } => match event {
                Event::Granted => match self.get_runtime_instance() {
                    Some(instance) => {
                        let (flow, step) = proceed(
                            delegated,
                            Stage::Creating,
                            Call::ContainerManager(ContainerCall::CreateContainer(config)),
                        );
                        (Session { flow, handle: Some(instance) }, step)
                    },
                    None => {
                        let (flow, step) = if spec.sandbox_config_path.is_some() {
                            proceed(
                                delegated,
                                Stage::LoadingConfig { config },
                                Call::LoadConfig {
                                    path: resolve_config_path(spec.sandbox_config_path, None),
                                },
                            )
                        } else {
                            proceed(
                                delegated,
                                Stage::ReadingEnvironment { config },
                                Call::ReadEnvironment { name: String::from_str(KATA_CONF_FILE) },
                            )
                        };
                        (Session { flow, handle }, step)
                    },
                },
                _ => {
                    let (flow, step) = unexpected(delegated);
                    (Session { flow, handle }, step)
                },
            },
            Stage::ReadingEnvironment { config } => {
                let (flow, step) = match event {
                    Event::Environment(value) => proceed(
                        delegated,
                        Stage::LoadingConfig { config },
                        Call::LoadConfig { path: resolve_config_path(None, value) },
                    ),
                    _ => unexpected(delegated),
                };
                (Session { flow, handle }, step)
            },
            Stage::LoadingConfig { config } => {
                let (flow, step) = match event {
                    Event::ConfigLoaded(Ok(name)) => self.select_runtime_handler(
                        delegated,
                        config,
                        name,
                    ),
                    Event::ConfigLoaded(Err(report)) => fail(
                        delegated,
                        Error::Failed(report).context(Label::LoadTomlConfig).context(
                            Label::LoadConfig,
                        ).context(Label::TryInitRuntimeHandler),
                    ),
                    _ => unexpected(delegated),
                };
                (Session { flow, handle }, step)
            },
            _ => {
                let (flow, step) = unexpected(delegated);
                (Session { flow, handle }, step)
            },
        }
    }

    /// A clone of the instance, if there is one.
    fn get_runtime_instance(&self) -> (instance: Option<I>)
        ensures
            instance is Some <==> self@.instance is Some,
            instance matches Some(handle) ==> cloned(self@.instance->0, handle),
    {
        self.runtime_instance.clone()
    }
}

impl<M, I: Clone> RuntimeHandlerManager<M, I> {
    /// A manager for the sandbox `id` that has no instance yet. Messages of the
    /// instance it will bring up go to the channel of `msg_sender`; the
    /// backends it may bring up are those of `registry`.
    pub fn new(id: &str, msg_sender: Sender<M>, registry: Registry) -> (manager: Result<
        Self,
        Error,
    >)
        ensures
            manager matches Ok(created) && created@ == (ManagerView::<I> {
                id: id@,
                registry: registry@,
                instance: None,
            }) && created@.valid() && created.event_sink() == msg_sender,
    {
        match RuntimeHandlerManagerInner::new(id, msg_sender, registry) {
            Ok(inner) => {
                let manager = RuntimeHandlerManager { inner };
                proof {
                    manager.lemma_valid();
                }
                Ok(manager)
            },
            Err(error) => Err(error),
        }
    }

    /// Releases what a sandbox that is gone has left behind. There is nothing
    /// to release yet: the call succeeds and does nothing.
    pub fn cleanup(_id: &str) -> (done: Result<(), Error>)
        ensures
            done is Ok,
    {
        Ok(())
    }

    /// Takes a step of a session under exclusive access: a step of the
    /// initialization, or any step that [`Self::handler_request`] takes.
    pub fn handler_message(&mut self, session: Session<I>, event: Event<I>) -> (next: (
        Session<I>,
        Step,
    ))
        ensures
            (Transition { manager: final(self)@, flow: next.0.flow, step: next.1@ })
                == model::handler_message(old(self)@, session.flow, event),
            handle_kept(
                model::attaches(old(self)@, session.flow, event),
                final(self)@.instance,
                session,
                next.0,
            ),
            session.equipped() ==> next.0.equipped(),
            final(self)@.valid(),
            final(self).event_sink() == old(self).event_sink(),
    {
        proof {
            self.lemma_valid();
        }
        match &session.flow.stage {
            Stage::AwaitingExclusive { .. }
            | Stage::ReadingEnvironment { .. }
            | Stage::LoadingConfig { .. } => self.inner.try_init(session, event),
            Stage::InitializingBackend { .. }
            | Stage::BuildingInstance { .. }
            | Stage::StartingSandbox { .. } => self.inner.init_runtime_handler(session, event),
            _ => self.handler_request(session, event),
        }
    }

    /// Takes a step of a session under shared access. A session that waited
    /// for that access is let through to the router's table if an instance
    /// exists, and fails as not ready if none does; any other session takes the
    /// step of [`Session::resume`]. The manager is only read.
    pub fn handler_request(&self, session: Session<I>, event: Event<I>) -> (next: (
        Session<I>,
        Step,
    ))
        ensures
            (next.0.flow, next.1@) == model::handler_request(self@.instance, session.flow, event),
            handle_kept(
                model::admits(self@.instance, session.flow, event),
                self@.instance,
                session,
                next.0,
            ),
            session.equipped() ==> next.0.equipped(),
    {
        let Session { flow, handle } = session;
        let Flow { delegated, stage } = flow;
        match stage {
            Stage::AwaitingShared { request } => match event {
                Event::Granted => match self.inner.get_runtime_instance() {
                    Some(instance) => {
                        let (flow, step) = route(delegated, request);
                        (Session { flow, handle: Some(instance) }, step)
                    },
                    None => {
                        let (flow, step) = fail(delegated, Error::NotReady);
                        (Session { flow, handle }, step)
                    },
                },
                _ => {
                    let (flow, step) = unexpected(delegated);
                    (Session { flow, handle }, step)
                },
            },
            stage => (Session { flow: Flow { delegated, stage }, handle }).resume(event),
        }
    }

    /// A clone of the instance, if there is one.
    pub fn get_runtime_instance(&self) -> (instance: Option<I>)
        ensures
            instance is Some <==> self@.instance is Some,
            instance matches Some(handle) ==> cloned(self@.instance->0, handle),
    {
        self.inner.get_runtime_instance()
    }

    /// Every manager is valid: its backends can be counted.
    pub proof fn lemma_valid(&self)
        ensures
            self@.valid(),
    {
        self.inner.registry.lemma_countable();
    }

    /// The identity of the sandbox.
    pub fn id(&self) -> (id: &String)
        ensures
            id@ == self@.id,
    {
        &self.inner.id
    }

    /// The backends that the manager chooses from.
    pub fn registry(&self) -> (registry: &Registry)
        ensures
            registry@ == self@.registry,
    {
        &self.inner.registry
    }

    /// The sending handle of the event channel that the manager was made with.
    /// No step changes it.
    pub closed spec fn event_sink(&self) -> Sender<M> {
        self.inner.msg_sender
    }

    /// A sending handle of the event channel, for the instance that is built:
    /// a clone of the handle that the manager was made with.
    pub fn msg_sender(&self) -> (handle: Sender<M>)
        ensures
            cloned(self.event_sink(), handle),
    {
        clone_sender(&self.inner.msg_sender)
    }
}

} // verus!
