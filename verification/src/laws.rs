//! What holds of every session, whatever the outside world does.

use vstd::prelude::*;
use crate::error::{Error, ErrorKind, Label};
use crate::config::{config_path, spec_file_path, KATA_CONF_FILE};
use crate::model::{
    handler_message, handler_request, open_message, open_request, resume, under, ManagerView,
    Transition,
};
use crate::protocol::{Access, CallView, ContainerCall, Event, SandboxCall, StepView, Target};
use crate::registry::{lemma_selected, selected};
use crate::session::{Flow, Stage};
use crate::trace::{create, create_all, play, run, serve, serve_request, Creation};
use crate::types::{
    ContainerConfig, ContainerId, ProcessId, Reply, Request, RequestKind, Response,
};

verus! {

/// The access that a stage names is enough for its step: with no more than
/// shared access the step is the router's and leaves the manager as it was, and
/// a session that holds nothing takes the step that needs no manager.
pub proof fn law_named_access_suffices<I>(manager: ManagerView<I>, flow: Flow<I>, event: Event<I>)
    ensures
        flow.stage.spec_access() != Access::Exclusive ==> handler_message(manager, flow, event) == (
        Transition {
            manager,
            flow: handler_request(manager.instance, flow, event).0,
            step: handler_request(manager.instance, flow, event).1,
        }),
        flow.stage.spec_access() == Access::Detached ==> handler_request(
            manager.instance,
            flow,
            event,
        ) == resume(flow, event),
{
}

/// No step changes the sandbox's identity or the registry, and none replaces
/// or clears an instance. The one step that changes the manager publishes the
/// instance whose sandbox has just started, where there was none.
pub proof fn law_instance_never_replaced<I>(manager: ManagerView<I>, flow: Flow<I>, event: Event<I>)
    ensures
        ({
            let after = handler_message(manager, flow, event).manager;
            &&& after.id == manager.id
            &&& after.registry == manager.registry
            &&& manager.instance is Some ==> after == manager
            &&& after != manager ==> {
                &&& manager.instance is None
                &&& event matches Event::Sandbox(Ok(_))
                &&& flow.stage matches Stage::StartingSandbox { candidate, .. }
                &&& after.instance == Some(candidate)
            }
        }),
{
}

/// Over any number of steps, an instance that exists stays in place, and a
/// manager without one keeps its identity and its registry.
pub proof fn law_run_keeps_instance<I>(
    manager: ManagerView<I>,
    flow: Flow<I>,
    events: Seq<Event<I>>,
)
    ensures
        run(manager, flow, events).manager.id == manager.id,
        run(manager, flow, events).manager.registry == manager.registry,
        manager.instance is Some ==> run(manager, flow, events).manager == manager,
    decreases events.len(),
{
    if events.len() > 0 {
        let taken = handler_message(manager, flow, events[0]);
        law_instance_never_replaced(manager, flow, events[0]);
        law_run_keeps_instance(taken.manager, taken.flow, events.drop_first());
    }
}

/// An operation that arrives before any instance exists fails as not ready.
/// Its session asks for shared access and for nothing else, so no collaborator
/// is called, and the manager is as it was. A request that enters the router
/// directly fares the same, a request to create a container included.
pub proof fn law_not_ready_guard<I>(
    manager: ManagerView<I>,
    request: Request,
    events: Seq<Event<I>>,
)
    requires
        manager.instance is None,
        events.len() >= 1,
    ensures
        !(request is CreateContainer) ==> {
            let served = serve(manager, request, events);
            &&& served.calls == seq![CallView::Lock(Access::Shared)]
            &&& served.manager == manager
            &&& served.flow.stage is Finished
            &&& served.result matches Some(Err(_))
            &&& events[0] is Granted ==> served.result == Some(
                Err::<Response, Error>(under(Label::HandlerRequest, Error::NotReady)),
            )
        },
        ({
            let served = serve_request(manager, request, events);
            &&& served.calls == seq![CallView::Lock(Access::Shared)]
            &&& served.manager == manager
            &&& served.flow.stage is Finished
            &&& served.result matches Some(Err(_))
            &&& events[0] is Granted ==> served.result == Some(
                Err::<Response, Error>(Error::NotReady),
            )
        }),
{
    reveal_with_fuel(run, 2);
}

/// Whether a session has been let through by the router, or is over.
pub open spec fn routed<I>(stage: Stage<I>) -> bool {
    stage is Delegating || stage is QueryingShutdown || stage is ShuttingDown || stage is Waiting
        || stage is QueryingSandboxContainer || stage is StoppingSandbox || stage is Finished
}

/// A session that the router has let through holds nothing from then on, and
/// leaves the manager alone.
pub proof fn law_routed_stays_detached<I>(
    manager: ManagerView<I>,
    flow: Flow<I>,
    events: Seq<Event<I>>,
)
    requires
        routed(flow.stage),
    ensures
        routed(run(manager, flow, events).flow.stage),
        run(manager, flow, events).flow.stage.spec_access() == Access::Detached,
        run(manager, flow, events).manager == manager,
    decreases events.len(),
{
    if events.len() > 0 {
        let taken = handler_message(manager, flow, events[0]);
        law_routed_stays_detached(taken.manager, taken.flow, events.drop_first());
    }
}

/// Operations do not wait for one another at the manager. The session of an
/// operation only ever asks for shared access, which any number of sessions may
/// hold at once; it takes a single step with it, in which the manager is not
/// changed; and from then on, that is whenever one of its calls to a
/// collaborator is under way, it holds nothing at all.
pub proof fn law_operations_share_the_manager<I>(
    manager: ManagerView<I>,
    request: Request,
    events: Seq<Event<I>>,
)
    requires
        !(request is CreateContainer),
    ensures
        open_message::<I>(request).0.stage.spec_access() == Access::Shared,
        open_message::<I>(request).1 == StepView::Perform(CallView::Lock(Access::Shared)),
        Access::Shared.spec_compatible(Access::Shared),
        serve(manager, request, events).manager == manager,
        events.len() >= 1 ==> serve(manager, request, events).flow.stage.spec_access()
            == Access::Detached,
{
    if events.len() >= 1 {
        let flow = open_message::<I>(request).0;
        let taken = handler_message(manager, flow, events[0]);
        law_routed_stays_detached(taken.manager, taken.flow, events.drop_first());
        reveal_with_fuel(run, 1);
    }
}

/// The operation that a session at `stage` serves; none once it is over.
pub open spec fn serving<I>(stage: Stage<I>) -> Option<RequestKind> {
    match stage {
        Stage::LoadingSpec { .. }
        | Stage::AwaitingExclusive { .. }
        | Stage::ReadingEnvironment { .. }
        | Stage::LoadingConfig { .. }
        | Stage::InitializingBackend { .. }
        | Stage::BuildingInstance { .. }
        | Stage::StartingSandbox { .. }
        | Stage::Creating => Some(RequestKind::CreateContainer),
        Stage::AwaitingShared { request } => Some(request.spec_kind()),
        Stage::Delegating { kind } => Some(kind),
        Stage::QueryingShutdown | Stage::ShuttingDown => Some(RequestKind::ShutdownContainer),
        Stage::Waiting { .. }
        | Stage::QueryingSandboxContainer { .. }
        | Stage::StoppingSandbox { .. } => Some(RequestKind::WaitProcess),
        Stage::Finished => None,
    }
}

/// A session that ends well ends with the response of the operation it serves.
pub proof fn law_run_answers_in_kind<I>(
    manager: ManagerView<I>,
    flow: Flow<I>,
    events: Seq<Event<I>>,
)
    ensures
        run(manager, flow, events).result matches Some(Ok(response)) ==> serving(flow.stage)
            == Some(response.spec_kind()),
    decreases events.len(),
{
    if events.len() > 0 {
        let taken = handler_message(manager, flow, events[0]);
        if taken.step is Perform {
            law_run_answers_in_kind(taken.manager, taken.flow, events.drop_first());
        }
    }
}

/// Each request gets the response of its own name, or a failure: whatever the
/// outside world does, a session never answers one operation with the response
/// of another.
pub proof fn law_response_matches_request<I>(
    manager: ManagerView<I>,
    request: Request,
    events: Seq<Event<I>>,
)
    ensures
        serve(manager, request, events).result matches Some(Ok(response))
            ==> response.spec_kind() == request.spec_kind(),
        serve_request(manager, request, events).result matches Some(Ok(response))
            ==> response.spec_kind() == request.spec_kind(),
{
    law_run_answers_in_kind(manager, open_message::<I>(request).0, events);
    law_run_answers_in_kind(manager, open_request::<I>(request).0, events);
}

/// The sandbox shuts down with the container that governs it, and with no
/// other. The session of a request to shut a container down first asks the
/// container-process manager whether the sandbox is to go down too. Where the
/// answer is yes, the sandbox controller is told to shut down, once, and the
/// session ends well when it has. Where the answer is no, or never comes, the
/// sandbox controller is not called at all.
pub proof fn law_shutdown_coupling<I>(
    manager: ManagerView<I>,
    container: ContainerId,
    events: Seq<Event<I>>,
)
    requires
        manager.instance is Some,
    ensures
        ({
            let served = serve(manager, Request::ShutdownContainer(container), events);
            let lock = CallView::Lock(Access::Shared);
            let query = CallView::ContainerManager(ContainerCall::NeedShutdownSandbox(container));
            let shutdown = CallView::Sandbox(SandboxCall::Shutdown);
            let asked = events.len() >= 2 && events[0] is Granted;
            let governing = asked && events[1] == Event::<I>::Answer(true);
            &&& served.manager == manager
            &&& governing ==> served.calls == seq![lock, query, shutdown]
            &&& !governing ==> forall|i: int|
                0 <= i < served.calls.len() ==> served.calls[i].target() != Target::Sandbox
            &&& asked && events[1] == Event::<I>::Answer(false) ==> {
                &&& served.calls == seq![lock, query]
                &&& served.result == Some(Ok::<Response, Error>(Response::ShutdownContainer))
            }
            &&& governing && events.len() >= 3 && events[2] is Sandbox ==> served.result == Some(
                match events[2]->Sandbox_0 {
                    Ok(_) => Ok::<Response, Error>(Response::ShutdownContainer),
                    Err(report) => Err(
                        under(
                            Label::HandlerRequest,
                            under(
                                Label::Operation(RequestKind::ShutdownContainer),
                                Error::Failed(report),
                            ),
                        ),
                    ),
                },
            )
        }),
{
    reveal_with_fuel(run, 4);
}

/// The sandbox stops when its own container has exited, and not before. The
/// session of a request to wait for a process first waits for the process and
/// takes its exit status; only then does it ask whether the process is the
/// sandbox's own container. Where it is, the sandbox controller is told to
/// stop, once, after the exit status is in hand. Where it is not, the sandbox
/// controller is not called at all. Either way a session that ends well
/// answers with the exit status that the wait gave.
pub proof fn law_wait_coupling<I>(
    manager: ManagerView<I>,
    process: ProcessId,
    events: Seq<Event<I>>,
)
    requires
        manager.instance is Some,
    ensures
        ({
            let served = serve(manager, Request::WaitProcess(process), events);
            let lock = CallView::Lock(Access::Shared);
            let wait = CallView::ContainerManager(ContainerCall::WaitProcess(process));
            let query = CallView::ContainerManager(ContainerCall::IsSandboxContainer(process));
            let stop = CallView::Sandbox(SandboxCall::Stop);
            let exited = events.len() >= 3 && events[0] is Granted
                && events[1] matches Event::ContainerManager(Ok(Reply::Exit(_)));
            let own = exited && events[2] == Event::<I>::Answer(true);
            &&& served.manager == manager
            &&& own ==> served.calls == seq![lock, wait, query, stop]
            &&& !own ==> forall|i: int|
                0 <= i < served.calls.len() ==> served.calls[i].target() != Target::Sandbox
            &&& exited && events[2] == Event::<I>::Answer(false) ==> {
                &&& served.calls == seq![lock, wait, query]
                &&& events[1] matches Event::ContainerManager(Ok(Reply::Exit(status)))
                &&& served.result == Some(Ok::<Response, Error>(Response::WaitProcess(status)))
            }
            &&& own && events.len() >= 4 && events[3] is Sandbox ==> {
                &&& events[1] matches Event::ContainerManager(Ok(Reply::Exit(status)))
                &&& served.result == Some(
                    match events[3]->Sandbox_0 {
                        Ok(_) => Ok::<Response, Error>(Response::WaitProcess(status)),
                        Err(report) => Err(
                            under(
                                Label::HandlerRequest,
                                under(Label::StopSandbox, Error::Failed(report)),
                            ),
                        ),
                    },
                )
            }
            &&& served.result matches Some(Ok(response)) ==> {
                &&& exited
                &&& events[1] matches Event::ContainerManager(Ok(Reply::Exit(status)))
                &&& response == Response::WaitProcess(status)
            }
        }),
{
    reveal_with_fuel(run, 5);
}

/// Whether a call belongs to the bring-up of the runtime: locating and loading
/// the configuration, the backend's setup, the construction of the instance,
/// the start of its sandbox.
pub open spec fn brings_up(call: CallView) -> bool {
    call is ReadEnvironment || call is LoadConfig || call is InitBackend || call is NewInstance
        || call == CallView::Sandbox(SandboxCall::Start)
}

/// Whether a session stands in the middle of the bring-up.
pub open spec fn bringing_up<I>(stage: Stage<I>) -> bool {
    stage is ReadingEnvironment || stage is LoadingConfig || stage is InitializingBackend
        || stage is BuildingInstance || stage is StartingSandbox
}

/// With an instance in place, no session that is not already in the middle of a
/// bring-up enters one: none of its calls belongs to a bring-up.
pub proof fn law_ready_run_brings_nothing_up<I>(
    manager: ManagerView<I>,
    flow: Flow<I>,
    events: Seq<Event<I>>,
)
    requires
        manager.instance is Some,
        !bringing_up(flow.stage),
    ensures
        !bringing_up(run(manager, flow, events).flow.stage),
        forall|i: int|
            0 <= i < run(manager, flow, events).calls.len() ==> !brings_up(
                #[trigger] run(manager, flow, events).calls[i],
            ),
    decreases events.len(),
{
    if events.len() > 0 {
        let taken = handler_message(manager, flow, events[0]);
        law_ready_run_brings_nothing_up(taken.manager, taken.flow, events.drop_first());
    }
}

/// Initialization happens once. Once an instance exists, no request brings the
/// runtime up again, whatever the request and whatever the outside world does:
/// the configuration is not read again, no backend is set up, no instance is
/// built, no sandbox is started, and the instance stays the one it was.
pub proof fn law_initialized_once<I>(
    manager: ManagerView<I>,
    request: Request,
    events: Seq<Event<I>>,
)
    requires
        manager.instance is Some,
    ensures
        serve(manager, request, events).manager == manager,
        forall|i: int|
            0 <= i < serve(manager, request, events).calls.len() ==> !brings_up(
                #[trigger] serve(manager, request, events).calls[i],
            ),
{
    let flow = open_message::<I>(request).0;
    law_ready_run_brings_nothing_up(manager, flow, events);
    law_run_keeps_instance(manager, flow, events);
}

/// The calls of a session that creates a container where no instance exists
/// and every call succeeds: the whole bring-up, each of its calls once, and
/// then the creation.
pub open spec fn cold_calls<I>(manager: ManagerView<I>, creation: Creation<I>) -> Seq<CallView> {
    let backend = selected(manager.registry, creation.world.runtime@)->0;
    let located = if creation.world.spec.sandbox_config_path is Some {
        seq![
            CallView::LoadConfig {
                path: config_path(creation.world.spec.sandbox_config_path, None),
            },
        ]
    } else {
        seq![
            CallView::ReadEnvironment { name: KATA_CONF_FILE@ },
            CallView::LoadConfig {
                path: config_path(None, creation.world.environment),
            },
        ]
    };
    seq![
        CallView::LoadSpec { path: spec_file_path(creation.config.bundle@) },
        CallView::Lock(Access::Exclusive),
    ] + located + seq![
        CallView::InitBackend { backend },
        CallView::NewInstance { backend, id: manager.id },
        CallView::Sandbox(SandboxCall::Start),
        CallView::ContainerManager(ContainerCall::CreateContainer(creation.config)),
    ]
}

/// The calls of a session that creates a container where an instance exists.
pub open spec fn warm_calls<I>(creation: Creation<I>) -> Seq<CallView> {
    seq![
        CallView::LoadSpec { path: spec_file_path(creation.config.bundle@) },
        CallView::Lock(Access::Exclusive),
        CallView::ContainerManager(ContainerCall::CreateContainer(creation.config)),
    ]
}

/// Where no instance exists, the runtime that the configuration names is
/// registered and every call succeeds, a request to create a container brings
/// the runtime up, publishes the instance that the backend built, and creates
/// the container.
pub proof fn law_cold_creation<I>(manager: ManagerView<I>, creation: Creation<I>, limit: nat)
    requires
        manager.valid(),
        manager.instance is None,
        selected(manager.registry, creation.world.runtime@) is Some,
        limit >= 8,
    ensures
        ({
            let created = create(manager, creation, limit);
            &&& created.calls == cold_calls(manager, creation)
            &&& created.result == Some(
                Ok::<Response, Error>(Response::CreateContainer(creation.world.created)),
            )
            &&& created.manager == (ManagerView {
                instance: Some(creation.world.instance),
                ..manager
            })
        }),
{
    reveal_with_fuel(play, 9);
    lemma_selected(manager.registry, creation.world.runtime@);
}

/// Where an instance exists and every call succeeds, a request to create a
/// container creates it on that instance, and nothing else happens.
pub proof fn law_warm_creation<I>(manager: ManagerView<I>, creation: Creation<I>, limit: nat)
    requires
        manager.instance is Some,
        limit >= 3,
    ensures
        ({
            let created = create(manager, creation, limit);
            &&& created.calls == warm_calls(creation)
            &&& created.result == Some(
                Ok::<Response, Error>(Response::CreateContainer(creation.world.created)),
            )
            &&& created.manager == manager
        }),
{
    reveal_with_fuel(play, 4);
}

/// Any number of requests to create a container, served on an instance that
/// exists: each creates its container, and nothing else happens.
pub proof fn law_warm_creations<I>(
    manager: ManagerView<I>,
    creations: Seq<Creation<I>>,
    limit: nat,
)
    requires
        manager.instance is Some,
        limit >= 3,
    ensures
        ({
            let runs = create_all(manager, creations, limit);
            &&& runs.len() == creations.len()
            &&& forall|i: int|
                0 <= i < runs.len() ==> {
                    &&& (#[trigger] runs[i]).calls == warm_calls(creations[i])
                    &&& runs[i].result == Some(
                        Ok::<Response, Error>(
                            Response::CreateContainer(creations[i].world.created),
                        ),
                    )
                    &&& runs[i].manager == manager
                }
        }),
    decreases creations.len(),
{
    if creations.len() > 0 {
        law_warm_creation(manager, creations[0], limit);
        law_warm_creations(manager, creations.drop_first(), limit);
        let runs = create_all(manager, creations, limit);
        let rest = create_all(manager, creations.drop_first(), limit);
        assert forall|i: int| 0 < i < runs.len() implies #[trigger] runs[i] == rest[i - 1]
            && creations[i] == creations.drop_first()[i - 1] by {}
    }
}

/// The runtime is brought up exactly once. Take any number of requests to
/// create a container that arrive at a manager without an instance, in a world
/// where every call succeeds and the configured runtime is registered.
/// Exclusive access lets one of them through at a time. The first brings the
/// runtime up: each call of the bring-up is made once. Every later one finds
/// the instance and makes no call of a bring-up. Each request is answered with
/// the process that was created for it, and the instance is, from the first
/// request on, the one that the first request's backend built.
pub proof fn law_bring_up_exactly_once<I>(
    manager: ManagerView<I>,
    creations: Seq<Creation<I>>,
    limit: nat,
)
    requires
        manager.valid(),
        manager.instance is None,
        creations.len() >= 1,
        selected(manager.registry, creations[0].world.runtime@) is Some,
        limit >= 8,
    ensures
        ({
            let runs = create_all(manager, creations, limit);
            &&& runs.len() == creations.len()
            &&& runs[0].calls == cold_calls(manager, creations[0])
            &&& forall|i: int|
                1 <= i < runs.len() ==> (#[trigger] runs[i]).calls == warm_calls(creations[i])
            &&& forall|i: int|
                0 <= i < runs.len() ==> {
                    &&& (#[trigger] runs[i]).result == Some(
                        Ok::<Response, Error>(
                            Response::CreateContainer(creations[i].world.created),
                        ),
                    )
                    &&& runs[i].manager.instance == Some(creations[0].world.instance)
                    &&& runs[i].manager.id == manager.id
                    &&& runs[i].manager.registry == manager.registry
                }
        }),
{
    law_cold_creation(manager, creations[0], limit);
    let first = create(manager, creations[0], limit);
    law_warm_creations(first.manager, creations.drop_first(), limit);
    let runs = create_all(manager, creations, limit);
    let rest = create_all(first.manager, creations.drop_first(), limit);
    assert forall|i: int| 0 < i < runs.len() implies #[trigger] runs[i] == rest[i - 1]
        && creations[i] == creations.drop_first()[i - 1] by {}
}

/// Whether a failure of this kind is met before an instance is published: the
/// configuration could not be read, names no registered runtime, or the
/// backend or its sandbox did not come up.
pub open spec fn before_publication(kind: ErrorKind) -> bool {
    kind is ConfigResolution || kind is UnsupportedBackend || kind is BringUp
        || kind is SandboxStart
}

/// The kind of every failure that a step can end a session with, by the stage
/// and the outcome that led to it. An outcome that does not answer the
/// session's call is a violation of the protocol; a failure that a collaborator
/// reports is of the kind of the stage that met it.
pub proof fn law_failures_are_classified<I>(
    manager: ManagerView<I>,
    flow: Flow<I>,
    event: Event<I>,
)
    ensures
        handler_message(manager, flow, event).step matches StepView::Done(Err(error)) ==> {
            error.spec_kind() == match (flow.stage, event) {
                (Stage::LoadingSpec { .. }, Event::SpecLoaded(Err(_)))
                | (Stage::LoadingConfig { .. }, Event::ConfigLoaded(Err(_))) => {
                    ErrorKind::ConfigResolution
                },
                (Stage::LoadingConfig { .. }, Event::ConfigLoaded(Ok(_))) => {
                    ErrorKind::UnsupportedBackend
                },
                (Stage::InitializingBackend { .. }, Event::BackendInitialized(Err(_)))
                | (Stage::BuildingInstance { .. }, Event::InstanceBuilt(Err(_))) => {
                    ErrorKind::BringUp
                },
                (Stage::StartingSandbox { .. }, Event::Sandbox(Err(_))) => ErrorKind::SandboxStart,
                (Stage::AwaitingShared { request }, Event::Granted) => if manager.instance is None {
                    ErrorKind::NotReady
                } else {
                    ErrorKind::ProtocolViolation
                },
                (Stage::Creating, Event::ContainerManager(Err(_)))
                | (Stage::Delegating { .. }, Event::ContainerManager(Err(_)))
                | (Stage::Waiting { .. }, Event::ContainerManager(Err(_)))
                | (Stage::ShuttingDown, Event::Sandbox(Err(_)))
                | (Stage::StoppingSandbox { .. }, Event::Sandbox(Err(_))) => ErrorKind::Delegated,
                _ => ErrorKind::ProtocolViolation,
            }
        },
{
    reveal_with_fuel(Error::spec_kind, 5);
}

/// A session that has passed the bring-up, or never was in it, does not fail
/// with a failure of the bring-up.
pub proof fn law_no_late_bring_up_failure<I>(
    manager: ManagerView<I>,
    flow: Flow<I>,
    events: Seq<Event<I>>,
)
    requires
        flow.stage is Creating || flow.stage is AwaitingShared || routed(flow.stage),
    ensures
        run(manager, flow, events).result matches Some(Err(error)) ==> !before_publication(
            error.spec_kind(),
        ),
    decreases events.len(),
{
    if events.len() > 0 {
        let taken = handler_message(manager, flow, events[0]);
        law_failures_are_classified(manager, flow, events[0]);
        law_no_late_bring_up_failure(taken.manager, taken.flow, events.drop_first());
    }
}

/// A failure of the bring-up leaves the manager as it was: a session that ends
/// with such a failure has published nothing.
pub proof fn law_failed_bring_up_changes_nothing<I>(
    manager: ManagerView<I>,
    flow: Flow<I>,
    events: Seq<Event<I>>,
)
    ensures
        run(manager, flow, events).result matches Some(Err(error)) ==> before_publication(
            error.spec_kind(),
        ) ==> run(manager, flow, events).manager == manager,
    decreases events.len(),
{
    if events.len() > 0 {
        let taken = handler_message(manager, flow, events[0]);
        law_instance_never_replaced(manager, flow, events[0]);
        if taken.manager != manager {
            law_no_late_bring_up_failure(taken.manager, taken.flow, events.drop_first());
        } else {
            law_failed_bring_up_changes_nothing(taken.manager, taken.flow, events.drop_first());
        }
    }
}

/// A bring-up that fails can be tried again. Let a request to create a
/// container fail, at a manager without an instance, because the configuration
/// could not be read or names a runtime that is not registered, or because the
/// backend or its sandbox did not come up. Then the manager is as it was before
/// the request; and a later request that meets a world in which every call
/// succeeds, and a configuration that names a registered runtime, brings the
/// runtime up from the beginning and is answered with its process.
pub proof fn law_failed_bring_up_can_be_retried<I>(
    manager: ManagerView<I>,
    failing: ContainerConfig,
    events: Seq<Event<I>>,
    retry: Creation<I>,
    limit: nat,
)
    requires
        manager.valid(),
        manager.instance is None,
        serve(manager, Request::CreateContainer(failing), events).result matches Some(Err(error))
            && before_publication(error.spec_kind()),
        selected(manager.registry, retry.world.runtime@) is Some,
        limit >= 8,
    ensures
        ({
            let failed = serve(manager, Request::CreateContainer(failing), events);
            let retried = create(failed.manager, retry, limit);
            &&& failed.manager == manager
            &&& retried.calls == cold_calls(manager, retry)
            &&& retried.result == Some(
                Ok::<Response, Error>(Response::CreateContainer(retry.world.created)),
            )
            &&& retried.manager.instance == Some(retry.world.instance)
        }),
{
    let flow = open_message::<I>(Request::CreateContainer(failing)).0;
    law_failed_bring_up_changes_nothing(manager, flow, events);
    law_cold_creation(manager, retry, limit);
}

/// A configuration that names a runtime which no backend bears fails the
/// request as unsupported, and the manager stays without an instance.
pub proof fn law_unsupported_runtime_is_refused<I>(
    manager: ManagerView<I>,
    flow: Flow<I>,
    name: String,
)
    requires
        flow.stage is LoadingConfig,
        !flow.delegated,
        forall|i: int| 0 <= i < manager.registry.len() ==> manager.registry[i] != name@,
    ensures
        handler_message(manager, flow, Event::ConfigLoaded(Ok(name))) == (Transition {
            manager,
            flow: Flow { delegated: false, stage: Stage::Finished },
            step: StepView::Done(
                Err(
                    under(
                        Label::TryInitRuntimeHandler,
                        under(Label::InitRuntimeHandler, Error::UnsupportedRuntime(name)),
                    ),
                ),
            ),
        }),
{
    lemma_selected(manager.registry, name@);
}

/// The most steps that a session at `stage` can still take.
pub open spec fn steps_left<I>(stage: Stage<I>) -> nat {
    match stage {
        Stage::LoadingSpec { .. } => 8,
        Stage::AwaitingExclusive { .. } => 7,
        Stage::ReadingEnvironment { .. } => 6,
        Stage::LoadingConfig { .. } => 5,
        Stage::InitializingBackend { .. } => 4,
        Stage::BuildingInstance { .. } => 3,
        Stage::StartingSandbox { .. } => 2,
        Stage::Creating => 1,
        Stage::AwaitingShared { .. } => 4,
        Stage::Waiting { .. } => 3,
        Stage::QueryingSandboxContainer { .. } => 2,
        Stage::StoppingSandbox { .. } => 1,
        Stage::QueryingShutdown => 2,
        Stage::ShuttingDown => 1,
        Stage::Delegating { .. } => 1,
        Stage::Finished => 1,
    }
}

/// Every request is answered. A session whose calls all come back ends after
/// a bounded number of steps, eight at most, whatever the outcomes: with the
/// response of its request or with a failure.
pub proof fn law_sessions_end<I>(manager: ManagerView<I>, flow: Flow<I>, events: Seq<Event<I>>)
    requires
        events.len() >= steps_left(flow.stage),
    ensures
        run(manager, flow, events).result is Some,
        run(manager, flow, events).flow.stage is Finished,
    decreases events.len(),
{
    let taken = handler_message(manager, flow, events[0]);
    if taken.step is Perform {
        law_sessions_end(taken.manager, taken.flow, events.drop_first());
    }
}

} // verus!
