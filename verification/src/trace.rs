//! Whole sessions, as the sequence of their steps.
//!
//! A driver takes a session through its steps: it makes the call that a step
//! asks for and hands the outcome to the next step, until a step ends the
//! session. The functions here say what that yields, for the outcomes that the
//! outside world may give.

use vstd::prelude::*;
use crate::config::OciSpec;
use crate::error::Error;
use crate::model::{handler_message, open_message, open_request, ManagerView};
use crate::protocol::{CallView, ContainerCall, Event, StepView};
use crate::session::Flow;
use crate::types::{ContainerConfig, Pid, Reply, Request, Response};

verus! {

/// What became of a session, and of the manager, over some steps.
pub struct Run<I> {
    /// The manager after the steps.
    pub manager: ManagerView<I>,
    /// Where the session stands after them.
    pub flow: Flow<I>,
    /// The calls that the steps asked for, in order.
    pub calls: Seq<CallView>,
    /// The session's result, if a step ended it.
    pub result: Option<Result<Response, Error>>,
}

/// The steps of a session that stands at `flow`, where `events` are the
/// outcomes handed to them one after the other. The steps end with the session
/// or with the events. Each step is the one that exclusive access allows; a
/// step taken with the access that the stage names is the same step.
pub open spec fn run<I>(manager: ManagerView<I>, flow: Flow<I>, events: Seq<Event<I>>) -> Run<I>
    decreases events.len(),
{
    if events.len() == 0 {
        Run { manager, flow, calls: Seq::empty(), result: None }
    } else {
        let taken = handler_message(manager, flow, events[0]);
        match taken.step {
            StepView::Done(result) => Run {
                manager: taken.manager,
                flow: taken.flow,
                calls: Seq::empty(),
                result: Some(result),
            },
            StepView::Perform(call) => {
                let rest = run(taken.manager, taken.flow, events.drop_first());
                Run { calls: seq![call] + rest.calls, ..rest }
            },
        }
    }
}

/// The call that a step asks for, if it asks for one.
pub open spec fn asked(step: StepView) -> Seq<CallView> {
    match step {
        StepView::Perform(call) => seq![call],
        StepView::Done(_) => Seq::empty(),
    }
}

/// A whole session for `request` from the message entry: its first call, then
/// its steps under `events`.
pub open spec fn serve<I>(manager: ManagerView<I>, request: Request, events: Seq<Event<I>>) -> Run<
    I,
> {
    let (flow, first) = open_message::<I>(request);
    let rest = run(manager, flow, events);
    Run { calls: asked(first) + rest.calls, ..rest }
}

/// A whole session for `request` that enters the router directly.
pub open spec fn serve_request<I>(
    manager: ManagerView<I>,
    request: Request,
    events: Seq<Event<I>>,
) -> Run<I> {
    let (flow, first) = open_request::<I>(request);
    let rest = run(manager, flow, events);
    Run { calls: asked(first) + rest.calls, ..rest }
}

/// The outside world as a request to create a container may meet it at its
/// best: every call succeeds, and hands back what is written here.
pub struct World<I> {
    /// What the container's OCI runtime spec holds.
    pub spec: OciSpec,
    /// The value of the environment variable that names the configuration.
    pub environment: Option<String>,
    /// The runtime name that the configuration gives.
    pub runtime: String,
    /// The instance that the backend builds.
    pub instance: I,
    /// The process id that the container-process manager hands back.
    pub created: Pid,
}

/// The outcome of `call` in `world`. (Of the calls to the container-process
/// manager only the creation of a container is answered with a payload: a
/// session that creates a container makes no other.)
pub open spec fn answer<I>(world: World<I>, call: CallView) -> Event<I> {
    match call {
        CallView::Lock(_) => Event::Granted,
        CallView::LoadSpec { .. } => Event::SpecLoaded(Ok(world.spec)),
        CallView::ReadEnvironment { .. } => Event::Environment(world.environment),
        CallView::LoadConfig { .. } => Event::ConfigLoaded(Ok(world.runtime)),
        CallView::InitBackend { .. } => Event::BackendInitialized(Ok(())),
        CallView::NewInstance { .. } => Event::InstanceBuilt(Ok(world.instance)),
        CallView::Sandbox(_) => Event::Sandbox(Ok(())),
        CallView::ContainerManager(ContainerCall::CreateContainer(_)) => Event::ContainerManager(
            Ok(Reply::Pid(world.created)),
        ),
        CallView::ContainerManager(_) => Event::ContainerManager(Ok(Reply::Done)),
    }
}

/// At most `limit` steps of a session that waits for the outcome of `call`,
/// where `world` answers every call.
pub open spec fn play<I>(
    manager: ManagerView<I>,
    flow: Flow<I>,
    call: CallView,
    world: World<I>,
    limit: nat,
) -> Run<I>
    decreases limit,
{
    if limit == 0 {
        Run { manager, flow, calls: Seq::empty(), result: None }
    } else {
        let taken = handler_message(manager, flow, answer(world, call));
        match taken.step {
            StepView::Done(result) => Run {
                manager: taken.manager,
                flow: taken.flow,
                calls: Seq::empty(),
                result: Some(result),
            },
            StepView::Perform(next) => {
                let rest = play(taken.manager, taken.flow, next, world, (limit - 1) as nat);
                Run { calls: seq![next] + rest.calls, ..rest }
            },
        }
    }
}

/// A request to create a container, and the world that its session meets.
pub struct Creation<I> {
    pub config: ContainerConfig,
    pub world: World<I>,
}

/// A whole session that creates a container in a world where every call
/// succeeds.
pub open spec fn create<I>(manager: ManagerView<I>, creation: Creation<I>, limit: nat) -> Run<I> {
    let (flow, first) = open_message::<I>(Request::CreateContainer(creation.config));
    match first {
        StepView::Perform(call) => {
            let rest = play(manager, flow, call, creation.world, limit);
            Run { calls: seq![call] + rest.calls, ..rest }
        },
        StepView::Done(result) => Run { manager, flow, calls: Seq::empty(), result: Some(result) },
    }
}

/// Sessions that create containers, one after the other, as exclusive access
/// orders them: each meets the manager as the one before left it.
pub open spec fn create_all<I>(
    manager: ManagerView<I>,
    creations: Seq<Creation<I>>,
    limit: nat,
) -> Seq<Run<I>>
    decreases creations.len(),
{
    if creations.len() == 0 {
        Seq::empty()
    } else {
        let first = create(manager, creations[0], limit);
        seq![first] + create_all(first.manager, creations.drop_first(), limit)
    }
}

} // verus!
