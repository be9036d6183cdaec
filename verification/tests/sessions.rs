//! Whole sessions, driven as a host drives them: each call is answered, and the
//! answer is handed to the step that the session's access asks for.

use runtimes::config::OciSpec;
use runtimes::error::{Error, ErrorKind, Label};
use runtimes::manager::RuntimeHandlerManager;
use runtimes::protocol::{Access, Call, ContainerCall, Event, SandboxCall, Step, Target};
use runtimes::registry::Registry;
use runtimes::session::{Session, Stage};
use runtimes::types::{
    ContainerConfig, ContainerId, ExitStatus, Pid, ProcessId, Reply, Request, Response,
};
use tokio::sync::mpsc::{channel, Receiver, Sender};

#[derive(Debug, Clone, PartialEq, Eq)]
struct Instance {
    serial: u32,
}

type Manager = RuntimeHandlerManager<u32, Instance>;

fn registry(names: &[&str]) -> Registry {
    let mut registry = Registry::new();
    for name in names {
        registry.register(name.to_string());
    }
    registry
}

fn manager(id: &str, names: &[&str]) -> (Manager, Sender<u32>, Receiver<u32>) {
    let (sender, receiver) = channel::<u32>(4);
    let manager = Manager::new(id, sender.clone(), registry(names)).unwrap();
    (manager, sender, receiver)
}

fn config(container: &str, bundle: &str) -> ContainerConfig {
    ContainerConfig {
        container_id: container.to_string(),
        bundle: bundle.to_string(),
        terminal: false,
        options: vec![1, 2, 3],
    }
}

fn process(container: &str) -> ProcessId {
    ProcessId { container_id: container.to_string(), exec_id: String::new() }
}

fn container(id: &str) -> ContainerId {
    ContainerId { container_id: id.to_string() }
}

/// Takes the session to its end. Every call is recorded with the access that
/// the session held while the call was under way.
fn drive(
    manager: &mut Manager,
    opened: (Session<Instance>, Step),
    answer: &mut dyn FnMut(&Call) -> Event<Instance>,
) -> (Vec<(Call, Access)>, Result<Response, Error>) {
    let (mut session, mut step) = opened;
    let mut calls = Vec::new();
    loop {
        let call = match step {
            Step::Done(result) => return (calls, result),
            Step::Perform(call) => call,
        };
        let held = match &call {
            Call::Lock(_) => Access::Detached,
            _ => session.access(),
        };
        if matches!(call.target(), Target::Sandbox | Target::ContainerManager) {
            assert!(session.instance().is_some());
        }
        let event = answer(&call);
        calls.push((call, held));
        let next = match session.access() {
            Access::Exclusive => manager.handler_message(session, event),
            Access::Shared => manager.handler_request(session, event),
            Access::Detached => session.resume(event),
        };
        session = next.0;
        step = next.1;
    }
}

fn only_calls(calls: Vec<(Call, Access)>) -> Vec<Call> {
    calls.into_iter().map(|(call, _)| call).collect()
}

/// A world in which every call succeeds.
fn kind_world(runtime: &str, serial: u32, pid: u32) -> impl FnMut(&Call) -> Event<Instance> {
    let runtime = runtime.to_string();
    move |call: &Call| match call {
        Call::Lock(_) => Event::Granted,
        Call::LoadSpec { .. } => Event::SpecLoaded(Ok(OciSpec { sandbox_config_path: None })),
        Call::ReadEnvironment { .. } => Event::Environment(None),
        Call::LoadConfig { .. } => Event::ConfigLoaded(Ok(runtime.clone())),
        Call::InitBackend { .. } => Event::BackendInitialized(Ok(())),
        Call::NewInstance { .. } => Event::InstanceBuilt(Ok(Instance { serial })),
        Call::Sandbox(_) => Event::Sandbox(Ok(())),
        Call::ContainerManager(ContainerCall::CreateContainer(_)) => {
            Event::ContainerManager(Ok(Reply::Pid(Pid { pid })))
        }
        Call::ContainerManager(ContainerCall::WaitProcess(_)) => {
            Event::ContainerManager(Ok(Reply::Exit(ExitStatus { exit_code: 0 })))
        }
        Call::ContainerManager(ContainerCall::NeedShutdownSandbox(_)) => Event::Answer(false),
        Call::ContainerManager(ContainerCall::IsSandboxContainer(_)) => Event::Answer(false),
        Call::ContainerManager(_) => Event::ContainerManager(Ok(Reply::Done)),
    }
}

fn bring_up(manager: &mut Manager, runtime: &str, serial: u32) {
    let mut world = kind_world(runtime, serial, 1);
    let opened = Session::message(Request::CreateContainer(config("first", "/run/first")));
    let (_, result) = drive(manager, opened, &mut world);
    assert_eq!(result, Ok(Response::CreateContainer(Pid { pid: 1 })));
}

#[test]
fn first_container_brings_the_runtime_up() {
    let (mut manager, sender, _receiver) = manager("sbx-1", &["native-process"]);
    let mut world = kind_world("native-process", 7, 4242);
    let opened = Session::message(Request::CreateContainer(config("c1", "/run/bundles/c1")));
    let (calls, result) = drive(&mut manager, opened, &mut world);

    assert_eq!(result, Ok(Response::CreateContainer(Pid { pid: 4242 })));
    assert_eq!(
        calls,
        vec![
            (Call::LoadSpec { path: "/run/bundles/c1/config.json".to_string() }, Access::Detached),
            (Call::Lock(Access::Exclusive), Access::Detached),
            (Call::ReadEnvironment { name: "KATA_CONF_FILE".to_string() }, Access::Exclusive),
            (Call::LoadConfig { path: String::new() }, Access::Exclusive),
            (Call::InitBackend { backend: 0 }, Access::Exclusive),
            (Call::NewInstance { backend: 0, id: "sbx-1".to_string() }, Access::Exclusive),
            (Call::Sandbox(SandboxCall::Start), Access::Exclusive),
            (
                Call::ContainerManager(ContainerCall::CreateContainer(config(
                    "c1",
                    "/run/bundles/c1"
                ))),
                Access::Exclusive
            ),
        ]
    );
    assert_eq!(manager.get_runtime_instance(), Some(Instance { serial: 7 }));
    assert_eq!(manager.id(), "sbx-1");
    assert!(manager.msg_sender().same_channel(&sender));
}

#[test]
fn scenario_create_wait_create() {
    let (mut manager, _sender, _receiver) = manager("sbx-1", &["native-process"]);

    let mut world = kind_world("native-process", 1, 100);
    let opened = Session::message(Request::CreateContainer(config("sbx-1", "/run/sbx-1")));
    let (calls, result) = drive(&mut manager, opened, &mut world);
    assert_eq!(result, Ok(Response::CreateContainer(Pid { pid: 100 })));
    assert_eq!(calls.len(), 8);

    let mut own_container = |call: &Call| match call {
        Call::Lock(_) => Event::Granted,
        Call::ContainerManager(ContainerCall::WaitProcess(_)) => {
            Event::ContainerManager(Ok(Reply::Exit(ExitStatus { exit_code: 17 })))
        }
        Call::ContainerManager(ContainerCall::IsSandboxContainer(_)) => Event::Answer(true),
        Call::Sandbox(SandboxCall::Stop) => Event::Sandbox(Ok(())),
        other => panic!("unexpected call {:?}", other),
    };
    let opened = Session::message(Request::WaitProcess(process("sbx-1")));
    let (calls, result) = drive(&mut manager, opened, &mut own_container);
    assert_eq!(result, Ok(Response::WaitProcess(ExitStatus { exit_code: 17 })));
    assert_eq!(
        only_calls(calls),
        vec![
            Call::Lock(Access::Shared),
            Call::ContainerManager(ContainerCall::WaitProcess(process("sbx-1"))),
            Call::ContainerManager(ContainerCall::IsSandboxContainer(process("sbx-1"))),
            Call::Sandbox(SandboxCall::Stop),
        ]
    );

    let mut again = kind_world("another-runtime", 2, 101);
    let opened = Session::message(Request::CreateContainer(config("c2", "/run/c2")));
    let (calls, result) = drive(&mut manager, opened, &mut again);
    assert_eq!(result, Ok(Response::CreateContainer(Pid { pid: 101 })));
    assert_eq!(
        only_calls(calls),
        vec![
            Call::LoadSpec { path: "/run/c2/config.json".to_string() },
            Call::Lock(Access::Exclusive),
            Call::ContainerManager(ContainerCall::CreateContainer(config("c2", "/run/c2"))),
        ]
    );
    assert_eq!(manager.get_runtime_instance(), Some(Instance { serial: 1 }));
}

#[test]
fn many_creations_bring_up_once() {
    let (mut manager, _sender, _receiver) = manager("sbx", &["virt", "native"]);
    let mut starts = 0;
    let mut builds = 0;
    let mut setups = 0;
    for round in 0..5u32 {
        let mut world = kind_world("native", round, 500 + round);
        let opened = Session::message(Request::CreateContainer(config("c", "/b")));
        let (calls, result) = drive(&mut manager, opened, &mut world);
        assert_eq!(result, Ok(Response::CreateContainer(Pid { pid: 500 + round })));
        for (call, _) in &calls {
            match call {
                Call::Sandbox(SandboxCall::Start) => starts += 1,
                Call::NewInstance { backend, .. } => {
                    assert_eq!(*backend, 1);
                    builds += 1
                }
                Call::InitBackend { backend } => {
                    assert_eq!(*backend, 1);
                    setups += 1
                }
                _ => {}
            }
        }
        assert_eq!(manager.get_runtime_instance(), Some(Instance { serial: 0 }));
    }
    assert_eq!((setups, builds, starts), (1, 1, 1));
}

#[test]
fn unsupported_runtime_then_retry() {
    let (mut manager, _sender, _receiver) = manager("sbx", &["native"]);

    let mut wrong = kind_world("Native", 1, 1);
    let opened = Session::message(Request::CreateContainer(config("c", "/b")));
    let (calls, result) = drive(&mut manager, opened, &mut wrong);
    let error = result.unwrap_err();
    assert_eq!(
        error,
        Error::UnsupportedRuntime("Native".to_string())
            .context(Label::InitRuntimeHandler)
            .context(Label::TryInitRuntimeHandler)
    );
    assert_eq!(error.kind(), ErrorKind::UnsupportedBackend);
    assert_eq!(
        error.message(),
        "try init runtime handler: init runtime handler: Unsupported runtime: Native"
    );
    assert_eq!(calls.len(), 4);
    assert_eq!(manager.get_runtime_instance(), None);

    let mut right = kind_world("native", 2, 9);
    let opened = Session::message(Request::CreateContainer(config("c", "/b")));
    let (calls, result) = drive(&mut manager, opened, &mut right);
    assert_eq!(result, Ok(Response::CreateContainer(Pid { pid: 9 })));
    assert_eq!(calls.len(), 8);
    assert_eq!(manager.get_runtime_instance(), Some(Instance { serial: 2 }));
}

#[test]
fn failed_sandbox_start_publishes_nothing() {
    let (mut manager, _sender, _receiver) = manager("sbx", &["native"]);
    let mut kind = kind_world("native", 1, 1);
    let mut failing = |call: &Call| match call {
        Call::Sandbox(SandboxCall::Start) => Event::Sandbox(Err("no memory".to_string())),
        other => kind(other),
    };
    let opened = Session::message(Request::CreateContainer(config("c", "/b")));
    let (calls, result) = drive(&mut manager, opened, &mut failing);
    let error = result.unwrap_err();
    assert_eq!(error.kind(), ErrorKind::SandboxStart);
    assert_eq!(
        error.message(),
        "try init runtime handler: init runtime handler: start sandbox: no memory"
    );
    assert_eq!(calls.len(), 7);
    assert_eq!(manager.get_runtime_instance(), None);

    bring_up(&mut manager, "native", 3);
    assert_eq!(manager.get_runtime_instance(), Some(Instance { serial: 3 }));
}

#[test]
fn failed_backend_setup_and_build_are_bring_up_failures() {
    let (mut manager, _sender, _receiver) = manager("sbx", &["native"]);

    let mut kind = kind_world("native", 1, 1);
    let mut no_setup = |call: &Call| match call {
        Call::InitBackend { .. } => Event::BackendInitialized(Err("kvm missing".to_string())),
        other => kind(other),
    };
    let opened = Session::message(Request::CreateContainer(config("c", "/b")));
    let (_, result) = drive(&mut manager, opened, &mut no_setup);
    let error = result.unwrap_err();
    assert_eq!(error.kind(), ErrorKind::BringUp);
    assert_eq!(
        error.message(),
        "try init runtime handler: init runtime handler: init backend: kvm missing"
    );

    let mut kind = kind_world("native", 1, 1);
    let mut no_build = |call: &Call| match call {
        Call::NewInstance { .. } => Event::InstanceBuilt(Err("agent".to_string())),
        other => kind(other),
    };
    let opened = Session::message(Request::CreateContainer(config("c", "/b")));
    let (_, result) = drive(&mut manager, opened, &mut no_build);
    let error = result.unwrap_err();
    assert_eq!(error.kind(), ErrorKind::BringUp);
    assert_eq!(
        error.message(),
        "try init runtime handler: init runtime handler: new runtime instance: agent"
    );
    assert_eq!(manager.get_runtime_instance(), None);
}

#[test]
fn unreadable_files_are_config_failures() {
    let (mut manager, _sender, _receiver) = manager("sbx", &["native"]);

    let mut no_spec = |call: &Call| match call {
        Call::LoadSpec { .. } => Event::SpecLoaded(Err("no such file".to_string())),
        other => panic!("unexpected call {:?}", other),
    };
    let opened = Session::message(Request::CreateContainer(config("c", "/b")));
    let (calls, result) = drive(&mut manager, opened, &mut no_spec);
    let error = result.unwrap_err();
    assert_eq!(error, Error::Failed("no such file".to_string()).context(Label::LoadSpec));
    assert_eq!(error.kind(), ErrorKind::ConfigResolution);
    assert_eq!(error.message(), "load spec: no such file");
    assert_eq!(only_calls(calls), vec![Call::LoadSpec { path: "/b/config.json".to_string() }]);

    let mut kind = kind_world("native", 1, 1);
    let mut no_config = |call: &Call| match call {
        Call::LoadConfig { .. } => Event::ConfigLoaded(Err("bad toml".to_string())),
        other => kind(other),
    };
    let opened = Session::message(Request::CreateContainer(config("c", "/b")));
    let (_, result) = drive(&mut manager, opened, &mut no_config);
    let error = result.unwrap_err();
    assert_eq!(error.kind(), ErrorKind::ConfigResolution);
    assert_eq!(
        error.message(),
        "try init runtime handler: load config: load toml config: bad toml"
    );
    assert_eq!(manager.get_runtime_instance(), None);
}

#[test]
fn configuration_path_by_precedence() {
    let located = |annotation: Option<&str>, environment: Option<&str>| -> Vec<Call> {
        let (mut manager, _sender, _receiver) = manager("sbx", &["native"]);
        let mut kind = kind_world("native", 1, 1);
        let mut world = |call: &Call| match call {
            Call::LoadSpec { .. } => Event::SpecLoaded(Ok(OciSpec {
                sandbox_config_path: annotation.map(|path| path.to_string()),
            })),
            Call::ReadEnvironment { .. } => {
                Event::Environment(environment.map(|path| path.to_string()))
            }
            other => kind(other),
        };
        let opened = Session::message(Request::CreateContainer(config("c", "/b")));
        let (calls, result) = drive(&mut manager, opened, &mut world);
        assert!(result.is_ok());
        only_calls(calls)
            .into_iter()
            .filter(|call| matches!(call, Call::LoadConfig { .. } | Call::ReadEnvironment { .. }))
            .collect()
    };
    assert_eq!(
        located(Some("/anno.toml"), Some("/env.toml")),
        vec![Call::LoadConfig { path: "/anno.toml".to_string() }]
    );
    assert_eq!(
        located(None, Some("/env.toml")),
        vec![
            Call::ReadEnvironment { name: "KATA_CONF_FILE".to_string() },
            Call::LoadConfig { path: "/env.toml".to_string() }
        ]
    );
    assert_eq!(
        located(None, None),
        vec![
            Call::ReadEnvironment { name: "KATA_CONF_FILE".to_string() },
            Call::LoadConfig { path: String::new() }
        ]
    );
}

#[test]
fn failed_creation_keeps_the_instance() {
    let (mut manager, _sender, _receiver) = manager("sbx", &["native"]);
    let mut kind = kind_world("native", 5, 1);
    let mut failing = |call: &Call| match call {
        Call::ContainerManager(ContainerCall::CreateContainer(_)) => {
            Event::ContainerManager(Err("rootfs".to_string()))
        }
        other => kind(other),
    };
    let opened = Session::message(Request::CreateContainer(config("c", "/b")));
    let (_, result) = drive(&mut manager, opened, &mut failing);
    let error = result.unwrap_err();
    assert_eq!(error.kind(), ErrorKind::Delegated);
    assert_eq!(error.message(), "create container: rootfs");
    assert_eq!(manager.get_runtime_instance(), Some(Instance { serial: 5 }));
}

#[test]
fn operation_before_creation_is_not_ready() {
    let (mut manager, _sender, _receiver) = manager("sbx", &["native"]);
    let mut world = |call: &Call| match call {
        Call::Lock(Access::Shared) => Event::Granted,
        other => panic!("unexpected call {:?}", other),
    };

    let opened = Session::message(Request::WaitProcess(process("c")));
    let (calls, result) = drive(&mut manager, opened, &mut world);
    let error = result.unwrap_err();
    assert_eq!(error, Error::NotReady.context(Label::HandlerRequest));
    assert_eq!(error.kind(), ErrorKind::NotReady);
    assert_eq!(error.message(), "handler request: runtime not ready");
    assert_eq!(only_calls(calls), vec![Call::Lock(Access::Shared)]);
    assert_eq!(manager.get_runtime_instance(), None);

    let opened = Session::request(Request::Pid);
    let (calls, result) = drive(&mut manager, opened, &mut world);
    assert_eq!(result, Err(Error::NotReady));
    assert_eq!(only_calls(calls), vec![Call::Lock(Access::Shared)]);

    let opened = Session::request(Request::CreateContainer(config("c", "/b")));
    let (_, result) = drive(&mut manager, opened, &mut world);
    assert_eq!(result, Err(Error::NotReady));
}

#[test]
fn shutdown_of_other_container_spares_the_sandbox() {
    let (mut manager, _sender, _receiver) = manager("sbx", &["native"]);
    bring_up(&mut manager, "native", 1);
    let mut world = |call: &Call| match call {
        Call::Lock(_) => Event::Granted,
        Call::ContainerManager(ContainerCall::NeedShutdownSandbox(_)) => Event::Answer(false),
        other => panic!("unexpected call {:?}", other),
    };
    let opened = Session::message(Request::ShutdownContainer(container("side")));
    let (calls, result) = drive(&mut manager, opened, &mut world);
    assert_eq!(result, Ok(Response::ShutdownContainer));
    assert_eq!(
        only_calls(calls),
        vec![
            Call::Lock(Access::Shared),
            Call::ContainerManager(ContainerCall::NeedShutdownSandbox(container("side"))),
        ]
    );
}

#[test]
fn shutdown_of_governing_container_shuts_the_sandbox_once() {
    let (mut manager, _sender, _receiver) = manager("sbx", &["native"]);
    bring_up(&mut manager, "native", 1);
    let mut world = |call: &Call| match call {
        Call::Lock(_) => Event::Granted,
        Call::ContainerManager(ContainerCall::NeedShutdownSandbox(_)) => Event::Answer(true),
        Call::Sandbox(SandboxCall::Shutdown) => Event::Sandbox(Ok(())),
        other => panic!("unexpected call {:?}", other),
    };
    let opened = Session::message(Request::ShutdownContainer(container("main")));
    let (calls, result) = drive(&mut manager, opened, &mut world);
    assert_eq!(result, Ok(Response::ShutdownContainer));
    let calls = only_calls(calls);
    assert_eq!(
        calls,
        vec![
            Call::Lock(Access::Shared),
            Call::ContainerManager(ContainerCall::NeedShutdownSandbox(container("main"))),
            Call::Sandbox(SandboxCall::Shutdown),
        ]
    );
    assert_eq!(calls.iter().filter(|call| call.target() == Target::Sandbox).count(), 1);
}

#[test]
fn failed_sandbox_shutdown_is_reported() {
    let (mut manager, _sender, _receiver) = manager("sbx", &["native"]);
    bring_up(&mut manager, "native", 1);
    let mut world = |call: &Call| match call {
        Call::Lock(_) => Event::Granted,
        Call::ContainerManager(ContainerCall::NeedShutdownSandbox(_)) => Event::Answer(true),
        Call::Sandbox(SandboxCall::Shutdown) => Event::Sandbox(Err("busy".to_string())),
        other => panic!("unexpected call {:?}", other),
    };
    let opened = Session::message(Request::ShutdownContainer(container("main")));
    let (_, result) = drive(&mut manager, opened, &mut world);
    let error = result.unwrap_err();
    assert_eq!(error.message(), "handler request: do shutdown: busy");
    assert_eq!(error.kind(), ErrorKind::Delegated);
}

#[test]
fn wait_for_other_process_leaves_the_sandbox_alone() {
    let (mut manager, _sender, _receiver) = manager("sbx", &["native"]);
    bring_up(&mut manager, "native", 1);
    let mut world = |call: &Call| match call {
        Call::Lock(_) => Event::Granted,
        Call::ContainerManager(ContainerCall::WaitProcess(_)) => {
            Event::ContainerManager(Ok(Reply::Exit(ExitStatus { exit_code: 3 })))
        }
        Call::ContainerManager(ContainerCall::IsSandboxContainer(_)) => Event::Answer(false),
        other => panic!("unexpected call {:?}", other),
    };
    let waited = ProcessId { container_id: "side".to_string(), exec_id: "e1".to_string() };
    let opened = Session::message(Request::WaitProcess(waited));
    let (calls, result) = drive(&mut manager, opened, &mut world);
    assert_eq!(result, Ok(Response::WaitProcess(ExitStatus { exit_code: 3 })));
    let calls = only_calls(calls);
    let again = || ProcessId { container_id: "side".to_string(), exec_id: "e1".to_string() };
    assert_eq!(
        calls,
        vec![
            Call::Lock(Access::Shared),
            Call::ContainerManager(ContainerCall::WaitProcess(again())),
            Call::ContainerManager(ContainerCall::IsSandboxContainer(again())),
        ]
    );
    assert!(calls.iter().all(|call| call.target() != Target::Sandbox));
}

#[test]
fn wait_failures_are_reported() {
    let (mut manager, _sender, _receiver) = manager("sbx", &["native"]);
    bring_up(&mut manager, "native", 1);

    let mut lost = |call: &Call| match call {
        Call::Lock(_) => Event::Granted,
        Call::ContainerManager(ContainerCall::WaitProcess(_)) => {
            Event::ContainerManager(Err("gone".to_string()))
        }
        other => panic!("unexpected call {:?}", other),
    };
    let opened = Session::message(Request::WaitProcess(process("c")));
    let (calls, result) = drive(&mut manager, opened, &mut lost);
    assert_eq!(result.unwrap_err().message(), "handler request: wait process: gone");
    assert_eq!(calls.len(), 2);

    let mut stuck = |call: &Call| match call {
        Call::Lock(_) => Event::Granted,
        Call::ContainerManager(ContainerCall::WaitProcess(_)) => {
            Event::ContainerManager(Ok(Reply::Exit(ExitStatus { exit_code: 0 })))
        }
        Call::ContainerManager(ContainerCall::IsSandboxContainer(_)) => Event::Answer(true),
        Call::Sandbox(SandboxCall::Stop) => Event::Sandbox(Err("stuck".to_string())),
        other => panic!("unexpected call {:?}", other),
    };
    let opened = Session::request(Request::WaitProcess(process("c")));
    let (calls, result) = drive(&mut manager, opened, &mut stuck);
    let error = result.unwrap_err();
    assert_eq!(error, Error::Failed("stuck".to_string()).context(Label::StopSandbox));
    assert_eq!(error.message(), "stop sandbox: stuck");
    assert_eq!(calls.len(), 4);
}

#[test]
fn operations_hold_nothing_while_they_call() {
    let (mut manager, _sender, _receiver) = manager("sbx", &["native"]);
    bring_up(&mut manager, "native", 1);
    let mut world = kind_world("native", 1, 1);
    let opened = Session::message(Request::KillProcess(runtimes::types::KillRequest {
        process: process("c"),
        signal: 9,
        all: false,
    }));
    assert_eq!(opened.0.access(), Access::Shared);
    let (calls, result) = drive(&mut manager, opened, &mut world);
    assert_eq!(result, Ok(Response::KillProcess));
    assert_eq!(calls.len(), 2);
    assert_eq!(calls[0], (Call::Lock(Access::Shared), Access::Detached));
    assert_eq!(calls[1].1, Access::Detached);
    assert_eq!(calls[1].0.target(), Target::ContainerManager);
}

#[test]
fn two_operations_run_side_by_side() {
    let (mut manager, _sender, _receiver) = manager("sbx", &["native"]);
    bring_up(&mut manager, "native", 1);
    let manager = manager;

    let (first, step_one) = Session::<Instance>::message(Request::WaitProcess(process("a")));
    let (second, step_two) = Session::<Instance>::message(Request::StateProcess(process("b")));
    assert_eq!(step_one, Step::Perform(Call::Lock(Access::Shared)));
    assert_eq!(step_two, Step::Perform(Call::Lock(Access::Shared)));
    assert!(first.access().compatible(second.access()));

    // Both are let through under shared access; neither changes the manager.
    let (first, step_one) = manager.handler_request(first, Event::Granted);
    let (second, step_two) = manager.handler_request(second, Event::Granted);
    assert_eq!(first.access(), Access::Detached);
    assert_eq!(second.access(), Access::Detached);
    assert_eq!(
        step_one,
        Step::Perform(Call::ContainerManager(ContainerCall::WaitProcess(process("a"))))
    );
    assert_eq!(
        step_two,
        Step::Perform(Call::ContainerManager(ContainerCall::StateProcess(process("b"))))
    );
    assert_eq!(first.instance(), Some(&Instance { serial: 1 }));
    assert_eq!(second.instance(), Some(&Instance { serial: 1 }));

    // The second finishes while the first still waits, without the manager.
    let state = || runtimes::types::ProcessState {
        process: process("b"),
        pid: Pid { pid: 77 },
        status: runtimes::types::ProcessStatus::Running,
        exit_code: 0,
    };
    let (second, step_two) = second.resume(Event::ContainerManager(Ok(Reply::State(state()))));
    assert_eq!(step_two, Step::Done(Ok(Response::StateProcess(state()))));
    assert!(second.is_finished());

    let (first, step_one) =
        first.resume(Event::ContainerManager(Ok(Reply::Exit(ExitStatus { exit_code: 1 }))));
    assert_eq!(
        step_one,
        Step::Perform(Call::ContainerManager(ContainerCall::IsSandboxContainer(process("a"))))
    );
    let (first, step_one) = first.resume(Event::Answer(false));
    assert_eq!(step_one, Step::Done(Ok(Response::WaitProcess(ExitStatus { exit_code: 1 }))));
    assert_eq!(first.flow.stage, Stage::Finished);
}
