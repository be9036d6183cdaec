//! The parts that the sessions are made of.

use runtimes::config::{
    bundle_spec_path, resolve_config_path, KATA_CONF_FILE, OCI_SPEC_CONFIG_FILE_NAME,
};
use runtimes::error::{Error, ErrorKind, Label, Violation};
use runtimes::protocol::{Call, ContainerCall, SandboxCall, Target};
use runtimes::registry::Registry;
use runtimes::types::{
    ExitStatus, Pid, ProcessId, Reply, Request, RequestKind, Response, StatsInfo,
};

#[test]
fn spec_path_lies_in_the_bundle() {
    assert_eq!(OCI_SPEC_CONFIG_FILE_NAME, "config.json");
    assert_eq!(bundle_spec_path("/run/containers/abc"), "/run/containers/abc/config.json");
    assert_eq!(bundle_spec_path(""), "/config.json");
    assert_eq!(bundle_spec_path("rel/"), "rel//config.json");
}

#[test]
fn config_path_precedence() {
    assert_eq!(KATA_CONF_FILE, "KATA_CONF_FILE");
    let some = |path: &str| Some(path.to_string());
    assert_eq!(resolve_config_path(some("/a.toml"), some("/e.toml")), "/a.toml");
    assert_eq!(resolve_config_path(some("/a.toml"), None), "/a.toml");
    assert_eq!(resolve_config_path(None, some("/e.toml")), "/e.toml");
    assert_eq!(resolve_config_path(None, None), "");
    assert_eq!(resolve_config_path(some(""), some("/e.toml")), "");
}

#[test]
fn registry_selects_first_exact_match() {
    let mut registry = Registry::new();
    assert_eq!(registry.len(), 0);
    assert_eq!(registry.select("virt"), None);
    registry.register("linux".to_string());
    registry.register("virt".to_string());
    registry.register("wasm".to_string());
    registry.register("virt".to_string());
    assert_eq!(registry.len(), 4);
    assert_eq!(registry.select("linux"), Some(0));
    assert_eq!(registry.select("virt"), Some(1));
    assert_eq!(registry.select("wasm"), Some(2));
    assert_eq!(registry.select("Virt"), None);
    assert_eq!(registry.select("vir"), None);
    assert_eq!(registry.select("virt "), None);
    assert_eq!(registry.select(""), None);
    assert_eq!(registry.name(3).map(|name| name.as_str()), Some("virt"));
    assert_eq!(registry.name(4), None);
}

#[test]
fn label_texts() {
    assert_eq!(Label::LoadSpec.text(), "load spec");
    assert_eq!(Label::TryInitRuntimeHandler.text(), "try init runtime handler");
    assert_eq!(Label::LoadConfig.text(), "load config");
    assert_eq!(Label::LoadTomlConfig.text(), "load toml config");
    assert_eq!(Label::InitRuntimeHandler.text(), "init runtime handler");
    assert_eq!(Label::InitBackend.text(), "init backend");
    assert_eq!(Label::NewRuntimeInstance.text(), "new runtime instance");
    assert_eq!(Label::StartSandbox.text(), "start sandbox");
    assert_eq!(Label::StopSandbox.text(), "stop sandbox");
    assert_eq!(Label::HandlerRequest.text(), "handler request");
    assert_eq!(Label::Operation(RequestKind::CreateContainer).text(), "create container");
    assert_eq!(Label::Operation(RequestKind::ShutdownContainer).text(), "do shutdown");
    assert_eq!(Label::Operation(RequestKind::WaitProcess).text(), "wait process");
}

#[test]
fn error_chain_parts() {
    let error = Error::Failed("disk".to_string())
        .context(Label::LoadTomlConfig)
        .context(Label::LoadConfig)
        .context(Label::TryInitRuntimeHandler);
    assert_eq!(
        error.labels(),
        vec![Label::TryInitRuntimeHandler, Label::LoadConfig, Label::LoadTomlConfig]
    );
    assert_eq!(error.cause(), &Error::Failed("disk".to_string()));
    assert_eq!(error.kind(), ErrorKind::ConfigResolution);
    assert_eq!(error.message(), "try init runtime handler: load config: load toml config: disk");

    let bare = Error::NotReady;
    assert_eq!(bare.labels(), Vec::<Label>::new());
    assert_eq!(bare.cause(), &Error::NotReady);
    assert_eq!(bare.message(), "runtime not ready");
}

#[test]
fn error_kinds() {
    assert_eq!(Error::NotReady.kind(), ErrorKind::NotReady);
    assert_eq!(Error::UnsupportedRuntime("x".into()).kind(), ErrorKind::UnsupportedBackend);
    assert_eq!(Error::Violation(Violation::CreateInRouter).kind(), ErrorKind::ProtocolViolation);
    assert_eq!(Error::Failed("x".into()).kind(), ErrorKind::Delegated);
    let under = |label: Label| Error::Failed("x".to_string()).context(label).kind();
    assert_eq!(under(Label::LoadSpec), ErrorKind::ConfigResolution);
    assert_eq!(under(Label::LoadTomlConfig), ErrorKind::ConfigResolution);
    assert_eq!(under(Label::InitBackend), ErrorKind::BringUp);
    assert_eq!(under(Label::NewRuntimeInstance), ErrorKind::BringUp);
    assert_eq!(under(Label::StartSandbox), ErrorKind::SandboxStart);
    assert_eq!(under(Label::StopSandbox), ErrorKind::Delegated);
    assert_eq!(under(Label::Operation(RequestKind::KillProcess)), ErrorKind::Delegated);
    assert_eq!(
        Error::NotReady.context(Label::HandlerRequest).context(Label::LoadSpec).kind(),
        ErrorKind::NotReady
    );
}

#[test]
fn error_messages_of_causes() {
    assert_eq!(Error::UnsupportedRuntime("qemu".into()).message(), "Unsupported runtime: qemu");
    assert_eq!(Error::Failed("plain".into()).message(), "plain");
    assert_eq!(Error::Violation(Violation::UnexpectedEvent).message(), "unexpected event");
    assert_eq!(Violation::CreateInRouter.text(), "Unreachable request CreateContainer");
    assert_eq!(Violation::AccessRequired.text(), "access to the manager required");
    assert_eq!(Violation::AlreadyInitialized.text(), "runtime already initialized");
}

#[test]
fn kinds_of_requests_and_responses() {
    let process = || ProcessId { container_id: "c".into(), exec_id: String::new() };
    assert_eq!(Request::Pid.kind(), RequestKind::Pid);
    assert_eq!(Request::WaitProcess(process()).kind(), RequestKind::WaitProcess);
    assert_eq!(Request::StartProcess(process()).kind(), RequestKind::StartProcess);
    assert_eq!(Response::Pid(Pid { pid: 1 }).kind(), RequestKind::Pid);
    assert_eq!(Response::ShutdownContainer.kind(), RequestKind::ShutdownContainer);
    assert_eq!(
        Response::WaitProcess(ExitStatus { exit_code: 1 }).kind(),
        RequestKind::WaitProcess
    );
}

#[test]
fn responses_take_the_shape_of_their_operation() {
    assert_eq!(
        Response::shaped(RequestKind::CreateContainer, Reply::Pid(Pid { pid: 2 })),
        Some(Response::CreateContainer(Pid { pid: 2 }))
    );
    assert_eq!(
        Response::shaped(RequestKind::WaitProcess, Reply::Exit(ExitStatus { exit_code: -1 })),
        Some(Response::WaitProcess(ExitStatus { exit_code: -1 }))
    );
    assert_eq!(
        Response::shaped(RequestKind::ShutdownContainer, Reply::Done),
        Some(Response::ShutdownContainer)
    );
    assert_eq!(Response::shaped(RequestKind::CreateContainer, Reply::Done), None);
    assert_eq!(Response::shaped(RequestKind::KillProcess, Reply::Pid(Pid { pid: 2 })), None);
    assert_eq!(
        Response::shaped(RequestKind::Pid, Reply::Stats(StatsInfo { value: Vec::new() })),
        None
    );
}

#[test]
fn process_id_clones_to_an_equal() {
    let process = ProcessId { container_id: "c".into(), exec_id: "e".into() };
    assert_eq!(process.clone(), process);
}

#[test]
fn calls_name_who_serves_them() {
    assert_eq!(Call::LoadSpec { path: "p".into() }.target(), Target::Driver);
    assert_eq!(Call::ReadEnvironment { name: "n".into() }.target(), Target::Driver);
    assert_eq!(Call::LoadConfig { path: "p".into() }.target(), Target::Driver);
    assert_eq!(Call::InitBackend { backend: 0 }.target(), Target::Backend);
    assert_eq!(Call::NewInstance { backend: 0, id: "i".into() }.target(), Target::Backend);
    assert_eq!(Call::Sandbox(SandboxCall::Stop).target(), Target::Sandbox);
    assert_eq!(Call::ContainerManager(ContainerCall::Pid).target(), Target::ContainerManager);
}
