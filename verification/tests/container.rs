use std::sync::{Arc, Mutex};
use wasmrunner::container::{
    join_words, run_guarded, Container, ContainerConfig, ContainerState, NetworkMode,
    ResourceLimits, StopAction,
};
use wasmrunner::error::{FaultKind, WasmRunnerError};
use wasmrunner::runtime::{Backend, LoadedModule, RuntimeManager, WasmModule, WasmRuntime};
use wasmrunner::sandbox::guard::GuardKind;
use wasmrunner::sandbox::{GuardOp, Restrictions, Sandbox, SandboxConfig};

#[derive(Default)]
struct Seen {
    loads: usize,
    bytes: Vec<u8>,
    args: Vec<String>,
    environment: Vec<(String, String)>,
    restrictions: Option<Restrictions>,
}

struct ScriptedModule {
    outcome: Result<i32, WasmRunnerError>,
    seen: Arc<Mutex<Seen>>,
}

impl WasmModule for ScriptedModule {
    fn configure(&mut self, environment: Vec<(String, String)>, restrictions: Restrictions) {
        let mut seen = self.seen.lock().unwrap();
        seen.environment = environment;
        seen.restrictions = Some(restrictions);
    }

    fn execute(&mut self, args: Vec<String>) -> Result<i32, WasmRunnerError> {
        self.seen.lock().unwrap().args = args;
        self.outcome.clone()
    }

    fn exports(&self) -> Vec<String> {
        vec!["_start".to_string()]
    }
}

struct ScriptedRuntime {
    load: Result<(), WasmRunnerError>,
    outcome: Result<i32, WasmRunnerError>,
    seen: Arc<Mutex<Seen>>,
}

impl WasmRuntime for ScriptedRuntime {
    fn load_module(&mut self, wasm_bytes: &[u8]) -> Result<LoadedModule, WasmRunnerError> {
        {
            let mut seen = self.seen.lock().unwrap();
            seen.loads += 1;
            seen.bytes = wasm_bytes.to_vec();
        }
        self.load.clone()?;
        Ok(LoadedModule::Other(Box::new(ScriptedModule {
            outcome: self.outcome.clone(),
            seen: self.seen.clone(),
        })))
    }

    fn name(&self) -> &str {
        "scripted"
    }
}

fn registry(
    load: Result<(), WasmRunnerError>,
    outcome: Result<i32, WasmRunnerError>,
) -> (RuntimeManager, Arc<Mutex<Seen>>) {
    let seen = Arc::new(Mutex::new(Seen::default()));
    let mut manager = RuntimeManager::with_default("scripted".to_string());
    manager.register(
        "scripted".to_string(),
        Backend::Other(Box::new(ScriptedRuntime { load, outcome, seen: seen.clone() })),
    );
    (manager, seen)
}

fn config() -> ContainerConfig {
    ContainerConfig {
        image: "hello-world:latest".to_string(),
        name: "greeter".to_string(),
        args: vec!["--verbose".to_string(), "now".to_string()],
        environment: vec![("HOME".to_string(), "/root".to_string())],
        resource_limits: ResourceLimits { memory_mb: 128, cpu_percent: 100 },
        network_mode: NetworkMode::Closed,
        detached: false,
    }
}

fn unit() -> Container {
    Container::new(config(), SandboxConfig::default()).unwrap()
}

fn full_journal() -> Vec<GuardOp> {
    let order = [
        GuardKind::MemoryCeiling,
        GuardKind::CpuShare,
        GuardKind::SyscallFilter,
        GuardKind::Filesystem,
        GuardKind::Network,
        GuardKind::ProcessIsolation,
    ];
    let mut journal: Vec<GuardOp> = order.iter().map(|g| GuardOp::Applied(*g)).collect();
    journal.extend(order.iter().rev().map(|g| GuardOp::Released(*g)));
    journal
}

#[test]
fn new_unit_is_created_and_touches_no_guard() {
    let container = unit();
    assert_eq!(container.state, ContainerState::Created);
    assert_eq!(container.started_at, None);
    assert_eq!(container.finished_at, None);
    assert_eq!(container.exit_code, None);
    assert_eq!(container.config, config());
    assert_eq!(container.sandbox.config(), &SandboxConfig::default());
    assert!(!container.sandbox.is_active());
    assert!(container.sandbox.journal().is_empty());
}

#[test]
fn identifier_is_a_hyphenated_uuid() {
    let id = unit().id;
    assert_eq!(id.len(), 36);
    for (i, c) in id.chars().enumerate() {
        if i == 8 || i == 13 || i == 18 || i == 23 {
            assert_eq!(c, '-');
        } else {
            assert!(c.is_ascii_digit() || ('a'..='f').contains(&c));
        }
    }
    assert_ne!(unit().id, unit().id);
}

#[test]
fn assemble_keeps_its_parts() {
    let container =
        Container::assemble("abc".to_string(), config(), SandboxConfig::default(), 1234).unwrap();
    assert_eq!(container.id, "abc");
    assert_eq!(container.created_at, 1234);
    assert_eq!(container.state, ContainerState::Created);
    assert_eq!(container.config, config());
}

#[test]
fn waited_run_ends_stopped_with_the_exit_code() {
    let (mut manager, seen) = registry(Ok(()), Ok(7));
    let mut container = unit();
    let id = container.id.clone();
    assert_eq!(container.start_and_wait(&mut manager, &[1, 2, 3]), Ok(7));
    assert_eq!(container.state, ContainerState::Stopped);
    assert_eq!(container.exit_code, Some(7));
    assert!(container.started_at.unwrap() <= container.finished_at.unwrap());
    assert_eq!(container.id, id);
    assert_eq!(container.config, config());
    assert!(!container.sandbox.is_active());
    assert_eq!(container.sandbox.journal(), full_journal());
    assert_eq!(container.result(), Ok(7));
    assert_eq!(container.process_exit_code(), Some(7));
    assert_eq!(manager.available_runtimes(), vec!["scripted".to_string()]);

    let seen = seen.lock().unwrap();
    assert_eq!(seen.loads, 1);
    assert_eq!(seen.bytes, vec![1, 2, 3]);
    assert_eq!(seen.args, vec!["--verbose".to_string(), "now".to_string()]);
    assert_eq!(seen.environment, vec![("HOME".to_string(), "/root".to_string())]);
}

#[test]
fn module_runs_under_the_restrictions_of_the_policy() {
    let (mut manager, seen) = registry(Ok(()), Ok(0));
    let mut container = unit();
    container.start_and_wait(&mut manager, &[]).unwrap();
    let seen = seen.lock().unwrap();
    assert_eq!(
        seen.restrictions,
        Some(Restrictions {
            memory_ceiling: Some(134217728),
            cpu_share: Some(100),
            syscall_filter: true,
            filesystem_gated: true,
            permitted_paths: vec!["/tmp".to_string()],
            network_denied: true,
            process_isolated: true,
        })
    );
}

#[test]
fn denied_syscall_ends_failed_with_the_sandbox_torn_down() {
    let fault = WasmRunnerError::ExecutionFault(
        FaultKind::PermissionDenied,
        "network access is denied".to_string(),
    );
    let (mut manager, _) = registry(Ok(()), Err(fault.clone()));
    let policy = ContainerConfig {
        resource_limits: ResourceLimits { memory_mb: 128, cpu_percent: 100 },
        network_mode: NetworkMode::Closed,
        ..config()
    }
    .sandbox_policy();
    assert!(policy.enable_seccomp);
    let mut container = Container::new(config(), policy).unwrap();
    assert_eq!(container.start_and_wait(&mut manager, &[]), Err(fault.clone()));
    assert_eq!(container.state, ContainerState::Failed(fault.clone()));
    assert_ne!(container.state, ContainerState::Running);
    assert_eq!(container.exit_code, None);
    assert!(container.finished_at.is_some());
    assert!(!container.sandbox.is_active());
    assert!(container.sandbox.live_guards().is_empty());
    assert_eq!(container.sandbox.journal(), full_journal());
    assert_eq!(container.result(), Err(fault));
    assert_eq!(container.process_exit_code(), Some(125));
}

#[test]
fn real_module_with_a_socket_import_is_denied() {
    // A module whose `_start` calls `sock_accept` of WASI.
    let mut bytes = vec![0x00, 0x61, 0x73, 0x6d, 0x01, 0x00, 0x00, 0x00];
    bytes.extend_from_slice(&[
        0x01, 0x0b, 0x02, 0x60, 0x03, 0x7f, 0x7f, 0x7f, 0x01, 0x7f, 0x60, 0x00, 0x00,
    ]);
    bytes.extend_from_slice(&[0x02, 0x26, 0x01, 0x16]);
    bytes.extend_from_slice(b"wasi_snapshot_preview1");
    bytes.push(0x0b);
    bytes.extend_from_slice(b"sock_accept");
    bytes.extend_from_slice(&[0x00, 0x00]);
    bytes.extend_from_slice(&[0x03, 0x02, 0x01, 0x01]);
    bytes.extend_from_slice(&[0x05, 0x03, 0x01, 0x00, 0x01]);
    bytes.extend_from_slice(&[0x07, 0x13, 0x02, 0x06]);
    bytes.extend_from_slice(b"_start");
    bytes.extend_from_slice(&[0x00, 0x01, 0x06]);
    bytes.extend_from_slice(b"memory");
    bytes.extend_from_slice(&[0x02, 0x00]);
    bytes.extend_from_slice(&[
        0x0a, 0x0d, 0x01, 0x0b, 0x00, 0x41, 0x00, 0x41, 0x00, 0x41, 0x00, 0x10, 0x00, 0x1a, 0x0b,
    ]);

    let mut manager = RuntimeManager::new().unwrap();
    let request = config();
    let policy = request.sandbox_policy();
    let mut container = Container::new(request, policy).unwrap();
    let fault = WasmRunnerError::ExecutionFault(
        FaultKind::PermissionDenied,
        "the policy denies the import sock_accept".to_string(),
    );
    assert_eq!(container.start_and_wait(&mut manager, &bytes), Err(fault.clone()));
    assert_eq!(container.state, ContainerState::Failed(fault));
    assert!(!container.sandbox.is_active());
    assert_eq!(container.sandbox.journal(), full_journal());
}

#[test]
fn refused_guard_fails_the_run_before_anything_is_loaded() {
    let (mut manager, seen) = registry(Ok(()), Ok(0));
    let mut policy = SandboxConfig::default();
    policy.cpu_limit = Some(200);
    let mut container = Container::new(config(), policy).unwrap();
    let failure = WasmRunnerError::SandboxSetup(
        GuardKind::CpuShare,
        "the cpu share is above 100 percent".to_string(),
    );
    assert_eq!(container.start_and_wait(&mut manager, &[]), Err(failure.clone()));
    assert_eq!(container.state, ContainerState::Failed(failure));
    assert!(container.started_at.unwrap() <= container.finished_at.unwrap());
    assert!(!container.sandbox.is_active());
    assert_eq!(
        container.sandbox.journal(),
        vec![
            GuardOp::Applied(GuardKind::MemoryCeiling),
            GuardOp::Released(GuardKind::MemoryCeiling)
        ]
    );
    assert_eq!(seen.lock().unwrap().loads, 0);
}

#[test]
fn unknown_default_backend_fails_the_run_and_leaves_the_sandbox() {
    let mut manager = RuntimeManager::with_default("primary".to_string());
    let mut container = unit();
    let failure = WasmRunnerError::RuntimeNotFound("primary".to_string());
    assert_eq!(container.start_and_wait(&mut manager, &[]), Err(failure.clone()));
    assert_eq!(container.state, ContainerState::Failed(failure));
    assert!(!container.sandbox.is_active());
    assert_eq!(container.sandbox.journal(), full_journal());
}

#[test]
fn load_failure_fails_the_run_and_leaves_the_sandbox() {
    let failure = WasmRunnerError::Validation("bad magic".to_string());
    let (mut manager, seen) = registry(Err(failure.clone()), Ok(0));
    let mut container = unit();
    assert_eq!(container.start_and_wait(&mut manager, &[9]), Err(failure.clone()));
    assert_eq!(container.state, ContainerState::Failed(failure));
    assert!(!container.sandbox.is_active());
    assert_eq!(container.sandbox.journal(), full_journal());
    assert_eq!(seen.lock().unwrap().loads, 1);
    assert!(seen.lock().unwrap().args.is_empty());
}

#[test]
fn invalid_bytes_fail_the_run_with_the_real_backend() {
    let mut manager = RuntimeManager::new().unwrap();
    let mut container = unit();
    match container.start_and_wait(&mut manager, &[0xde, 0xad]) {
        Err(WasmRunnerError::Validation(_)) => {}
        other => panic!("expected a validation error, got {:?}", other),
    }
    assert!(matches!(container.state, ContainerState::Failed(WasmRunnerError::Validation(_))));
    assert!(!container.sandbox.is_active());
}

#[test]
fn real_module_runs_to_its_exit_code() {
    // (module (func (export "main") (result i32) i32.const 42))
    let bytes = [
        0x00, 0x61, 0x73, 0x6d, 0x01, 0x00, 0x00, 0x00, 0x01, 0x05, 0x01, 0x60, 0x00, 0x01, 0x7f,
        0x03, 0x02, 0x01, 0x00, 0x07, 0x08, 0x01, 0x04, b'm', b'a', b'i', b'n', 0x00, 0x00, 0x0a,
        0x06, 0x01, 0x04, 0x00, 0x41, 0x2a, 0x0b,
    ];
    let mut manager = RuntimeManager::new().unwrap();
    let mut container = unit();
    assert_eq!(container.start_and_wait(&mut manager, &bytes), Ok(42));
    assert_eq!(container.state, ContainerState::Stopped);
    assert_eq!(container.exit_code, Some(42));
    assert_eq!(container.process_exit_code(), Some(42));
}

#[test]
fn module_without_entry_point_runs_to_zero() {
    let bytes = [0x00, 0x61, 0x73, 0x6d, 0x01, 0x00, 0x00, 0x00];
    let mut manager = RuntimeManager::new().unwrap();
    let mut container = unit();
    assert_eq!(container.start_and_wait(&mut manager, &bytes), Ok(0));
    assert_eq!(container.state, ContainerState::Stopped);
}

#[test]
fn detached_start_returns_the_id_at_once() {
    let mut container = unit();
    let id = container.start_detached().unwrap();
    assert_eq!(id, container.id);
    assert_eq!(container.state, ContainerState::Running);
    assert!(container.started_at.is_some());
    assert_eq!(container.finished_at, None);
    assert_eq!(container.status(), "running");

    let end = container.started_at.unwrap() + 25;
    assert_eq!(container.complete(Ok(0), end), Ok(0));
    assert_eq!(container.state, ContainerState::Stopped);
    assert_eq!(container.finished_at, Some(end));
    assert_eq!(container.exit_code, Some(0));
    assert_eq!(container.status(), "stopped");
}

#[test]
fn detached_run_with_its_own_sandbox() {
    let (mut manager, seen) = registry(Ok(()), Ok(5));
    let mut container = unit();
    container.start_detached().unwrap();
    let mut sandbox = Sandbox::new(container.sandbox.config().duplicate());
    let outcome = run_guarded(
        &mut sandbox,
        &mut manager,
        &[1],
        container.config.args.clone(),
        container.config.environment.clone(),
    );
    assert_eq!(outcome, Ok(5));
    assert!(!sandbox.is_active());
    assert_eq!(sandbox.journal(), full_journal());
    assert_eq!(seen.lock().unwrap().loads, 1);
    let end = container.started_at.unwrap();
    assert_eq!(container.complete(outcome, end), Ok(5));
    assert_eq!(container.state, ContainerState::Stopped);
}

#[test]
fn stop_mid_invocation_ends_the_isolated_context() {
    let mut container = unit();
    container.start_detached().unwrap();
    let start = container.started_at.unwrap();
    assert_eq!(container.stop(start + 10), StopAction::Terminate);
    assert_eq!(container.state, ContainerState::Stopped);
    assert_eq!(container.finished_at, Some(start + 10));
    assert_eq!(container.exit_code, None);
    assert_eq!(container.result(), Err(WasmRunnerError::Cancellation));

    // The invocation reports its end after the stop: it no longer counts.
    assert_eq!(container.complete(Ok(0), start + 20), Err(WasmRunnerError::Cancellation));
    assert_eq!(container.state, ContainerState::Stopped);
    assert_eq!(container.finished_at, Some(start + 10));
    assert_eq!(container.exit_code, None);
    assert_eq!(container.process_exit_code(), None);
}

#[test]
fn stop_without_isolation_is_cooperative() {
    let mut policy = SandboxConfig::default();
    policy.enable_process_isolation = false;
    let mut container = Container::new(config(), policy).unwrap();
    container.start_detached().unwrap();
    assert_eq!(container.stop(0), StopAction::Interrupt);
    assert_eq!(container.state, ContainerState::Stopped);
}

#[test]
fn stop_of_a_unit_that_is_not_running_changes_nothing() {
    let mut container = unit();
    assert_eq!(container.stop(5), StopAction::NotRunning);
    assert_eq!(container.state, ContainerState::Created);
    assert_eq!(container.finished_at, None);

    let (mut manager, _) = registry(Ok(()), Ok(3));
    container.start_and_wait(&mut manager, &[]).unwrap();
    let finished = container.finished_at;
    assert_eq!(container.stop(i64::MAX), StopAction::NotRunning);
    assert_eq!(container.state, ContainerState::Stopped);
    assert_eq!(container.finished_at, finished);
    assert_eq!(container.exit_code, Some(3));
}

#[test]
fn failed_unit_stays_failed() {
    let fault = WasmRunnerError::ExecutionFault(FaultKind::Trap, "unreachable".to_string());
    let mut container = unit();
    container.begin(100);
    assert_eq!(container.complete(Err(fault.clone()), 200), Err(fault.clone()));
    assert_eq!(container.stop(300), StopAction::NotRunning);
    assert_eq!(container.complete(Ok(0), 400), Err(fault.clone()));
    container.expire(500);
    assert_eq!(container.state, ContainerState::Failed(fault));
    assert_eq!(container.finished_at, Some(200));
}

#[test]
fn passed_deadline_fails_the_unit() {
    let mut container = unit();
    container.begin(1000);
    container.expire(4000);
    assert_eq!(
        container.state,
        ContainerState::Failed(WasmRunnerError::ExecutionFault(
            FaultKind::TimedOut,
            "the deadline of the invocation has passed".to_string()
        ))
    );
    assert_eq!(container.started_at, Some(1000));
    assert_eq!(container.finished_at, Some(4000));
    assert_eq!(container.exit_code, None);
    assert_eq!(container.process_exit_code(), Some(125));

    let mut idle = unit();
    idle.expire(1);
    assert_eq!(idle.state, ContainerState::Created);
}

#[test]
fn begin_records_the_start() {
    let mut container = unit();
    container.begin(42);
    assert_eq!(container.state, ContainerState::Running);
    assert_eq!(container.started_at, Some(42));
    assert_eq!(container.finished_at, None);
}

#[test]
fn end_is_never_before_the_start() {
    let mut container = unit();
    container.begin(100);
    container.complete(Ok(0), 50).unwrap();
    assert_eq!(container.started_at, Some(100));
    assert_eq!(container.finished_at, Some(100));

    let mut container = unit();
    container.begin(100);
    container.stop(-5);
    assert_eq!(container.finished_at, Some(100));

    let mut container = unit();
    container.begin(100);
    container.complete(Ok(0), 100).unwrap();
    assert_eq!(container.finished_at, Some(100));
}

#[test]
fn policy_of_a_configuration() {
    let policy = config().sandbox_policy();
    assert_eq!(policy.memory_limit, Some(128 * 1024 * 1024));
    assert_eq!(policy.cpu_limit, Some(100));
    assert!(policy.enable_seccomp);
    assert_eq!(policy.seccomp_profile, None);
    assert!(!policy.allow_network);
    assert!(policy.allow_filesystem);
    assert_eq!(policy.allowed_paths, vec!["/tmp".to_string()]);
    assert!(policy.enable_process_isolation);

    let mut open = config();
    open.network_mode = NetworkMode::Host;
    open.resource_limits = ResourceLimits { memory_mb: 1, cpu_percent: 50 };
    let policy = open.sandbox_policy();
    assert!(policy.allow_network);
    assert_eq!(policy.memory_limit, Some(1048576));
    assert_eq!(policy.cpu_limit, Some(50));
}

#[test]
fn memory_in_bytes_saturates() {
    assert_eq!(ResourceLimits { memory_mb: 3, cpu_percent: 1 }.memory_bytes(), 3145728);
    assert_eq!(ResourceLimits { memory_mb: 0, cpu_percent: 1 }.memory_bytes(), 0);
    assert_eq!(
        ResourceLimits { memory_mb: 17592186044415, cpu_percent: 1 }.memory_bytes(),
        18446744073708503040
    );
    assert_eq!(
        ResourceLimits { memory_mb: 17592186044416, cpu_percent: 1 }.memory_bytes(),
        u64::MAX
    );
    assert_eq!(ResourceLimits { memory_mb: u64::MAX, cpu_percent: 1 }.memory_bytes(), u64::MAX);
}

#[test]
fn limits_invariant() {
    assert!(ResourceLimits { memory_mb: 1, cpu_percent: 100 }.is_well_formed());
    assert!(ResourceLimits { memory_mb: 1, cpu_percent: 0 }.is_well_formed());
    assert!(!ResourceLimits { memory_mb: 0, cpu_percent: 100 }.is_well_formed());
    assert!(!ResourceLimits { memory_mb: 1, cpu_percent: 101 }.is_well_formed());
}

#[test]
fn no_unit_holds_limits_outside_their_invariant() {
    let mut request = config();
    request.resource_limits = ResourceLimits { memory_mb: 0, cpu_percent: 100 };
    assert_eq!(
        Container::new(request.clone(), SandboxConfig::default()).err(),
        Some(WasmRunnerError::SandboxSetup(
            GuardKind::MemoryCeiling,
            "the memory ceiling is zero".to_string()
        ))
    );
    assert_eq!(request.validate(), Container::new(request, SandboxConfig::default()).map(|_| ()));

    let mut request = config();
    request.resource_limits = ResourceLimits { memory_mb: 1, cpu_percent: 101 };
    assert_eq!(
        Container::new(request, SandboxConfig::default()).err(),
        Some(WasmRunnerError::SandboxSetup(
            GuardKind::CpuShare,
            "the cpu share is above 100 percent".to_string()
        ))
    );

    let mut request = config();
    request.resource_limits = ResourceLimits { memory_mb: 0, cpu_percent: 200 };
    assert!(matches!(
        Container::assemble("x".to_string(), request, SandboxConfig::default(), 0),
        Err(WasmRunnerError::SandboxSetup(GuardKind::MemoryCeiling, _))
    ));
}

#[test]
fn no_unit_holds_a_variable_twice() {
    let mut request = config();
    request.environment.push(("HOME".to_string(), "/elsewhere".to_string()));
    assert_eq!(
        Container::new(request, SandboxConfig::default()).err(),
        Some(WasmRunnerError::Validation("an environment variable is set twice".to_string()))
    );
    assert_eq!(config().validate(), Ok(()));
    assert!(Container::new(config(), SandboxConfig::default()).is_ok());
}

#[test]
fn unit_with_limits_at_their_bounds_is_made() {
    let mut request = config();
    request.resource_limits = ResourceLimits { memory_mb: 1, cpu_percent: 100 };
    assert!(Container::new(request.clone(), SandboxConfig::default()).is_ok());
    request.resource_limits = ResourceLimits { memory_mb: u64::MAX, cpu_percent: 0 };
    let container = Container::new(request.clone(), SandboxConfig::default()).unwrap();
    assert_eq!(container.config, request);
}

#[test]
fn unit_in_a_terminal_state_is_not_run_again() {
    let (mut manager, seen) = registry(Ok(()), Ok(7));
    let mut container = unit();
    assert_eq!(container.start_and_wait(&mut manager, &[1]), Ok(7));
    let started = container.started_at;
    let finished = container.finished_at;
    let journal = container.sandbox.journal();

    assert_eq!(container.start_and_wait(&mut manager, &[2]), Ok(7));
    assert_eq!(container.state, ContainerState::Stopped);
    assert_eq!(container.started_at, started);
    assert_eq!(container.finished_at, finished);
    assert_eq!(container.sandbox.journal(), journal);
    assert_eq!(seen.lock().unwrap().loads, 1);
    assert_eq!(seen.lock().unwrap().bytes, vec![1]);

    assert_eq!(container.start_detached(), Ok(container.id.clone()));
    assert_eq!(container.state, ContainerState::Stopped);
    assert_eq!(container.started_at, started);
    container.begin(i64::MAX);
    assert_eq!(container.state, ContainerState::Stopped);
    assert_eq!(container.started_at, started);
}

#[test]
fn failed_unit_is_not_run_again() {
    let fault = WasmRunnerError::ExecutionFault(FaultKind::Trap, "boom".to_string());
    let (mut manager, seen) = registry(Ok(()), Err(fault.clone()));
    let mut container = unit();
    assert_eq!(container.start_and_wait(&mut manager, &[]), Err(fault.clone()));
    let finished = container.finished_at;
    assert_eq!(container.start_and_wait(&mut manager, &[]), Err(fault.clone()));
    assert_eq!(container.state, ContainerState::Failed(fault));
    assert_eq!(container.finished_at, finished);
    assert_eq!(seen.lock().unwrap().loads, 1);
}

#[test]
fn running_unit_is_not_started_again() {
    let (mut manager, seen) = registry(Ok(()), Ok(0));
    let mut container = unit();
    container.begin(10);
    assert_eq!(
        container.start_and_wait(&mut manager, &[]),
        Err(WasmRunnerError::Cancellation)
    );
    assert_eq!(container.state, ContainerState::Running);
    assert_eq!(container.started_at, Some(10));
    assert_eq!(container.finished_at, None);
    assert_eq!(seen.lock().unwrap().loads, 0);
    container.begin(20);
    assert_eq!(container.started_at, Some(10));
}

#[test]
fn listing_of_a_unit() {
    let container = Container::assemble(
        "123e4567-e89b-42d3-a456-426614174000".to_string(),
        config(),
        SandboxConfig::default(),
        1700000000000,
    )
    .unwrap();
    let summary = container.summary();
    assert_eq!(summary.id, "123e4567-e89");
    assert_eq!(summary.image, "hello-world:latest");
    assert_eq!(summary.command, "--verbose now");
    assert_eq!(summary.created_at, 1700000000000);
    assert_eq!(summary.status, "created");
    assert_eq!(summary.name, "greeter");

    let short =
        Container::assemble("abc".to_string(), config(), SandboxConfig::default(), 0).unwrap();
    assert_eq!(short.summary().id, "abc");
}

#[test]
fn status_of_each_state() {
    let mut container = unit();
    assert_eq!(container.status(), "created");
    container.begin(0);
    assert_eq!(container.status(), "running");
    container
        .complete(Err(WasmRunnerError::ExecutionFault(FaultKind::Trap, "boom".to_string())), 1)
        .unwrap_err();
    assert_eq!(container.status(), "failed: invoke: execution fault: trap: boom");
}

#[test]
fn words_are_joined_with_spaces() {
    assert_eq!(join_words(&Vec::new()), "");
    assert_eq!(join_words(&vec!["one".to_string()]), "one");
    assert_eq!(
        join_words(&vec!["a".to_string(), "".to_string(), "c d".to_string()]),
        "a  c d"
    );
}

#[test]
fn terminal_states() {
    assert!(!ContainerState::Created.is_terminal());
    assert!(!ContainerState::Running.is_terminal());
    assert!(ContainerState::Stopped.is_terminal());
    assert!(ContainerState::Failed(WasmRunnerError::Cancellation).is_terminal());
    let failed = ContainerState::Failed(WasmRunnerError::Validation("x".to_string()));
    assert_eq!(failed.duplicate(), failed);
}

#[test]
fn configuration_invariant() {
    assert!(config().is_well_formed());
    let mut twice = config();
    twice.environment.push(("HOME".to_string(), "/other".to_string()));
    assert!(!twice.is_well_formed());
    let mut greedy = config();
    greedy.resource_limits.cpu_percent = 101;
    assert!(!greedy.is_well_formed());
}

#[test]
fn unit_invariant() {
    let mut container = unit();
    assert!(container.is_well_formed());
    container.begin(10);
    assert!(container.is_well_formed());
    container.complete(Ok(0), 20).unwrap();
    assert!(container.is_well_formed());

    let mut broken = unit();
    broken.started_at = Some(5);
    assert!(!broken.is_well_formed());
    let mut backwards = unit();
    backwards.state = ContainerState::Stopped;
    backwards.started_at = Some(9);
    backwards.finished_at = Some(3);
    assert!(!backwards.is_well_formed());
    let mut entered = unit();
    entered.sandbox.apply_restrictions().unwrap();
    assert!(!entered.is_well_formed());
    assert!(entered.sandbox.is_well_formed());
}
