//! One execution of a module: its identity, its configuration and its state.
//!
//! A unit is created in the state `Created`, is started once, and ends in
//! `Stopped` or `Failed`. It never goes back: to run a module again, a new
//! unit is made. The sandbox is entered when the unit starts and is always
//! left before the unit reaches its terminal state.

use crate::environment::{has_unique_keys, unique_keys};
use crate::error::{FaultKind, WasmRunnerError};
use crate::host::{clock_millis, is_identifier, random_uuid, uuid_text};
use crate::runtime::manager::position;
use crate::runtime::wasmtime_runtime::{
    denied_under, lemma_denial_by_the_gates, permission_denied,
};
use crate::runtime::{RuntimeManager, WasmModule, WasmRuntime};
use crate::sandbox::config::MAX_CPU_PERCENT;
use crate::sandbox::guard::GuardKind;
use crate::sandbox::{
    entered, left, lemma_leave_is_idempotent, refusal, refusal_cause, refusal_text, unwound,
    Restrictions, Sandbox, SandboxConfig,
};
use crate::text::{copy_pairs, copy_strings};
use vstd::prelude::*;

verus! {

/// The bytes in one mebibyte.
pub const BYTES_PER_MB: u64 = 1048576;

/// The resources that an execution may use.
#[derive(Debug, Clone, Copy, PartialEq, Eq, Structural)]
pub struct ResourceLimits {
    /// The memory ceiling, in mebibytes.
    pub memory_mb: u64,
    /// The share of the processor, in percent.
    pub cpu_percent: u32,
}

/// How an execution reaches the network.
#[derive(Debug, Clone, Copy, PartialEq, Eq, Structural)]
pub enum NetworkMode {
    /// Not at all: the mode `none`.
    Closed,
    /// As the host does: the mode `host`.
    Host,
}

/// What is to be run, and how.
#[derive(Debug, Clone, PartialEq, Eq)]
pub struct ContainerConfig {
    /// The reference of the module.
    pub image: String,
    /// The name under which the unit is shown.
    pub name: String,
    /// The arguments of the invocation, in order.
    pub args: Vec<String>,
    /// The environment variables, each name once.
    pub environment: Vec<(String, String)>,
    pub resource_limits: ResourceLimits,
    pub network_mode: NetworkMode,
    /// Whether the caller goes on without waiting for the end.
    pub detached: bool,
}

/// The state of a unit. `Stopped` and `Failed` are terminal.
#[derive(Debug, Clone, PartialEq, Eq)]
pub enum ContainerState {
    Created,
    Running,
    Stopped,
    Failed(WasmRunnerError),
}

/// What a request to stop asks of whoever runs the module.
#[derive(Debug, Clone, Copy, PartialEq, Eq, Structural)]
pub enum StopAction {
    /// The unit was not running: nothing is to be done.
    NotRunning,
    /// The invocation is to be interrupted where the backend supports it.
    Interrupt,
    /// The isolated context of the invocation is to be ended.
    Terminate,
}

/// One execution of a module.
pub struct Container {
    pub id: String,
    pub config: ContainerConfig,
    pub state: ContainerState,
    /// When the unit was made, in milliseconds since the start of 1970.
    pub created_at: i64,
    pub started_at: Option<i64>,
    pub finished_at: Option<i64>,
    /// The exit code of the module, once it has ended by itself.
    pub exit_code: Option<i32>,
    pub sandbox: Sandbox,
}

/// The part of a unit that changes: its state, its times and its exit code.
pub struct Lifecycle {
    pub state: ContainerState,
    pub started_at: Option<i64>,
    pub finished_at: Option<i64>,
    pub exit_code: Option<i32>,
}

/// The later of two times.
pub open spec fn later(a: i64, b: i64) -> i64 {
    if a >= b {
        a
    } else {
        b
    }
}

/// The time that is recorded as the end: the clock's reading, or the start
/// where the clock has stepped back behind it.
pub open spec fn finish_time(l: Lifecycle, now: i64) -> i64 {
    match l.started_at {
        Some(start) => later(now, start),
        None => now,
    }
}

/// The lifecycle after a start at `now`. Only a created unit starts.
pub open spec fn began(l: Lifecycle, now: i64) -> Lifecycle {
    if l.state is Created {
        Lifecycle {
            state: ContainerState::Running,
            started_at: Some(now),
            finished_at: None,
            exit_code: None,
        }
    } else {
        l
    }
}

/// The lifecycle after the invocation has ended with `outcome` at `now`.
/// Only a running unit ends; a unit in a terminal state stays as it is.
pub open spec fn completed(
    l: Lifecycle,
    outcome: Result<i32, WasmRunnerError>,
    now: i64,
) -> Lifecycle {
    if l.state is Running {
        match outcome {
            Ok(code) => Lifecycle {
                state: ContainerState::Stopped,
                started_at: l.started_at,
                finished_at: Some(finish_time(l, now)),
                exit_code: Some(code),
            },
            Err(e) => Lifecycle {
                state: ContainerState::Failed(e),
                started_at: l.started_at,
                finished_at: Some(finish_time(l, now)),
                exit_code: None,
            },
        }
    } else {
        l
    }
}

/// The lifecycle after a request to stop at `now`. Only a running unit is
/// stopped.
pub open spec fn stopped(l: Lifecycle, now: i64) -> Lifecycle {
    if l.state is Running {
        Lifecycle {
            state: ContainerState::Stopped,
            started_at: l.started_at,
            finished_at: Some(finish_time(l, now)),
            exit_code: None,
        }
    } else {
        l
    }
}

/// What a unit in a terminal state has to show for its execution: the exit
/// code of a module that ended by itself, `Cancellation` for a unit that was
/// stopped, the failure of a unit that failed.
pub open spec fn result_of(l: Lifecycle) -> Result<i32, WasmRunnerError> {
    match l.state {
        ContainerState::Failed(e) => Err(e),
        _ => match l.exit_code {
            Some(code) => Ok(code),
            None => Err(WasmRunnerError::Cancellation),
        },
    }
}

/// How far a state is along the lifecycle.
pub open spec fn progress(state: ContainerState) -> int {
    match state {
        ContainerState::Created => 0,
        ContainerState::Running => 1,
        ContainerState::Stopped => 2,
        ContainerState::Failed(_) => 2,
    }
}

/// The invariant of a lifecycle: the times and the exit code fit the state,
/// and a unit does not end before it starts.
pub open spec fn lifecycle_well_formed(l: Lifecycle) -> bool {
    match l.state {
        ContainerState::Created => l.started_at is None && l.finished_at is None && l.exit_code
            is None,
        ContainerState::Running => l.started_at is Some && l.finished_at is None && l.exit_code
            is None,
        ContainerState::Stopped => l.started_at is Some && l.finished_at is Some
            && l.started_at->0 <= l.finished_at->0,
        ContainerState::Failed(_) => l.started_at is Some && l.finished_at is Some
            && l.started_at->0 <= l.finished_at->0 && l.exit_code is None,
    }
}

impl ResourceLimits {
    /// The invariant of the limits: some memory, and no more than the whole
    /// processor.
    pub open spec fn well_formed(&self) -> bool {
        self.memory_mb > 0 && self.cpu_percent <= MAX_CPU_PERCENT
    }

    /// The memory ceiling in bytes; the largest number where the bytes do
    /// not fit.
    pub open spec fn spec_memory_bytes(&self) -> u64 {
        if self.memory_mb * BYTES_PER_MB <= u64::MAX {
            (self.memory_mb * BYTES_PER_MB) as u64
        } else {
            u64::MAX
        }
    }

    pub fn memory_bytes(&self) -> (bytes: u64)
        ensures
            bytes == self.spec_memory_bytes(),
    {
        match self.memory_mb.checked_mul(BYTES_PER_MB) {
            Some(bytes) => bytes,
            None => u64::MAX,
        }
    }

    pub fn is_well_formed(&self) -> (b: bool)
        ensures
            b == self.well_formed(),
    {
        self.memory_mb > 0 && self.cpu_percent <= MAX_CPU_PERCENT
    }
}

impl ContainerConfig {
    /// The invariant of a configuration: the limits keep theirs, and no
    /// environment variable is named twice.
    pub open spec fn well_formed(&self) -> bool {
        &&& self.resource_limits.well_formed()
        &&& unique_keys(self.environment.deep_view())
    }

    pub fn is_well_formed(&self) -> (b: bool)
        ensures
            b == self.well_formed(),
    {
        self.resource_limits.is_well_formed() && has_unique_keys(&self.environment)
    }

    /// The policy that belongs to the configuration.
    ///
    /// The memory ceiling and the share of the processor are those of the
    /// resource limits, and the network is open in the mode `Host` only. For
    /// the rest the policy is the default one: syscalls are filtered, the
    /// filesystem is open below `/tmp`, and the process is isolated.
    pub fn sandbox_policy(&self) -> (policy: SandboxConfig)
        ensures
            policy.memory_limit == Some(self.resource_limits.spec_memory_bytes()),
            policy.cpu_limit == Some(self.resource_limits.cpu_percent),
            policy.enable_seccomp,
            policy.seccomp_profile is None,
            policy.allow_network == (self.network_mode is Host),
            policy.allow_filesystem,
            policy.allowed_paths@.len() == 1,
            policy.allowed_paths@[0]@ == "/tmp"@,
            policy.enable_process_isolation,
            self.resource_limits.well_formed() ==> policy.well_formed(),
    {
        let policy = SandboxConfig {
            memory_limit: Some(self.resource_limits.memory_bytes()),
            cpu_limit: Some(self.resource_limits.cpu_percent),
            enable_seccomp: true,
            seccomp_profile: None,
            allow_network: match self.network_mode {
                NetworkMode::Host => true,
                NetworkMode::Closed => false,
            },
            allow_filesystem: true,
            allowed_paths: vec!["/tmp".to_owned()],
            enable_process_isolation: true,
        };
        proof {
            if self.resource_limits.well_formed() {
                assert(self.resource_limits.memory_mb * BYTES_PER_MB > 0) by (nonlinear_arith)
                    requires
                        self.resource_limits.memory_mb > 0,
                        BYTES_PER_MB == 1048576,
                ;
                assert forall|g: GuardKind| !policy.refuses(g) by {
                    match g {
                        GuardKind::MemoryCeiling => {},
                        GuardKind::CpuShare => {},
                        GuardKind::SyscallFilter => {},
                        GuardKind::Filesystem => {},
                        GuardKind::Network => {},
                        GuardKind::ProcessIsolation => {},
                    }
                }
            }
        }
        policy
    }
}

/// What the failure says of a configuration that names a variable twice.
pub open spec fn variable_twice() -> Seq<char> {
    "an environment variable is set twice"@
}

/// Whether `e` is the failure of a configuration that breaks its
/// invariant: a memory ceiling of zero and a share above the whole
/// processor fail as the guard of that limit does, in this order, and a
/// variable that is set twice fails validation.
pub open spec fn config_refusal(config: ContainerConfig, e: WasmRunnerError) -> bool {
    if config.resource_limits.memory_mb == 0 {
        e matches WasmRunnerError::SandboxSetup(g, cause) && g == GuardKind::MemoryCeiling
            && cause@ == refusal_cause(GuardKind::MemoryCeiling)
    } else if config.resource_limits.cpu_percent > MAX_CPU_PERCENT {
        e matches WasmRunnerError::SandboxSetup(g, cause) && g == GuardKind::CpuShare && cause@
            == refusal_cause(GuardKind::CpuShare)
    } else if !unique_keys(config.environment.deep_view()) {
        e matches WasmRunnerError::Validation(text) && text@ == variable_twice()
    } else {
        false
    }
}

impl ContainerConfig {
    /// Holds the configuration to its invariant.
    pub fn validate(&self) -> (r: Result<(), WasmRunnerError>)
        ensures
            r is Ok <==> self.well_formed(),
            r matches Err(e) ==> config_refusal(*self, e),
    {
        if self.resource_limits.memory_mb == 0 {
            Err(
                WasmRunnerError::SandboxSetup(
                    GuardKind::MemoryCeiling,
                    refusal_text(GuardKind::MemoryCeiling),
                ),
            )
        } else if self.resource_limits.cpu_percent > MAX_CPU_PERCENT {
            Err(
                WasmRunnerError::SandboxSetup(
                    GuardKind::CpuShare,
                    refusal_text(GuardKind::CpuShare),
                ),
            )
        } else if !has_unique_keys(&self.environment) {
            Err(WasmRunnerError::Validation("an environment variable is set twice".to_owned()))
        } else {
            Ok(())
        }
    }
}

impl ContainerState {
    /// Whether the state is one that a unit never leaves.
    pub open spec fn terminal(&self) -> bool {
        self is Stopped || self is Failed
    }

    pub fn is_terminal(&self) -> (b: bool)
        ensures
            b == self.terminal(),
    {
        match self {
            ContainerState::Stopped => true,
            ContainerState::Failed(_) => true,
            _ => false,
        }
    }

    /// A copy of the state.
    pub fn duplicate(&self) -> (s: ContainerState)
        ensures
            s == *self,
    {
        match self {
            ContainerState::Created => ContainerState::Created,
            ContainerState::Running => ContainerState::Running,
            ContainerState::Stopped => ContainerState::Stopped,
            ContainerState::Failed(e) => ContainerState::Failed(e.duplicate()),
        }
    }
}

/// What holds of the outcome of an invocation through the default backend
/// of a registry, whatever the backend does. Without a backend under the
/// default name the outcome is `RuntimeNotFound` with that name. With one,
/// a failure comes from the backend: `Validation` or `UnsupportedFeature`
/// from loading, `ExecutionFault` from the invocation.
pub open spec fn outcome_fits(
    registry: RuntimeManager,
    outcome: Result<i32, WasmRunnerError>,
) -> bool {
    if registry.has(registry.default_name()) {
        outcome matches Err(e) ==> e is Validation || e is UnsupportedFeature || e
            is ExecutionFault
    } else {
        outcome matches Err(WasmRunnerError::RuntimeNotFound(n)) && n@ == registry.default_name()
    }
}

/// Whether the backend that a registry resolves by default is the one that
/// this crate brings.
pub open spec fn default_is_wasmtime(registry: RuntimeManager) -> bool {
    position(registry.names(), registry.default_name()) matches Some(i) && registry.backends()[i]
        is Wasmtime
}

/// Whether a module made of the bytes is one that is not run under the
/// policy: it has an entry point and imports what the policy denies, such
/// as a socket function of WASI while syscalls are filtered and the network
/// is closed.
pub open spec fn denied_by_policy(policy: &SandboxConfig, bytes: Seq<u8>) -> bool {
    exists|r: Restrictions| #[trigger] r.enforces(policy) && denied_under(&r, bytes)
}

/// What holds of the outcome of an invocation through the backend that this
/// crate brings, for a module that is denied or not. Nothing but a denied
/// module fails with `PermissionDenied`. A denied module never runs: where
/// the engine accepts its bytes, it fails with `PermissionDenied`, and
/// otherwise with the failure of the load.
pub open spec fn denial_fits(
    registry: RuntimeManager,
    denied: bool,
    outcome: Result<i32, WasmRunnerError>,
) -> bool {
    default_is_wasmtime(registry) ==> {
        &&& permission_denied(outcome) ==> denied
        &&& denied ==> (outcome matches Err(e) && (e is Validation || e is UnsupportedFeature
            || permission_denied(outcome)))
    }
}

/// Under any two restrictions that put one policy in force, the same
/// modules are denied.
pub proof fn lemma_denial_follows_the_policy(
    policy: &SandboxConfig,
    a: &Restrictions,
    b: &Restrictions,
    bytes: Seq<u8>,
)
    requires
        a.enforces(policy),
        b.enforces(policy),
    ensures
        denied_under(a, bytes) == denied_under(b, bytes),
{
    assert(a.permitted_paths.deep_view().len() == a.permitted_paths@.len());
    assert(b.permitted_paths.deep_view().len() == b.permitted_paths@.len());
    let imports = crate::runtime::wasmtime_runtime::imports_of(bytes);
    lemma_denial_by_the_gates(a, b, imports, imports.len() as int);
}

/// Loads the module with the default backend of the registry and invokes it
/// under the restrictions.
fn invoke(
    runtime_manager: &mut RuntimeManager,
    module_bytes: &[u8],
    args: Vec<String>,
    environment: Vec<(String, String)>,
    restrictions: Restrictions,
) -> (r: Result<i32, WasmRunnerError>)
    requires
        old(runtime_manager).well_formed(),
    ensures
        final(runtime_manager).well_formed(),
        final(runtime_manager).names() == old(runtime_manager).names(),
        final(runtime_manager).default_name() == old(runtime_manager).default_name(),
        outcome_fits(*old(runtime_manager), r),
        denial_fits(*old(runtime_manager), denied_under(&restrictions, module_bytes@), r),
{
    let backend = match runtime_manager.get_runtime(None) {
        Ok(backend) => backend,
        Err(e) => {
            return Err(e);
        },
    };
    let mut module = match backend.load_module(module_bytes) {
        Ok(module) => module,
        Err(e) => {
            return Err(e);
        },
    };
    module.configure(environment, restrictions);
    module.execute(args)
}

/// Runs a module inside a sandbox: enters the policy, resolves the default
/// backend, loads the module, invokes it, and leaves the sandbox.
///
/// The sandbox is left on every way out. Where a guard refuses, nothing is
/// loaded or run and the failure names the guard. Where no backend stands
/// under the default name, the failure is `RuntimeNotFound` with that name.
/// Every other failure comes from the backend: `Validation` or
/// `UnsupportedFeature` from loading, `ExecutionFault` from the invocation.
pub fn run_guarded(
    sandbox: &mut Sandbox,
    runtime_manager: &mut RuntimeManager,
    module_bytes: &[u8],
    args: Vec<String>,
    environment: Vec<(String, String)>,
) -> (r: Result<i32, WasmRunnerError>)
    requires
        old(sandbox).well_formed(),
        !old(sandbox).active(),
        old(runtime_manager).well_formed(),
    ensures
        final(sandbox).well_formed(),
        !final(sandbox).active(),
        final(sandbox).policy() == old(sandbox).policy(),
        final(runtime_manager).well_formed(),
        final(runtime_manager).names() == old(runtime_manager).names(),
        final(runtime_manager).default_name() == old(runtime_manager).default_name(),
        match refusal(old(sandbox).policy()) {
            Some(k) => {
                &&& r matches Err(WasmRunnerError::SandboxSetup(g, cause))
                &&& g == GuardKind::spec_at(k)
                &&& cause@ == refusal_cause(g)
                &&& final(sandbox)@ == unwound(old(sandbox).policy(), old(sandbox)@, k)
                &&& final(runtime_manager).backends() == old(runtime_manager).backends()
            },
            None => {
                &&& final(sandbox)@ == left(entered(old(sandbox).policy(), old(sandbox)@))
                &&& outcome_fits(*old(runtime_manager), r)
                &&& denial_fits(
                    *old(runtime_manager),
                    denied_by_policy(old(sandbox).policy(), module_bytes@),
                    r,
                )
            },
        },
{
    match sandbox.apply_restrictions() {
        Ok(()) => {},
        Err(e) => {
            return Err(e);
        },
    }
    let restrictions = sandbox.restrictions();
    proof {
        let policy = old(sandbox).policy();
        assert(restrictions.enforces(policy));
        assert forall|other: Restrictions| #[trigger] other.enforces(policy) implies denied_under(
            &other,
            module_bytes@,
        ) == denied_under(&restrictions, module_bytes@) by {
            lemma_denial_follows_the_policy(policy, &other, &restrictions, module_bytes@);
        }
        assert(denied_by_policy(policy, module_bytes@) == denied_under(
            &restrictions,
            module_bytes@,
        ));
    }
    let outcome = invoke(runtime_manager, module_bytes, args, environment, restrictions);
    let _ = sandbox.cleanup();
    outcome
}

impl Container {
    /// The part of the unit that changes.
    pub open spec fn lifecycle(&self) -> Lifecycle {
        Lifecycle {
            state: self.state,
            started_at: self.started_at,
            finished_at: self.finished_at,
            exit_code: self.exit_code,
        }
    }

    /// The invariant of a unit: its configuration and its lifecycle keep
    /// their own, and its sandbox is in force only while the unit is running.
    pub open spec fn well_formed(&self) -> bool {
        &&& self.config.well_formed()
        &&& lifecycle_well_formed(self.lifecycle())
        &&& self.sandbox.well_formed()
        &&& !(self.state is Running) ==> !self.sandbox.active()
    }

    /// Tells whether the unit keeps its invariant.
    pub fn is_well_formed(&self) -> (b: bool)
        ensures
            b == self.well_formed(),
    {
        let times = match self.state {
            ContainerState::Created => self.started_at.is_none() && self.finished_at.is_none()
                && self.exit_code.is_none(),
            ContainerState::Running => self.started_at.is_some() && self.finished_at.is_none()
                && self.exit_code.is_none(),
            ContainerState::Stopped => match (self.started_at, self.finished_at) {
                (Some(start), Some(end)) => start <= end,
                _ => false,
            },
            ContainerState::Failed(_) => match (self.started_at, self.finished_at) {
                (Some(start), Some(end)) => start <= end && self.exit_code.is_none(),
                _ => false,
            },
        };
        let running = match self.state {
            ContainerState::Running => true,
            _ => false,
        };
        self.config.is_well_formed() && times && self.sandbox.is_well_formed() && (running
            || !self.sandbox.is_active())
    }

    /// A unit from its parts, in the state `Created`. Nothing of the policy
    /// is applied.
    ///
    /// Fails exactly where the configuration breaks its invariant: no unit
    /// holds a memory ceiling of zero, a share above the whole processor or
    /// a variable that is set twice.
    pub fn assemble(
        id: String,
        config: ContainerConfig,
        sandbox_config: SandboxConfig,
        created_at: i64,
    ) -> (r: Result<Self, WasmRunnerError>)
        ensures
            r is Ok <==> config.well_formed(),
            r matches Ok(c) ==> {
                &&& c.id == id
                &&& c.config == config
                &&& *c.sandbox.policy() == sandbox_config
                &&& c.sandbox@.live.len() == 0
                &&& c.sandbox@.journal.len() == 0
                &&& c.created_at == created_at
                &&& c.state is Created
                &&& c.started_at is None
                &&& c.finished_at is None
                &&& c.exit_code is None
                &&& c.well_formed()
            },
            r matches Err(e) ==> config_refusal(config, e),
    {
        match config.validate() {
            Ok(()) => {},
            Err(e) => {
                return Err(e);
            },
        }
        Ok(
            Container {
                id,
                config,
                state: ContainerState::Created,
                created_at,
                started_at: None,
                finished_at: None,
                exit_code: None,
                sandbox: Sandbox::new(sandbox_config),
            },
        )
    }

    /// A unit with a fresh identifier, made now, in the state `Created`.
    /// Nothing of the policy is applied before the unit is started.
    ///
    /// Fails exactly where the configuration breaks its invariant, as
    /// `assemble` does.
    pub fn new(config: ContainerConfig, sandbox_config: SandboxConfig) -> (r: Result<
        Self,
        WasmRunnerError,
    >)
        ensures
            r is Ok <==> config.well_formed(),
            r matches Ok(c) ==> {
                &&& is_identifier(c.id@)
                &&& c.config == config
                &&& *c.sandbox.policy() == sandbox_config
                &&& c.sandbox@.live.len() == 0
                &&& c.sandbox@.journal.len() == 0
                &&& c.state is Created
                &&& c.started_at is None
                &&& c.finished_at is None
                &&& c.exit_code is None
                &&& c.well_formed()
            },
            r matches Err(e) ==> config_refusal(config, e),
    {
        let id = uuid_text(&random_uuid());
        Container::assemble(id, config, sandbox_config, clock_millis())
    }

    /// Starts the unit at `now`: a created unit is running from then on. A
    /// unit that was started before stays as it is; no unit starts twice.
    pub fn begin(&mut self, now: i64)
        requires
            old(self).well_formed(),
        ensures
            final(self).well_formed(),
            final(self).lifecycle() == began(old(self).lifecycle(), now),
            final(self).id == old(self).id,
            final(self).config == old(self).config,
            final(self).created_at == old(self).created_at,
            final(self).sandbox == old(self).sandbox,
    {
        match self.state {
            ContainerState::Created => {
                self.state = ContainerState::Running;
                self.started_at = Some(now);
            },
            _ => {},
        }
    }

    fn end_time(&self, now: i64) -> (t: i64)
        ensures
            t == finish_time(self.lifecycle(), now),
    {
        match self.started_at {
            Some(start) => if now >= start {
                now
            } else {
                start
            },
            None => now,
        }
    }

    /// What the unit has to show for its execution.
    pub fn result(&self) -> (r: Result<i32, WasmRunnerError>)
        ensures
            r == result_of(self.lifecycle()),
    {
        match &self.state {
            ContainerState::Failed(e) => Err(e.duplicate()),
            _ => match self.exit_code {
                Some(code) => Ok(code),
                None => Err(WasmRunnerError::Cancellation),
            },
        }
    }

    /// Records the end of the invocation at `now` and returns what the unit
    /// has to show for it.
    ///
    /// A running unit becomes `Stopped` with the exit code, or `Failed` with
    /// the failure, and its sandbox is left. A unit that was stopped or has
    /// failed before stays as it is: the outcome comes too late to count.
    pub fn complete(&mut self, outcome: Result<i32, WasmRunnerError>, now: i64) -> (r: Result<
        i32,
        WasmRunnerError,
    >)
        requires
            old(self).well_formed(),
            !(old(self).state is Created),
        ensures
            final(self).well_formed(),
            final(self).lifecycle() == completed(old(self).lifecycle(), outcome, now),
            final(self).state.terminal(),
            r == result_of(final(self).lifecycle()),
            old(self).state is Running ==> r == outcome,
            final(self).id == old(self).id,
            final(self).config == old(self).config,
            final(self).created_at == old(self).created_at,
            final(self).sandbox.policy() == old(self).sandbox.policy(),
            final(self).sandbox@ == left(old(self).sandbox@),
            !final(self).sandbox.active(),
    {
        match self.state {
            ContainerState::Running => {
                let _ = self.sandbox.cleanup();
                self.finished_at = Some(self.end_time(now));
                match outcome {
                    Ok(code) => {
                        self.exit_code = Some(code);
                        self.state = ContainerState::Stopped;
                        Ok(code)
                    },
                    Err(e) => {
                        self.state = ContainerState::Failed(e.duplicate());
                        Err(e)
                    },
                }
            },
            _ => {
                proof {
                    lemma_leave_is_idempotent(old(self).sandbox@);
                }
                self.result()
            },
        }
    }

    /// Stops the unit at `now` and tells what is to be done about the
    /// invocation in flight.
    ///
    /// A running unit becomes `Stopped` and its sandbox is left; the
    /// invocation is to be ended with its isolated context where the policy
    /// isolates the process, and interrupted otherwise. A unit that is not
    /// running stays as it is. The unit is never running afterwards.
    pub fn stop(&mut self, now: i64) -> (request: StopAction)
        requires
            old(self).well_formed(),
        ensures
            final(self).well_formed(),
            final(self).lifecycle() == stopped(old(self).lifecycle(), now),
            !(final(self).state is Running),
            request == (if !(old(self).state is Running) {
                StopAction::NotRunning
            } else if old(self).sandbox.policy().enable_process_isolation {
                StopAction::Terminate
            } else {
                StopAction::Interrupt
            }),
            final(self).id == old(self).id,
            final(self).config == old(self).config,
            final(self).created_at == old(self).created_at,
            final(self).sandbox.policy() == old(self).sandbox.policy(),
            final(self).sandbox@ == left(old(self).sandbox@),
            !final(self).sandbox.active(),
    {
        match self.state {
            ContainerState::Running => {
                let _ = self.sandbox.cleanup();
                self.finished_at = Some(self.end_time(now));
                self.state = ContainerState::Stopped;
                if self.sandbox.config().enable_process_isolation {
                    StopAction::Terminate
                } else {
                    StopAction::Interrupt
                }
            },
            _ => {
                proof {
                    lemma_leave_is_idempotent(old(self).sandbox@);
                }
                StopAction::NotRunning
            },
        }
    }

    /// Records at `now` that the deadline of the invocation has passed: a
    /// running unit fails with a fault of the kind `TimedOut` and its sandbox
    /// is left; it is never `Stopped` with an exit code. A unit that is not
    /// running stays as it is.
    pub fn expire(&mut self, now: i64)
        requires
            old(self).well_formed(),
        ensures
            final(self).well_formed(),
            !(final(self).state is Running),
            old(self).state is Running ==> {
                &&& final(self).state matches ContainerState::Failed(
                    WasmRunnerError::ExecutionFault(kind, text),
                )
                &&& kind == FaultKind::TimedOut
                &&& text@ == "the deadline of the invocation has passed"@
                &&& final(self).started_at == old(self).started_at
                &&& final(self).finished_at == Some(finish_time(old(self).lifecycle(), now))
                &&& final(self).exit_code is None
            },
            !(old(self).state is Running) ==> final(self).lifecycle() == old(self).lifecycle(),
            final(self).id == old(self).id,
            final(self).config == old(self).config,
            final(self).created_at == old(self).created_at,
            final(self).sandbox.policy() == old(self).sandbox.policy(),
            final(self).sandbox@ == left(old(self).sandbox@),
            !final(self).sandbox.active(),
    {
        match self.state {
            ContainerState::Running => {
                let _ = self.sandbox.cleanup();
                self.finished_at = Some(self.end_time(now));
                self.state = ContainerState::Failed(
                    WasmRunnerError::ExecutionFault(
                        FaultKind::TimedOut,
                        "the deadline of the invocation has passed".to_owned(),
                    ),
                );
            },
            _ => {
                proof {
                    lemma_leave_is_idempotent(old(self).sandbox@);
                }
            },
        }
    }

    /// Starts the unit and returns its identifier at once; nothing of the
    /// module is loaded or run in this call. Whoever carries the execution
    /// out reports its end with `complete`. A unit that was started before
    /// stays as it is.
    pub fn start_detached(&mut self) -> (r: Result<String, WasmRunnerError>)
        requires
            old(self).well_formed(),
        ensures
            final(self).well_formed(),
            r matches Ok(id) && id@ == old(self).id@,
            !(final(self).state is Created),
            final(self).started_at is Some,
            final(self).lifecycle() == began(old(self).lifecycle(), final(self).started_at->0),
            final(self).id == old(self).id,
            final(self).config == old(self).config,
            final(self).created_at == old(self).created_at,
            final(self).sandbox == old(self).sandbox,
    {
        self.begin(clock_millis());
        Ok(self.id.clone())
    }

    /// Starts the unit, runs the module to its end and returns its exit code.
    ///
    /// The unit passes from `Created` through `Running` to `Stopped`, where
    /// the module has returned an exit code, or to `Failed`, where anything
    /// has gone wrong; the failure is then both recorded and returned. The
    /// sandbox is entered before the module is loaded and is left before the
    /// unit reaches its terminal state, whatever the outcome.
    ///
    /// A unit that was started before is not run again: it stays as it is,
    /// nothing is loaded, and the call returns what the unit has to show.
    pub fn start_and_wait(
        &mut self,
        runtime_manager: &mut RuntimeManager,
        module_bytes: &[u8],
    ) -> (r: Result<i32, WasmRunnerError>)
        requires
            old(self).well_formed(),
            old(runtime_manager).well_formed(),
        ensures
            final(self).well_formed(),
            final(self).id == old(self).id,
            final(self).config == old(self).config,
            final(self).created_at == old(self).created_at,
            final(self).sandbox.policy() == old(self).sandbox.policy(),
            final(runtime_manager).well_formed(),
            final(runtime_manager).names() == old(runtime_manager).names(),
            final(runtime_manager).default_name() == old(runtime_manager).default_name(),
            !(old(self).state is Created) ==> {
                &&& final(self).lifecycle() == old(self).lifecycle()
                &&& final(self).sandbox == old(self).sandbox
                &&& final(runtime_manager).backends() == old(runtime_manager).backends()
                &&& r == result_of(old(self).lifecycle())
            },
            old(self).state is Created ==> {
                &&& final(self).started_at is Some
                &&& final(self).finished_at is Some
                &&& final(self).started_at->0 <= final(self).finished_at->0
                &&& final(self).lifecycle() == completed(
                    began(old(self).lifecycle(), final(self).started_at->0),
                    r,
                    final(self).finished_at->0,
                )
                &&& match r {
                    Ok(code) => final(self).state is Stopped && final(self).exit_code == Some(
                        code,
                    ),
                    Err(e) => final(self).state == ContainerState::Failed(e),
                }
                &&& !final(self).sandbox.active()
                &&& match refusal(old(self).sandbox.policy()) {
                    Some(k) => {
                        &&& r matches Err(WasmRunnerError::SandboxSetup(g, cause))
                        &&& g == GuardKind::spec_at(k)
                        &&& cause@ == refusal_cause(g)
                        &&& final(self).sandbox@ == unwound(
                            old(self).sandbox.policy(),
                            old(self).sandbox@,
                            k,
                        )
                    },
                    None => {
                        &&& final(self).sandbox@ == left(
                            entered(old(self).sandbox.policy(), old(self).sandbox@),
                        )
                        &&& outcome_fits(*old(runtime_manager), r)
                        &&& denial_fits(
                            *old(runtime_manager),
                            denied_by_policy(old(self).sandbox.policy(), module_bytes@),
                            r,
                        )
                    },
                }
            },
    {
        match self.state {
            ContainerState::Created => {},
            _ => {
                return self.result();
            },
        }
        self.begin(clock_millis());
        let args = copy_strings(&self.config.args);
        let environment = copy_pairs(&self.config.environment);
        let outcome = run_guarded(
            &mut self.sandbox,
            runtime_manager,
            module_bytes,
            args,
            environment,
        );
        proof {
            lemma_leave_is_idempotent(self.sandbox@);
        }
        self.complete(outcome, clock_millis())
    }
}

/// Every step of the lifecycle keeps the invariant, never goes back, and
/// leaves a unit in a terminal state as it is.
pub proof fn lemma_steps_are_monotonic(
    l: Lifecycle,
    outcome: Result<i32, WasmRunnerError>,
    now: i64,
)
    requires
        lifecycle_well_formed(l),
    ensures
        lifecycle_well_formed(began(l, now)),
        lifecycle_well_formed(completed(l, outcome, now)),
        lifecycle_well_formed(stopped(l, now)),
        progress(l.state) <= progress(began(l, now).state),
        progress(l.state) <= progress(completed(l, outcome, now).state),
        progress(l.state) <= progress(stopped(l, now).state),
        l.state.terminal() ==> began(l, now) == l && completed(l, outcome, now) == l && stopped(
            l,
            now,
        ) == l,
        !(stopped(l, now).state is Running),
{
}

/// A run that is waited for passes from `Created` through `Running` to
/// `Stopped` or `Failed` and through no other state, and it does not end
/// before it starts: whatever the clock read at the start and at the end,
/// and whatever the outcome of the invocation was.
pub proof fn lemma_waited_run(
    l: Lifecycle,
    started: i64,
    outcome: Result<i32, WasmRunnerError>,
    ended: i64,
)
    requires
        lifecycle_well_formed(l),
        l.state is Created,
    ensures
        began(l, started).state is Running,
        completed(began(l, started), outcome, ended).state.terminal(),
        completed(began(l, started), outcome, ended).state is Stopped <==> outcome is Ok,
        outcome matches Err(e) ==> completed(began(l, started), outcome, ended).state
            == ContainerState::Failed(e),
        outcome matches Ok(code) ==> completed(began(l, started), outcome, ended).exit_code
            == Some(code),
        completed(began(l, started), outcome, ended).started_at == Some(started),
        completed(began(l, started), outcome, ended).finished_at matches Some(end) && started
            <= end,
        started <= ended ==> completed(began(l, started), outcome, ended).finished_at == Some(
            ended,
        ),
        result_of(completed(began(l, started), outcome, ended)) == outcome,
        lifecycle_well_formed(completed(began(l, started), outcome, ended)),
{
}

/// A detached run that is stopped mid-flight is `Stopped` from then on: the
/// outcome that the invocation reports later does not count, and the unit
/// shows `Cancellation`.
pub proof fn lemma_stopped_run(
    l: Lifecycle,
    started: i64,
    stopped_at: i64,
    outcome: Result<i32, WasmRunnerError>,
    ended: i64,
)
    requires
        lifecycle_well_formed(l),
        l.state is Created,
    ensures
        stopped(began(l, started), stopped_at).state is Stopped,
        completed(stopped(began(l, started), stopped_at), outcome, ended) == stopped(
            began(l, started),
            stopped_at,
        ),
        result_of(stopped(began(l, started), stopped_at)) == Err::<i32, WasmRunnerError>(
            WasmRunnerError::Cancellation,
        ),
{
}


/// What a listing shows of a unit.
#[derive(Debug, Clone, PartialEq, Eq)]
pub struct ContainerSummary {
    /// The first twelve characters of the identifier.
    pub id: String,
    pub image: String,
    /// The arguments, with a space between them.
    pub command: String,
    pub created_at: i64,
    pub status: String,
    pub name: String,
}

/// How many characters of an identifier a listing shows.
pub const SHORT_ID_LENGTH: usize = 12;

/// The first `n` of `words` with a space between them.
pub open spec fn spaced(words: Seq<Seq<char>>, n: int) -> Seq<char>
    decreases n,
{
    if n <= 0 {
        Seq::empty()
    } else if n == 1 {
        words[0]
    } else {
        spaced(words, n - 1) + seq![' '] + words[n - 1]
    }
}

/// The beginning of `s`: its first `n` characters, or all of it where it
/// has fewer.
pub open spec fn head_of(s: Seq<char>, n: int) -> Seq<char> {
    s.subrange(0, if s.len() < n {
        s.len() as int
    } else {
        n
    })
}

/// The word that a listing shows for a state.
pub open spec fn status_of(state: ContainerState) -> Seq<char> {
    match state {
        ContainerState::Created => "created"@,
        ContainerState::Running => "running"@,
        ContainerState::Stopped => "stopped"@,
        ContainerState::Failed(e) => "failed: "@ + e.spec_message(),
    }
}

/// The exit code of the process that ran a unit which has reached this
/// lifecycle: the module's own exit code where it has one, the code of a
/// failure where the unit has failed, none otherwise.
pub open spec fn exit_code_of(l: Lifecycle) -> Option<i32> {
    match l.state {
        ContainerState::Failed(_) => Some(crate::error::FAILURE_EXIT_CODE),
        ContainerState::Stopped => l.exit_code,
        _ => None,
    }
}

/// The words with a space between them.
pub fn join_words(words: &Vec<String>) -> (line: String)
    ensures
        line@ == spaced(words.deep_view(), words.len() as int),
{
    let mut line = String::new();
    let mut i: usize = 0;
    while i < words.len()
        invariant
            i <= words.len(),
            line@ == spaced(words.deep_view(), i as int),
        decreases words.len() - i,
    {
        assert(words.deep_view()[i as int] == words@[i as int]@);
        if i > 0 {
            proof {
                reveal_strlit(" ");
                assert(" "@ =~= seq![' ']);
            }
            line.append(" ");
        } else {
            assert(Seq::<char>::empty() + words@[0]@ =~= words@[0]@);
        }
        line.append(words[i].as_str());
        i += 1;
    }
    line
}

impl Container {
    /// The word that a listing shows for the state of the unit.
    pub fn status(&self) -> (s: String)
        ensures
            s@ == status_of(self.state),
    {
        match &self.state {
            ContainerState::Created => "created".to_owned(),
            ContainerState::Running => "running".to_owned(),
            ContainerState::Stopped => "stopped".to_owned(),
            ContainerState::Failed(e) => {
                let mut s = "failed: ".to_owned();
                s.append(e.message().as_str());
                s
            },
        }
    }

    /// What a listing shows of the unit.
    pub fn summary(&self) -> (s: ContainerSummary)
        ensures
            s.id@ == head_of(self.id@, SHORT_ID_LENGTH as int),
            s.image@ == self.config.image@,
            s.command@ == spaced(self.config.args.deep_view(), self.config.args.len() as int),
            s.created_at == self.created_at,
            s.status@ == status_of(self.state),
            s.name@ == self.config.name@,
    {
        let n = self.id.as_str().unicode_len();
        let short = if n < SHORT_ID_LENGTH {
            self.id.as_str().substring_char(0, n)
        } else {
            self.id.as_str().substring_char(0, SHORT_ID_LENGTH)
        };
        ContainerSummary {
            id: short.to_owned(),
            image: self.config.image.clone(),
            command: join_words(&self.config.args),
            created_at: self.created_at,
            status: self.status(),
            name: self.config.name.clone(),
        }
    }

    /// The exit code of the process that ran the unit.
    pub fn process_exit_code(&self) -> (code: Option<i32>)
        ensures
            code == exit_code_of(self.lifecycle()),
    {
        match &self.state {
            ContainerState::Failed(_) => Some(crate::error::FAILURE_EXIT_CODE),
            ContainerState::Stopped => self.exit_code,
            _ => None,
        }
    }
}

} // verus!
