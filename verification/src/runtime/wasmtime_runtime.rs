//! The backend that runs modules with Wasmtime, with WASI linked in.

use crate::error::{FaultKind, WasmRunnerError};
use crate::runtime::{
    has_entry_point, main_symbol, start_symbol, LoadedModule, WasmModule, WasmRuntime,
};
use crate::sandbox::Restrictions;
use crate::text::{begins_with, copy_strings, occurs_in, str_contains, str_starts_with};
use vstd::prelude::*;

verus! {

#[verifier::external_type_specification]
#[verifier::external_body]
pub struct ExEngine(wasmtime::Engine);

#[verifier::external_type_specification]
#[verifier::external_body]
pub struct ExModule(wasmtime::Module);

#[verifier::external_type_specification]
#[verifier::external_body]
pub struct ExInstance(wasmtime::Instance);

#[verifier::external_type_specification]
#[verifier::external_body]
#[verifier::reject_recursive_types(T)]
pub struct ExStore<T: 'static>(wasmtime::Store<T>);

#[verifier::external_type_specification]
#[verifier::external_body]
pub struct ExStoreLimits(wasmtime::StoreLimits);

#[verifier::external_type_specification]
#[verifier::external_body]
pub struct ExWasiCtxBuilder(wasmtime_wasi::WasiCtxBuilder);

#[verifier::external_type_specification]
#[verifier::external_body]
pub struct ExWasiP1Ctx(wasmtime_wasi::preview1::WasiP1Ctx);

#[verifier::external_type_specification]
#[verifier::external_body]
pub struct ExError(anyhow::Error);

/// The name under which this backend is registered.
pub open spec fn wasmtime_label() -> Seq<char> {
    "wasmtime"@
}

/// The module that holds the host functions of WASI.
pub open spec fn wasi_module() -> Seq<char> {
    "wasi_snapshot_preview1"@
}

/// The traps of the engine, as far as the kind of a fault depends on them.
#[derive(Debug, Clone, Copy, PartialEq, Eq, Structural)]
pub enum TrapKind {
    /// The module ran out of stack.
    StackOverflow,
    /// The module was interrupted from outside.
    Interrupt,
    /// The module ran out of fuel.
    OutOfFuel,
    /// The module asked for an allocation that is too large.
    AllocationTooLarge,
    /// Any other trap.
    Other,
}

/// An entry point of a module.
#[derive(Debug, Clone, Copy, PartialEq, Eq, Structural)]
pub enum EntryPoint {
    /// `_start`: it initialises the module, runs it and returns nothing.
    Start,
    /// `main`: it returns the exit code.
    Main,
}

/// What came of the call of an entry point.
#[derive(Debug, Clone, PartialEq, Eq)]
pub enum Answer {
    /// The module exports no function of that name and type.
    Missing,
    /// `_start` has returned.
    Ended,
    /// `main` has returned this status.
    Status(i32),
    /// The call has failed: with the status that the module left with, if
    /// it left through `proc_exit`, the trap that the engine reported, if
    /// there was one, and what the engine said.
    Failed { exit: Option<i32>, trap: Option<TrapKind>, text: String },
}

/// The address space that the engine sets aside for a linear memory before
/// the module asks for any, in bytes. A memory takes what it holds and no
/// more, so a host with little address space can run a module.
pub const MEMORY_RESERVATION: u64 = 0;

/// The address space set aside for a memory to grow into, in bytes.
pub const MEMORY_GROWTH_RESERVATION: u64 = 1048576;

/// The unmapped region behind a linear memory, in bytes.
pub const MEMORY_GUARD_SIZE: u64 = 65536;

/// How many interrupts an invocation outlasts: it ends at the first.
pub const INTERRUPT_AFTER: u64 = 1;

/// What the store holds for a running module: its WASI state and its limits.
struct HostState {
    wasi: wasmtime_wasi::preview1::WasiP1Ctx,
    limits: wasmtime::StoreLimits,
}

/// An instance together with the store that owns it. The two are made
/// together and never parted, so a call through a session always reaches an
/// instance with its own store.
struct Session {
    store: wasmtime::Store<HostState>,
    instance: wasmtime::Instance,
}

/// How the engine of a backend is set up.
#[derive(Debug, Clone, Copy, PartialEq, Eq, Structural)]
pub struct EngineSettings {
    /// Whether an invocation in flight can be ended from outside.
    pub interruptible: bool,
    /// The address space set aside for a linear memory before the module
    /// asks for any, in bytes.
    pub memory_reservation: u64,
    /// The address space set aside for a memory to grow into, in bytes.
    pub memory_growth_reservation: u64,
    /// The unmapped region behind a linear memory, in bytes.
    pub memory_guard_size: u64,
}

/// The Wasmtime engine as a backend.
pub struct WasmtimeRuntime {
    engine: wasmtime::Engine,
    settings: EngineSettings,
}

/// A handle that ends the invocations in flight on a Wasmtime backend. It
/// can be held and used by another thread than the one that runs a module.
pub struct Interrupter {
    engine: wasmtime::Engine,
}

/// A module that Wasmtime has compiled, with what was read from it at load
/// time and what the next invocation runs under. Until it is configured, a
/// module has no environment and reaches nothing of the host.
pub struct WasmtimeModule {
    module: wasmtime::Module,
    names: Vec<String>,
    imports: Vec<(String, String)>,
    environment: Vec<(String, String)>,
    restrictions: Restrictions,
}

/// `Engine::new` of wasmtime on a `Config` with `epoch_interruption` set,
/// with `memory_reservation`, `memory_reservation_for_growth` and
/// `memory_guard_size` set, in bytes, and everything else as `Config::new`
/// has it: an engine, or the reason why this host cannot have one.
#[verifier::external_body]
fn engine_new(interruptible: bool, reservation: u64, growth: u64, guard: u64) -> Result<
    wasmtime::Engine,
    anyhow::Error,
> {
    let mut config = wasmtime::Config::new();
    config.epoch_interruption(interruptible);
    config.memory_reservation(reservation);
    config.memory_reservation_for_growth(growth);
    config.memory_guard_size(guard);
    wasmtime::Engine::new(&config)
}

/// `Clone` of a wasmtime `Engine`: no new engine, but another handle on the
/// same one.
#[verifier::external_body]
fn engine_handle(engine: &wasmtime::Engine) -> (handle: wasmtime::Engine)
    ensures
        handle == *engine,
{
    engine.clone()
}

/// `Engine::increment_epoch` of wasmtime: code of this engine that runs in
/// a store whose deadline is reached by the increment traps soon.
#[verifier::external_body]
fn increment_epoch(engine: &wasmtime::Engine) {
    engine.increment_epoch();
}

/// The names that a module exports, in the order of its export section, as
/// `Module::exports` of wasmtime gives them for the module made of the bytes.
pub uninterp spec fn exports_of(bytes: Seq<u8>) -> Seq<Seq<char>>;

/// What a module imports, in the order of its import section, each import
/// as the module and the field it names, as `Module::imports` of wasmtime
/// gives them for the module made of the bytes.
pub uninterp spec fn imports_of(bytes: Seq<u8>) -> Seq<(Seq<char>, Seq<char>)>;

/// `Module::new` of wasmtime, which decodes, validates and compiles the
/// bytes and runs nothing of the module; then `Module::exports`, each export
/// by `ExportType::name`, and `Module::imports`, each import by
/// `ImportType::module` and `ImportType::name`. Whether the bytes are
/// accepted is for the engine to say. The exports and the imports of a
/// module that was accepted are those that its bytes name.
#[verifier::external_body]
fn compile(engine: &wasmtime::Engine, bytes: &[u8]) -> (made: Result<
    (wasmtime::Module, Vec<String>, Vec<(String, String)>),
    anyhow::Error,
>)
    ensures
        made matches Ok(parts) ==> parts.1.deep_view() == exports_of(bytes@)
            && parts.2.deep_view() == imports_of(bytes@),
{
    let module = wasmtime::Module::new(engine, bytes)?;
    let names = module.exports().map(|export| export.name().to_string()).collect();
    let imports = module.imports().map(
        |import| (import.module().to_string(), import.name().to_string()),
    ).collect();
    Ok((module, names, imports))
}

/// `WasiCtxBuilder::new` of wasmtime-wasi, then `args` and `envs`: a builder
/// that hands the module these arguments and variables and nothing else.
#[verifier::external_body]
fn wasi_builder(
    args: &Vec<String>,
    environment: &Vec<(String, String)>,
) -> wasmtime_wasi::WasiCtxBuilder {
    let mut builder = wasmtime_wasi::WasiCtxBuilder::new();
    builder.args(args.as_slice()).envs(environment.as_slice());
    builder
}

/// `WasiCtxBuilder::inherit_stdio` of wasmtime-wasi.
#[verifier::external_body]
fn wasi_inherit_stdio(builder: &mut wasmtime_wasi::WasiCtxBuilder) {
    builder.inherit_stdio();
}

/// `WasiCtxBuilder::inherit_network` of wasmtime-wasi.
#[verifier::external_body]
fn wasi_inherit_network(builder: &mut wasmtime_wasi::WasiCtxBuilder) {
    builder.inherit_network();
}

/// `WasiCtxBuilder::preopened_dir` of wasmtime-wasi, with the directory
/// under its own path and with `DirPerms::all` and `FilePerms::all`: the
/// module may read and change what is in it. It fails where the host cannot
/// open the directory.
#[verifier::external_body]
fn wasi_preopen(builder: &mut wasmtime_wasi::WasiCtxBuilder, path: &String) -> Result<
    (),
    anyhow::Error,
> {
    builder.preopened_dir(
        path.as_str(),
        path.as_str(),
        wasmtime_wasi::DirPerms::all(),
        wasmtime_wasi::FilePerms::all(),
    )?;
    Ok(())
}

/// `WasiCtxBuilder::preopened_dir` of wasmtime-wasi, with the directory
/// under its own path and with `DirPerms::READ` and `FilePerms::READ`: the
/// module may read what is in it and change nothing. It fails where the
/// host cannot open the directory.
#[verifier::external_body]
fn wasi_preopen_readonly(builder: &mut wasmtime_wasi::WasiCtxBuilder, path: &String) -> Result<
    (),
    anyhow::Error,
> {
    builder.preopened_dir(
        path.as_str(),
        path.as_str(),
        wasmtime_wasi::DirPerms::READ,
        wasmtime_wasi::FilePerms::READ,
    )?;
    Ok(())
}

/// `WasiCtxBuilder::build_p1` of wasmtime-wasi. The builder is used up, so
/// it cannot be built from twice.
#[verifier::external_body]
fn wasi_build(builder: wasmtime_wasi::WasiCtxBuilder) -> wasmtime_wasi::preview1::WasiP1Ctx {
    let mut builder = builder;
    builder.build_p1()
}

/// `StoreLimitsBuilder` of wasmtime with `memory_size` and
/// `trap_on_grow_failure`: no linear memory may pass `ceiling` bytes, and
/// with `trap` set a module that tries is ended.
#[verifier::external_body]
fn memory_limits(ceiling: usize, trap: bool) -> wasmtime::StoreLimits {
    wasmtime::StoreLimitsBuilder::new().memory_size(ceiling).trap_on_grow_failure(trap).build()
}

/// Makes a store for the module's own engine, puts the limits in force with
/// `Store::limiter`, sets the deadline `ticks` increments of the epoch ahead
/// with `Store::set_epoch_deadline`, links WASI with `add_to_linker_sync` and
/// instantiates the module with `Linker::instantiate`. Instantiation fails
/// where an import cannot be met, where a limit is passed or where the
/// module's start function traps.
#[verifier::external_body]
fn open_session(module: &wasmtime::Module, state: HostState, ticks: u64) -> Result<
    Session,
    anyhow::Error,
> {
    let mut store = wasmtime::Store::new(module.engine(), state);
    store.limiter(|state| &mut state.limits);
    store.set_epoch_deadline(ticks);
    let mut linker = wasmtime::Linker::new(module.engine());
    wasmtime_wasi::preview1::add_to_linker_sync(
        &mut linker,
        |state: &mut HostState| &mut state.wasi,
    )?;
    let instance = linker.instantiate(&mut store, module)?;
    Ok(Session { store, instance })
}

/// `Instance::get_typed_func` of wasmtime for a function without parameters
/// or results, then `TypedFunc::call`. The result is `None` where the
/// instance exports nothing under the name, or something that is no
/// function of this type. A host function of WASI
/// that the module calls waits on tokio: the call must not be made on a
/// thread that is driving tokio's asynchronous tasks.
#[verifier::external_body]
fn call_unit_export(session: &mut Session, name: &str) -> Option<Result<(), anyhow::Error>> {
    match session.instance.get_typed_func::<(), ()>(&mut session.store, name) {
        Ok(function) => Some(function.call(&mut session.store, ())),
        Err(_) => None,
    }
}

/// `Instance::get_typed_func` of wasmtime for a function without parameters
/// that returns an `i32`, then `TypedFunc::call`. The result is `None` where
/// the instance exports nothing under the name, or something that is no
/// function of this type. As for
/// `call_unit_export`, the call must not be made on a thread that is driving
/// tokio's asynchronous tasks.
#[verifier::external_body]
fn call_status_export(session: &mut Session, name: &str) -> Option<Result<i32, anyhow::Error>> {
    match session.instance.get_typed_func::<(), i32>(&mut session.store, name) {
        Ok(function) => Some(function.call(&mut session.store, ())),
        Err(_) => None,
    }
}

/// The error with its chain of causes, as anyhow's alternate `Display` writes it.
#[verifier::external_body]
fn error_text(error: &anyhow::Error) -> String {
    format!("{:#}", error)
}

/// The `wasmtime::Trap` that the error holds, if it holds one: four of its
/// variants by their names, every other one as `Other`.
#[verifier::external_body]
fn trap_kind(error: &anyhow::Error) -> Option<TrapKind> {
    match error.downcast_ref::<wasmtime::Trap>() {
        Some(wasmtime::Trap::StackOverflow) => Some(TrapKind::StackOverflow),
        Some(wasmtime::Trap::Interrupt) => Some(TrapKind::Interrupt),
        Some(wasmtime::Trap::OutOfFuel) => Some(TrapKind::OutOfFuel),
        Some(wasmtime::Trap::AllocationTooLarge) => Some(TrapKind::AllocationTooLarge),
        Some(_) => Some(TrapKind::Other),
        None => None,
    }
}

/// The status of the `wasmtime_wasi::I32Exit` that the error holds, if it
/// holds one: the module has called `proc_exit` with it.
#[verifier::external_body]
fn exit_status(error: &anyhow::Error) -> Option<i32> {
    match error.downcast_ref::<wasmtime_wasi::I32Exit>() {
        Some(exit) => Some(exit.0),
        None => None,
    }
}

/// Whether the text of a load failure says that the module needs a feature
/// which the engine has switched off.
pub open spec fn names_missing_feature(text: Seq<char>) -> bool {
    occurs_in("not enabled"@, text) || occurs_in("must be enabled"@, text)
}

/// Whether the text of a failure says that a memory limit was passed.
pub open spec fn names_memory_limit(text: Seq<char>) -> bool {
    occurs_in("memory limits"@, text) || occurs_in("growing memory"@, text)
}

/// The kind of a fault, from the trap that the engine reported and from
/// whether a memory limit was passed.
pub open spec fn fault_kind_of(trap: Option<TrapKind>, memory_limit: bool) -> FaultKind {
    match trap {
        Some(TrapKind::Interrupt) => FaultKind::TimedOut,
        Some(TrapKind::OutOfFuel) => FaultKind::TimedOut,
        Some(TrapKind::StackOverflow) => FaultKind::ResourceLimit,
        Some(TrapKind::AllocationTooLarge) => FaultKind::ResourceLimit,
        Some(TrapKind::Other) => FaultKind::Trap,
        None => if memory_limit {
            FaultKind::ResourceLimit
        } else {
            FaultKind::Host
        },
    }
}

/// Whether the restrictions deny a module the import `field` of `module`.
///
/// Imports are gated only while syscalls are filtered. Then a module may not
/// import a socket function of WASI while the network is closed, nor a path
/// function of WASI while no path is permitted.
pub open spec fn import_denied(r: &Restrictions, module: Seq<char>, field: Seq<char>) -> bool {
    &&& r.syscall_filter
    &&& module == wasi_module()
    &&& {
        ||| r.network_denied && begins_with(field, "sock_"@)
        ||| r.filesystem_gated && r.permitted_paths@.len() == 0 && begins_with(field, "path_"@)
    }
}

/// The place of the first import that the restrictions deny.
pub open spec fn first_denied(
    r: &Restrictions,
    imports: Seq<(Seq<char>, Seq<char>)>,
    n: int,
) -> Option<int>
    decreases n,
{
    if n <= 0 {
        None
    } else {
        match first_denied(r, imports, n - 1) {
            Some(i) => Some(i),
            None => if import_denied(r, imports[n - 1].0, imports[n - 1].1) {
                Some(n - 1)
            } else {
                None
            },
        }
    }
}

/// Whether `loaded` is a module as this engine makes it of `bytes`: a
/// module of this engine that exports what the bytes name, has no
/// environment and reaches nothing of the host.
pub open spec fn freshly_loaded(loaded: LoadedModule, bytes: Seq<u8>) -> bool {
    &&& loaded matches LoadedModule::Wasmtime(module)
    &&& loaded.export_names() == exports_of(bytes)
    &&& module.export_names() == exports_of(bytes)
    &&& module.import_names() == imports_of(bytes)
    &&& module.variables().len() == 0
    &&& module.in_force().is_closed()
}

/// Whether a failure is one that a load gives: it carries what the engine
/// said, and it is `UnsupportedFeature` where that names a feature which is
/// switched off and `Validation` otherwise.
pub open spec fn load_failure_fits(e: WasmRunnerError) -> bool {
    match e {
        WasmRunnerError::Validation(text) => !names_missing_feature(text@),
        WasmRunnerError::UnsupportedFeature(text) => names_missing_feature(text@),
        _ => false,
    }
}

/// The failure of a load, from what the engine said: `UnsupportedFeature`
/// where it names a feature that is switched off, `Validation` otherwise.
pub fn load_failure(text: String) -> (e: WasmRunnerError)
    ensures
        names_missing_feature(text@) ==> e == WasmRunnerError::UnsupportedFeature(text),
        !names_missing_feature(text@) ==> e == WasmRunnerError::Validation(text),
{
    if str_contains(text.as_str(), "not enabled") || str_contains(
        text.as_str(),
        "must be enabled",
    ) {
        WasmRunnerError::UnsupportedFeature(text)
    } else {
        WasmRunnerError::Validation(text)
    }
}

/// The kind of a fault, from the trap code and the text of the failure.
pub fn classify_fault(trap: Option<TrapKind>, text: &String) -> (kind: FaultKind)
    ensures
        kind == fault_kind_of(trap, names_memory_limit(text@)),
        kind != FaultKind::PermissionDenied,
{
    match trap {
        Some(TrapKind::Interrupt) => FaultKind::TimedOut,
        Some(TrapKind::OutOfFuel) => FaultKind::TimedOut,
        Some(TrapKind::StackOverflow) => FaultKind::ResourceLimit,
        Some(TrapKind::AllocationTooLarge) => FaultKind::ResourceLimit,
        Some(TrapKind::Other) => FaultKind::Trap,
        None => {
            if str_contains(text.as_str(), "memory limits") || str_contains(
                text.as_str(),
                "growing memory",
            ) {
                FaultKind::ResourceLimit
            } else {
                FaultKind::Host
            }
        },
    }
}

/// What an invocation returns when the call into the module came back with
/// a failure. A module that has left through `proc_exit` returns the status
/// it left with; every other failure is a fault of the kind that the trap
/// and the text show.
pub fn settle(exit: Option<i32>, trap: Option<TrapKind>, text: String) -> (r: Result<
    i32,
    WasmRunnerError,
>)
    ensures
        match exit {
            Some(status) => r == Ok::<i32, WasmRunnerError>(status),
            None => r == Err::<i32, WasmRunnerError>(
                WasmRunnerError::ExecutionFault(
                    fault_kind_of(trap, names_memory_limit(text@)),
                    text,
                ),
            ),
        },
{
    match exit {
        Some(status) => Ok(status),
        None => {
            let kind = classify_fault(trap, &text);
            Err(WasmRunnerError::ExecutionFault(kind, text))
        },
    }
}

/// Whether `name` is among `names`.
pub fn has_name(names: &Vec<String>, name: &str) -> (found: bool)
    ensures
        found == names.deep_view().contains(name@),
{
    let wanted = name.to_owned();
    let mut i: usize = 0;
    while i < names.len()
        invariant
            i <= names.len(),
            wanted@ == name@,
            forall|j: int| 0 <= j < i ==> names.deep_view()[j] != name@,
        decreases names.len() - i,
    {
        if names[i] == wanted {
            assert(names.deep_view()[i as int] == name@);
            return true;
        }
        i += 1;
    }
    false
}

/// The place of the first import that the restrictions deny, if there is one.
pub fn find_denied_import(r: &Restrictions, imports: &Vec<(String, String)>) -> (found: Option<
    usize,
>)
    ensures
        match found {
            Some(i) => i < imports.len() && first_denied(
                r,
                imports.deep_view(),
                imports.len() as int,
            ) == Some(i as int),
            None => first_denied(r, imports.deep_view(), imports.len() as int) is None,
        },
{
    if !r.syscall_filter {
        proof {
            lemma_nothing_denied_unfiltered(r, imports.deep_view(), imports.len() as int);
        }
        return None;
    }
    let wasi = "wasi_snapshot_preview1".to_owned();
    let no_paths = r.filesystem_gated && r.permitted_paths.len() == 0;
    let mut i: usize = 0;
    while i < imports.len()
        invariant
            i <= imports.len(),
            r.syscall_filter,
            wasi@ == wasi_module(),
            no_paths == (r.filesystem_gated && r.permitted_paths@.len() == 0),
            first_denied(r, imports.deep_view(), i as int) is None,
        decreases imports.len() - i,
    {
        let ghost module = imports.deep_view()[i as int].0;
        let ghost field = imports.deep_view()[i as int].1;
        assert(module == imports@[i as int].0@ && field == imports@[i as int].1@);
        let denied = imports[i].0 == wasi && ((r.network_denied && str_starts_with(
            imports[i].1.as_str(),
            "sock_",
        )) || (no_paths && str_starts_with(imports[i].1.as_str(), "path_")));
        assert(denied == import_denied(r, module, field));
        if denied {
            proof {
                lemma_first_denied_stays(r, imports.deep_view(), i as int, imports.len() as int);
            }
            return Some(i);
        }
        i += 1;
    }
    None
}

/// Without a syscall filter no import is denied.
pub proof fn lemma_nothing_denied_unfiltered(
    r: &Restrictions,
    imports: Seq<(Seq<char>, Seq<char>)>,
    n: int,
)
    requires
        !r.syscall_filter,
    ensures
        first_denied(r, imports, n) is None,
    decreases n,
{
    if n > 0 {
        lemma_nothing_denied_unfiltered(r, imports, n - 1);
    }
}

/// The first denied import stays the first however many imports follow.
pub proof fn lemma_first_denied_stays(
    r: &Restrictions,
    imports: Seq<(Seq<char>, Seq<char>)>,
    k: int,
    n: int,
)
    requires
        0 <= k < n,
        first_denied(r, imports, k) is None,
        import_denied(r, imports[k].0, imports[k].1),
    ensures
        first_denied(r, imports, n) == Some(k),
    decreases n,
{
    if n > k + 1 {
        lemma_first_denied_stays(r, imports, k, n - 1);
    }
}

/// The ceiling on a linear memory, in the width of this machine. Without a
/// ceiling in the restrictions, and where the ceiling is wider than the
/// machine's addresses, it is the largest address.
pub open spec fn ceiling_of(r: &Restrictions) -> usize {
    match r.memory_ceiling {
        Some(c) if c <= usize::MAX => c as usize,
        _ => usize::MAX,
    }
}

/// Whether the module may use the standard streams of the host: it may
/// unless the filesystem is gated and no path is permitted.
pub open spec fn stdio_open(r: &Restrictions) -> bool {
    !r.filesystem_gated || r.permitted_paths@.len() > 0
}

/// What a module is given of the host when it runs under restrictions.
#[derive(Debug, Clone, PartialEq, Eq)]
pub struct HostAccess {
    /// Whether the module uses the standard streams of the host.
    pub stdio: bool,
    /// Whether the module reaches the network as the host does.
    pub network: bool,
    /// The directories that the module can open, each under its own path.
    pub directories: Vec<String>,
    /// Whether the module may change what is in the directories.
    pub directories_writable: bool,
    /// The most bytes that a linear memory of the module may hold.
    pub memory_ceiling: usize,
    /// Whether a module that asks for memory above the ceiling is ended.
    pub ends_above_ceiling: bool,
}

/// What a module is given of the host under the restrictions: the standard
/// streams unless no path is permitted, the network unless it is denied,
/// the permitted paths as directories that it may read and change, and
/// memory up to the ceiling, above which it is ended.
///
/// The share of the processor and the isolation of the process are not the
/// engine's to enforce: nothing of them is handed to it.
pub fn host_access(r: &Restrictions) -> (access: HostAccess)
    ensures
        access.stdio == stdio_open(r),
        access.network == !r.network_denied,
        access.directories.deep_view() == r.permitted_paths.deep_view(),
        access.directories_writable,
        access.memory_ceiling == ceiling_of(r),
        access.ends_above_ceiling,
{
    HostAccess {
        stdio: !r.filesystem_gated || r.permitted_paths.len() > 0,
        network: !r.network_denied,
        directories: copy_strings(&r.permitted_paths),
        directories_writable: true,
        ends_above_ceiling: true,
        memory_ceiling: match r.memory_ceiling {
            Some(c) => if c <= usize::MAX as u64 {
                c as usize
            } else {
                usize::MAX
            },
            None => usize::MAX,
        },
    }
}

/// Whether a module made of the bytes is one that is not run under the
/// restrictions: it has an entry point, and the restrictions deny one of
/// its imports.
pub open spec fn denied_under(r: &Restrictions, bytes: Seq<u8>) -> bool {
    has_entry_point(exports_of(bytes)) && first_denied(
        r,
        imports_of(bytes),
        imports_of(bytes).len() as int,
    ) is Some
}

/// Whether an outcome is a fault of the kind `PermissionDenied`.
pub open spec fn permission_denied(outcome: Result<i32, WasmRunnerError>) -> bool {
    outcome matches Err(WasmRunnerError::ExecutionFault(kind, _)) && kind
        == FaultKind::PermissionDenied
}

/// Which import is denied depends on the restrictions only by whether
/// syscalls are filtered, whether the network is closed and whether a path
/// is permitted.
pub proof fn lemma_denial_by_the_gates(
    a: &Restrictions,
    b: &Restrictions,
    imports: Seq<(Seq<char>, Seq<char>)>,
    n: int,
)
    requires
        a.syscall_filter == b.syscall_filter,
        a.network_denied == b.network_denied,
        a.filesystem_gated == b.filesystem_gated,
        a.permitted_paths@.len() == b.permitted_paths@.len(),
    ensures
        first_denied(a, imports, n) == first_denied(b, imports, n),
    decreases n,
{
    if n > 0 {
        lemma_denial_by_the_gates(a, b, imports, n - 1);
    }
}

/// What the fault says of an import that the policy denies.
pub open spec fn denial_text(field: Seq<char>) -> Seq<char> {
    "the policy denies the import "@ + field
}

/// The fault of an invocation that the policy did not let begin.
fn denied_import_fault(field: &String) -> (e: WasmRunnerError)
    ensures
        e matches WasmRunnerError::ExecutionFault(kind, text) && kind
            == FaultKind::PermissionDenied && text@ == denial_text(field@),
{
    let mut text = "the policy denies the import ".to_owned();
    text.append(field.as_str());
    WasmRunnerError::ExecutionFault(FaultKind::PermissionDenied, text)
}

/// The fault of a failure that came back from the engine before the module
/// was called. It is never one of the kind `PermissionDenied`.
fn fault_of(error: &anyhow::Error) -> (e: WasmRunnerError)
    ensures
        e matches WasmRunnerError::ExecutionFault(kind, _) && kind != FaultKind::PermissionDenied,
{
    let text = error_text(error);
    let kind = classify_fault(trap_kind(error), &text);
    WasmRunnerError::ExecutionFault(kind, text)
}

/// The entry points that are tried on a module with these exports, in the
/// order in which they are tried: `_start` first, `main` second, each only
/// where the module exports the name.
pub open spec fn entry_order(exports: Seq<Seq<char>>) -> Seq<EntryPoint> {
    let start = if exports.contains(start_symbol()) {
        seq![EntryPoint::Start]
    } else {
        Seq::empty()
    };
    let main = if exports.contains(main_symbol()) {
        seq![EntryPoint::Main]
    } else {
        Seq::empty()
    };
    start + main
}

/// What an answer settles: nothing where the entry point is missing, so
/// that the next one is tried; the exit code 0 where `_start` has returned;
/// the status that `main` has returned; the status that the module left
/// with through `proc_exit`; and for every other failure a fault of the
/// kind that the trap and the text show.
pub open spec fn verdict_of(answer: Answer) -> Option<Result<i32, WasmRunnerError>> {
    match answer {
        Answer::Missing => None,
        Answer::Ended => Some(Ok(0)),
        Answer::Status(status) => Some(Ok(status)),
        Answer::Failed { exit: Some(status), trap, text } => Some(Ok(status)),
        Answer::Failed { exit: None, trap, text } => Some(
            Err(
                WasmRunnerError::ExecutionFault(
                    fault_kind_of(trap, names_memory_limit(text@)),
                    text,
                ),
            ),
        ),
    }
}

/// The entry points to try on a module with these exports, in order.
pub fn entries_to_try(names: &Vec<String>) -> (order: Vec<EntryPoint>)
    ensures
        order@ == entry_order(names.deep_view()),
        order@.len() == 0 <==> !has_entry_point(names.deep_view()),
{
    let mut order: Vec<EntryPoint> = Vec::new();
    if has_name(names, "_start") {
        order.push(EntryPoint::Start);
    }
    if has_name(names, "main") {
        order.push(EntryPoint::Main);
    }
    assert(order@ =~= entry_order(names.deep_view()));
    order
}

/// What an answer settles.
pub fn verdict(answer: Answer) -> (v: Option<Result<i32, WasmRunnerError>>)
    ensures
        v == verdict_of(answer),
        v matches Some(Err(e)) ==> (e matches WasmRunnerError::ExecutionFault(kind, _) && kind
            != FaultKind::PermissionDenied),
{
    match answer {
        Answer::Missing => None,
        Answer::Ended => Some(Ok(0)),
        Answer::Status(status) => Some(Ok(status)),
        Answer::Failed { exit, trap, text } => Some(settle(exit, trap, text)),
    }
}

/// What the engine says of a call that has failed.
fn failure(error: &anyhow::Error) -> Answer {
    Answer::Failed { exit: exit_status(error), trap: trap_kind(error), text: error_text(error) }
}

/// Calls the entry point and gives what came of it.
fn ask(session: &mut Session, entry: EntryPoint) -> Answer {
    match entry {
        EntryPoint::Start => match call_unit_export(session, "_start") {
            Some(Ok(())) => Answer::Ended,
            Some(Err(e)) => failure(&e),
            None => Answer::Missing,
        },
        EntryPoint::Main => match call_status_export(session, "main") {
            Some(Ok(status)) => Answer::Status(status),
            Some(Err(e)) => failure(&e),
            None => Answer::Missing,
        },
    }
}

impl EngineSettings {
    /// The settings of the backend that a registry holds from the start: the
    /// engine can be interrupted, and a linear memory takes the address
    /// space it holds and little more.
    pub open spec fn spec_standard() -> EngineSettings {
        EngineSettings {
            interruptible: true,
            memory_reservation: MEMORY_RESERVATION,
            memory_growth_reservation: MEMORY_GROWTH_RESERVATION,
            memory_guard_size: MEMORY_GUARD_SIZE,
        }
    }

    pub fn standard() -> (settings: EngineSettings)
        ensures
            settings == EngineSettings::spec_standard(),
    {
        EngineSettings {
            interruptible: true,
            memory_reservation: MEMORY_RESERVATION,
            memory_growth_reservation: MEMORY_GROWTH_RESERVATION,
            memory_guard_size: MEMORY_GUARD_SIZE,
        }
    }
}

impl WasmtimeRuntime {
    /// The engine of the backend.
    pub closed spec fn engine(&self) -> wasmtime::Engine {
        self.engine
    }

    /// The settings that the engine of the backend was asked for.
    pub closed spec fn settings(&self) -> EngineSettings {
        self.settings
    }

    /// The backend for what came of the attempt to make an engine with the
    /// settings: a backend on that engine, or `RuntimeNotFound` for
    /// `wasmtime` where the host could not have the engine.
    pub fn from_engine(
        made: Result<wasmtime::Engine, anyhow::Error>,
        settings: EngineSettings,
    ) -> (r: Result<Self, WasmRunnerError>)
        ensures
            match made {
                Ok(engine) => r matches Ok(runtime) && runtime.engine() == engine
                    && runtime.settings() == settings && runtime.label() == wasmtime_label(),
                Err(_) => r matches Err(WasmRunnerError::RuntimeNotFound(n)) && n@
                    == wasmtime_label(),
            },
    {
        match made {
            Ok(engine) => Ok(WasmtimeRuntime { engine, settings }),
            Err(_) => Err(WasmRunnerError::RuntimeNotFound("wasmtime".to_owned())),
        }
    }

    /// A backend with an engine of these settings, otherwise of the default
    /// configuration.
    ///
    /// Fails with `RuntimeNotFound` for `wasmtime` where this host cannot
    /// have such an engine.
    pub fn with_settings(settings: EngineSettings) -> (r: Result<Self, WasmRunnerError>)
        ensures
            match r {
                Ok(runtime) => runtime.settings() == settings && runtime.label()
                    == wasmtime_label(),
                Err(e) => e matches WasmRunnerError::RuntimeNotFound(n) && n@ == wasmtime_label(),
            },
    {
        let made = engine_new(
            settings.interruptible,
            settings.memory_reservation,
            settings.memory_growth_reservation,
            settings.memory_guard_size,
        );
        WasmtimeRuntime::from_engine(made, settings)
    }

    /// A backend with an engine of the standard settings: it can be
    /// interrupted, it reserves little address space for a linear memory, and
    /// it is otherwise of the default configuration.
    ///
    /// Fails with `RuntimeNotFound` for `wasmtime` where this host cannot
    /// have such an engine.
    pub fn new() -> (r: Result<Self, WasmRunnerError>)
        ensures
            match r {
                Ok(runtime) => runtime.settings() == EngineSettings::spec_standard()
                    && runtime.label() == wasmtime_label(),
                Err(e) => e matches WasmRunnerError::RuntimeNotFound(n) && n@ == wasmtime_label(),
            },
    {
        WasmtimeRuntime::with_settings(EngineSettings::standard())
    }

    /// Hands the bytes to the engine of the backend, which validates and
    /// compiles them and runs nothing.
    ///
    /// The module that comes of it exports what the bytes name; it has no
    /// environment and reaches nothing of the host until it is configured.
    /// Where the engine refuses the bytes, the failure carries what the
    /// engine said: it is `UnsupportedFeature` where that names a feature
    /// which is switched off, and `Validation` otherwise.
    pub fn load(&self, wasm_bytes: &[u8]) -> (r: Result<WasmtimeModule, WasmRunnerError>)
        ensures
            match r {
                Ok(module) => {
                    &&& module.export_names() == exports_of(wasm_bytes@)
                    &&& module.import_names() == imports_of(wasm_bytes@)
                    &&& module.variables().len() == 0
                    &&& module.in_force().is_closed()
                },
                Err(e) => load_failure_fits(e),
            },
    {
        match compile(&self.engine, wasm_bytes) {
            Ok((module, names, imports)) => Ok(WasmtimeModule::assemble(module, names, imports)),
            Err(e) => Err(load_failure(error_text(&e))),
        }
    }

    /// The settings that the engine of the backend was asked for.
    pub fn engine_settings(&self) -> (settings: EngineSettings)
        ensures
            settings == self.settings(),
    {
        self.settings
    }

    /// A handle on the engine of this backend, which ends the invocations
    /// in flight on it.
    pub fn interrupter(&self) -> (handle: Interrupter)
        ensures
            handle.engine() == self.engine(),
    {
        Interrupter { engine: engine_handle(&self.engine) }
    }
}

impl Interrupter {
    /// The engine that the handle is on.
    pub closed spec fn engine(&self) -> wasmtime::Engine {
        self.engine
    }

    /// Ends every invocation that is in flight on the backend: each of them
    /// soon fails with a fault of the kind `TimedOut`. An invocation that
    /// starts later is not touched.
    pub fn interrupt(&self) {
        increment_epoch(&self.engine);
    }
}

impl WasmRuntime for WasmtimeRuntime {
    open spec fn label(&self) -> Seq<char> {
        wasmtime_label()
    }

    /// Loads the module with `load` and hands it out as a module of this
    /// engine. The backend itself stays as it was.
    ///
    /// The module exports what the bytes name; it has no environment and
    /// reaches nothing of the host until it is configured. Where the engine
    /// refuses the bytes, the failure carries what the engine said: it is
    /// `UnsupportedFeature` where that names a feature which is switched
    /// off, and `Validation` otherwise.
    fn load_module(&mut self, wasm_bytes: &[u8]) -> (r: Result<LoadedModule, WasmRunnerError>)
        ensures
            final(self).engine() == old(self).engine(),
            final(self).settings() == old(self).settings(),
            r matches Ok(loaded) ==> freshly_loaded(loaded, wasm_bytes@),
            r matches Err(e) ==> load_failure_fits(e),
    {
        match self.load(wasm_bytes) {
            Ok(module) => Ok(LoadedModule::Wasmtime(module)),
            Err(e) => Err(e),
        }
    }

    fn name(&self) -> (n: &str)
    {
        "wasmtime"
    }
}

impl WasmtimeModule {
    /// The imports of the module, each as the module and the field it names.
    pub closed spec fn import_names(&self) -> Seq<(Seq<char>, Seq<char>)> {
        self.imports.deep_view()
    }

    /// The restrictions under which the next invocation runs.
    pub closed spec fn in_force(&self) -> &Restrictions {
        &self.restrictions
    }

    /// The environment variables that the next invocation is given.
    pub closed spec fn variables(&self) -> Seq<(Seq<char>, Seq<char>)> {
        self.environment.deep_view()
    }

    /// A loaded module from what the engine made of its bytes: the compiled
    /// module, the names it exports and the imports it asks for. The module
    /// has no environment and reaches nothing of the host until it is
    /// configured.
    pub fn assemble(
        module: wasmtime::Module,
        names: Vec<String>,
        imports: Vec<(String, String)>,
    ) -> (loaded: WasmtimeModule)
        ensures
            loaded.export_names() == names.deep_view(),
            loaded.import_names() == imports.deep_view(),
            loaded.variables().len() == 0,
            loaded.in_force().is_closed(),
    {
        let loaded = WasmtimeModule {
            module,
            names,
            imports,
            environment: Vec::new(),
            restrictions: Restrictions::closed(),
        };
        assert(loaded.environment.deep_view() =~= Seq::empty());
        loaded
    }

    /// The place of the first import that the restrictions in force deny.
    pub open spec fn denied_import(&self) -> Option<int> {
        first_denied(self.in_force(), self.import_names(), self.import_names().len() as int)
    }
}

impl WasmModule for WasmtimeModule {
    closed spec fn export_names(&self) -> Seq<Seq<char>> {
        self.names.deep_view()
    }

    fn configure(&mut self, environment: Vec<(String, String)>, restrictions: Restrictions)
        ensures
            *final(self).in_force() == restrictions,
            final(self).variables() == environment.deep_view(),
            final(self).import_names() == old(self).import_names(),
    {
        self.environment = environment;
        self.restrictions = restrictions;
    }

    /// Runs the module in a store of its own, with WASI linked in.
    ///
    /// The host functions of WASI wait on tokio, so a program that runs on
    /// tokio calls this from a blocking section, not from a task.
    ///
    /// A module without an entry point is not run. While syscalls are
    /// filtered, a module with an import that the restrictions deny is not
    /// run either: it fails with `PermissionDenied` and the name of the first
    /// such import, and nothing else fails with that kind. Every other
    /// module gets what `host_access` says of the host, the arguments and
    /// the configured environment. Its entry points are tried in the order
    /// of `entry_order`, and the first answer that settles anything, as
    /// `verdict` says, is the result; where none does, the result is 0.
    fn execute(&mut self, args: Vec<String>) -> (r: Result<i32, WasmRunnerError>)
        ensures
            final(self).import_names() == old(self).import_names(),
            final(self).in_force() == old(self).in_force(),
            final(self).variables() == old(self).variables(),
            (r matches Err(WasmRunnerError::ExecutionFault(kind, _)) && kind
                == FaultKind::PermissionDenied) <==> (has_entry_point(old(self).export_names())
                && old(self).denied_import() is Some),
            has_entry_point(old(self).export_names()) ==> (old(self).denied_import() matches Some(
                i,
            ) ==> r matches Err(WasmRunnerError::ExecutionFault(_, text)) && text@
                == denial_text(old(self).import_names()[i].1)),
    {
        let order = entries_to_try(&self.names);
        if order.len() == 0 {
            return Ok(0);
        }
        match find_denied_import(&self.restrictions, &self.imports) {
            Some(i) => {
                assert(self.imports.deep_view()[i as int].1 == self.imports@[i as int].1@);
                return Err(denied_import_fault(&self.imports[i].1));
            },
            None => {},
        }
        let access = host_access(&self.restrictions);
        let mut builder = wasi_builder(&args, &self.environment);
        if access.stdio {
            wasi_inherit_stdio(&mut builder);
        }
        if access.network {
            wasi_inherit_network(&mut builder);
        }
        let mut i: usize = 0;
        while i < access.directories.len()
            invariant
                i <= access.directories.len(),
                *self == *old(self),
                has_entry_point(old(self).export_names()),
                old(self).denied_import() is None,
            decreases access.directories.len() - i,
        {
            let opened = if access.directories_writable {
                wasi_preopen(&mut builder, &access.directories[i])
            } else {
                wasi_preopen_readonly(&mut builder, &access.directories[i])
            };
            match opened {
                Ok(()) => {},
                Err(e) => {
                    return Err(fault_of(&e));
                },
            }
            i += 1;
        }
        let state = HostState {
            wasi: wasi_build(builder),
            limits: memory_limits(access.memory_ceiling, access.ends_above_ceiling),
        };
        let mut session = match open_session(&self.module, state, INTERRUPT_AFTER) {
            Ok(session) => session,
            Err(e) => {
                return Err(fault_of(&e));
            },
        };
        let mut tried: usize = 0;
        while tried < order.len()
            invariant
                tried <= order.len(),
                *self == *old(self),
                has_entry_point(old(self).export_names()),
                old(self).denied_import() is None,
            decreases order.len() - tried,
        {
            match verdict(ask(&mut session, order[tried])) {
                Some(settled) => {
                    return settled;
                },
                None => {},
            }
            tried += 1;
        }
        Ok(0)
    }

    fn exports(&self) -> (names: Vec<String>)
    {
        copy_strings(&self.names)
    }
}

} // verus!
