//! The contract of an execution engine, and the registry of engines.
//!
//! A backend loads the bytes of a module into a unit that can be invoked.
//! Loading validates and runs nothing. An invocation looks for the entry
//! point `_start` first and for `main` second; a module that exports neither
//! is not run and counts as a success.

pub mod manager;
pub mod wasmtime_runtime;

pub use manager::RuntimeManager;

use crate::error::WasmRunnerError;
use crate::sandbox::Restrictions;
use vstd::prelude::*;
use wasmtime_runtime::{WasmtimeModule, WasmtimeRuntime};

verus! {

/// The entry point that is tried first: it initialises the module and runs it.
pub open spec fn start_symbol() -> Seq<char> {
    "_start"@
}

/// The entry point that is tried second: it returns the exit code.
pub open spec fn main_symbol() -> Seq<char> {
    "main"@
}

/// Whether a module with these exports has an entry point.
pub open spec fn has_entry_point(exports: Seq<Seq<char>>) -> bool {
    exports.contains(start_symbol()) || exports.contains(main_symbol())
}

/// A WebAssembly engine.
///
/// The contracts of the methods speak of `label`. An implementation that
/// is verified says what its `label` is; one that is not leaves it open and
/// answers for the contracts itself.
pub trait WasmRuntime {
    /// The name under which the engine is known.
    open spec fn label(&self) -> Seq<char> {
        arbitrary()
    }

    /// Loads and validates a module; none of its code is run.
    ///
    /// Bytes that are no well-formed module fail with `Validation`, a module
    /// that needs what the engine lacks fails with `UnsupportedFeature`.
    fn load_module(&mut self, wasm_bytes: &[u8]) -> (r: Result<LoadedModule, WasmRunnerError>)
        ensures
            final(self).label() == old(self).label(),
            r matches Err(e) ==> e is Validation || e is UnsupportedFeature,
    ;

    /// The engine's name.
    fn name(&self) -> (n: &str)
        ensures
            n@ == self.label(),
    ;
}

/// A loaded module: it belongs to one execution.
///
/// The contracts of the methods speak of `export_names`. An implementation
/// that is verified says what its `export_names` are; one that is not leaves
/// them open and answers for the contracts itself.
pub trait WasmModule {
    /// The names that the module exports, in the order of its export section.
    open spec fn export_names(&self) -> Seq<Seq<char>> {
        arbitrary()
    }

    /// Sets the environment variables and the restrictions under which the
    /// next invocation runs.
    fn configure(&mut self, environment: Vec<(String, String)>, restrictions: Restrictions)
        ensures
            final(self).export_names() == old(self).export_names(),
    ;

    /// Invokes the module with the arguments and returns its exit code.
    ///
    /// A module without an entry point is not run and returns 0. Every
    /// failure is an `ExecutionFault`.
    fn execute(&mut self, args: Vec<String>) -> (r: Result<i32, WasmRunnerError>)
        ensures
            final(self).export_names() == old(self).export_names(),
            !has_entry_point(old(self).export_names()) ==> r == Ok::<i32, WasmRunnerError>(0),
            r matches Err(e) ==> e is ExecutionFault,
    ;

    /// The names that the module exports. The answer depends on the loaded
    /// module alone: it is the same before and after an invocation, however
    /// often it is asked for.
    fn exports(&self) -> (names: Vec<String>)
        ensures
            names.deep_view() == self.export_names(),
    ;
}

/// A loaded module of any engine: one of the engine that this crate
/// brings, or one of an engine from elsewhere.
pub enum LoadedModule {
    Wasmtime(WasmtimeModule),
    Other(Box<dyn WasmModule>),
}

/// An engine of any make: the one that this crate brings, or one from
/// elsewhere.
pub enum Backend {
    Wasmtime(WasmtimeRuntime),
    Other(Box<dyn WasmRuntime>),
}

impl WasmModule for LoadedModule {
    open spec fn export_names(&self) -> Seq<Seq<char>> {
        match self {
            LoadedModule::Wasmtime(module) => module.export_names(),
            LoadedModule::Other(module) => module.export_names(),
        }
    }

    fn configure(&mut self, environment: Vec<(String, String)>, restrictions: Restrictions)
        ensures
            *old(self) matches LoadedModule::Wasmtime(before) ==> {
                &&& *final(self) matches LoadedModule::Wasmtime(after)
                &&& *after.in_force() == restrictions
                &&& after.variables() == environment.deep_view()
                &&& after.import_names() == before.import_names()
            },
            *old(self) is Other ==> *final(self) is Other,
    {
        match self {
            LoadedModule::Wasmtime(module) => module.configure(environment, restrictions),
            LoadedModule::Other(module) => module.configure(environment, restrictions),
        }
    }

    fn execute(&mut self, args: Vec<String>) -> (r: Result<i32, WasmRunnerError>)
        ensures
            *old(self) matches LoadedModule::Wasmtime(before) ==> {
                &&& *final(self) matches LoadedModule::Wasmtime(after)
                &&& after.import_names() == before.import_names()
                &&& after.in_force() == before.in_force()
                &&& after.variables() == before.variables()
                &&& (r matches Err(WasmRunnerError::ExecutionFault(kind, _)) && kind
                    == crate::error::FaultKind::PermissionDenied) <==> (has_entry_point(
                    before.export_names(),
                ) && before.denied_import() is Some)
            },
            *old(self) is Other ==> *final(self) is Other,
    {
        match self {
            LoadedModule::Wasmtime(module) => module.execute(args),
            LoadedModule::Other(module) => module.execute(args),
        }
    }

    fn exports(&self) -> (names: Vec<String>)
    {
        match self {
            LoadedModule::Wasmtime(module) => module.exports(),
            LoadedModule::Other(module) => module.exports(),
        }
    }
}

impl WasmRuntime for Backend {
    open spec fn label(&self) -> Seq<char> {
        match self {
            Backend::Wasmtime(runtime) => runtime.label(),
            Backend::Other(runtime) => runtime.label(),
        }
    }

    /// Loads the module with the engine behind. The engine that this crate
    /// brings gives a module of its own, which exports what the bytes name,
    /// has no environment and reaches nothing of the host until it is
    /// configured; its failure carries what the engine said.
    fn load_module(&mut self, wasm_bytes: &[u8]) -> (r: Result<LoadedModule, WasmRunnerError>)
        ensures
            *old(self) matches Backend::Wasmtime(before) ==> {
                &&& *final(self) matches Backend::Wasmtime(after)
                &&& after.engine() == before.engine()
                &&& after.settings() == before.settings()
                &&& r matches Ok(loaded) ==> wasmtime_runtime::freshly_loaded(loaded, wasm_bytes@)
                &&& r matches Err(e) ==> wasmtime_runtime::load_failure_fits(e)
            },
            *old(self) is Other ==> *final(self) is Other,
    {
        match self {
            Backend::Wasmtime(runtime) => runtime.load_module(wasm_bytes),
            Backend::Other(runtime) => runtime.load_module(wasm_bytes),
        }
    }

    fn name(&self) -> (n: &str)
    {
        match self {
            Backend::Wasmtime(runtime) => runtime.name(),
            Backend::Other(runtime) => runtime.name(),
        }
    }
}

} // verus!
