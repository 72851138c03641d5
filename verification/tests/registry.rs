use wasmrunner::error::WasmRunnerError;
use wasmrunner::runtime::{Backend, LoadedModule, RuntimeManager, WasmModule, WasmRuntime};
use wasmrunner::sandbox::Restrictions;

struct IdleModule;

impl WasmModule for IdleModule {
    fn configure(&mut self, _environment: Vec<(String, String)>, _restrictions: Restrictions) {}

    fn execute(&mut self, _args: Vec<String>) -> Result<i32, WasmRunnerError> {
        Ok(0)
    }

    fn exports(&self) -> Vec<String> {
        Vec::new()
    }
}

struct NamedRuntime {
    name: String,
}

impl WasmRuntime for NamedRuntime {
    fn load_module(&mut self, _wasm_bytes: &[u8]) -> Result<LoadedModule, WasmRunnerError> {
        Ok(LoadedModule::Other(Box::new(IdleModule)))
    }

    fn name(&self) -> &str {
        &self.name
    }
}

fn backend(name: &str) -> Backend {
    Backend::Other(Box::new(NamedRuntime { name: name.to_string() }))
}

#[test]
fn resolve_unregistered_backend_fails_and_leaves_registry() {
    let mut manager = RuntimeManager::with_default("engineA".to_string());
    manager.register("engineA".to_string(), backend("engineA"));
    match manager.get_runtime(Some("primary")) {
        Err(e) => assert_eq!(e, WasmRunnerError::RuntimeNotFound("primary".to_string())),
        Ok(_) => panic!("primary is not registered"),
    }
    assert_eq!(manager.available_runtimes(), vec!["engineA".to_string()]);
    assert_eq!(manager.get_runtime(Some("engineA")).unwrap().name(), "engineA");
}

#[test]
fn new_registry_holds_the_wasmtime_backend_itself() {
    let mut manager = RuntimeManager::new().unwrap();
    match manager.get_runtime(None).unwrap() {
        Backend::Wasmtime(runtime) => {
            assert!(runtime.engine_settings().interruptible);
            assert_eq!(runtime.engine_settings().memory_reservation, 0);
        }
        Backend::Other(_) => panic!("the default backend is the one of this crate"),
    }
}

#[test]
fn new_registry_holds_wasmtime_as_default() {
    let mut manager = RuntimeManager::new().unwrap();
    assert_eq!(manager.available_runtimes(), vec!["wasmtime".to_string()]);
    assert_eq!(manager.get_runtime(None).unwrap().name(), "wasmtime");
    assert_eq!(manager.get_runtime(Some("wasmtime")).unwrap().name(), "wasmtime");
}

#[test]
fn empty_registry_resolves_nothing() {
    let mut manager = RuntimeManager::with_default("wasmtime".to_string());
    assert!(manager.available_runtimes().is_empty());
    match manager.get_runtime(None) {
        Err(e) => assert_eq!(e, WasmRunnerError::RuntimeNotFound("wasmtime".to_string())),
        Ok(_) => panic!("nothing is registered"),
    }
}

#[test]
fn omitted_name_resolves_the_default() {
    let mut manager = RuntimeManager::with_default("second".to_string());
    manager.register("first".to_string(), backend("backend one"));
    manager.register("second".to_string(), backend("backend two"));
    assert_eq!(manager.get_runtime(None).unwrap().name(), "backend two");
    assert_eq!(manager.get_runtime(Some("first")).unwrap().name(), "backend one");
}

#[test]
fn register_under_a_known_name_replaces_the_backend() {
    let mut manager = RuntimeManager::with_default("a".to_string());
    manager.register("a".to_string(), backend("old"));
    manager.register("b".to_string(), backend("other"));
    manager.register("a".to_string(), backend("new"));
    assert_eq!(manager.available_runtimes(), vec!["a".to_string(), "b".to_string()]);
    assert_eq!(manager.get_runtime(Some("a")).unwrap().name(), "new");
    assert_eq!(manager.get_runtime(Some("b")).unwrap().name(), "other");
}

#[test]
fn names_come_in_the_order_of_registration() {
    let mut manager = RuntimeManager::with_default("x".to_string());
    manager.register("zeta".to_string(), backend("z"));
    manager.register("alpha".to_string(), backend("a"));
    manager.register("mid".to_string(), backend("m"));
    assert_eq!(
        manager.available_runtimes(),
        vec!["zeta".to_string(), "alpha".to_string(), "mid".to_string()]
    );
}

#[test]
fn handle_reaches_the_registered_backend() {
    let mut manager = RuntimeManager::with_default("a".to_string());
    manager.register("a".to_string(), backend("a"));
    let handle = manager.get_runtime(None).unwrap();
    let mut module = handle.load_module(&[]).unwrap();
    assert_eq!(module.execute(Vec::new()), Ok(0));
}
