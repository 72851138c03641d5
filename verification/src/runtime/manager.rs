//! The registry of backends.

use crate::error::WasmRunnerError;
use crate::runtime::wasmtime_runtime::{wasmtime_label, EngineSettings, WasmtimeRuntime};
use crate::runtime::{Backend, WasmRuntime};
use crate::text::copy_strings;
use vstd::prelude::*;

verus! {

/// Owns the backends, each under one name, and knows which one is the default.
pub struct RuntimeManager {
    names: Vec<String>,
    backends: Vec<Backend>,
    default_runtime: String,
}

/// Where `name` stands in `names`, if it is among them.
pub open spec fn position(names: Seq<Seq<char>>, name: Seq<char>) -> Option<int> {
    if names.contains(name) {
        Some(names.index_of(name))
    } else {
        None
    }
}

impl RuntimeManager {
    /// The registered names, in the order in which they were first registered.
    pub closed spec fn names(&self) -> Seq<Seq<char>> {
        self.names.deep_view()
    }

    /// The backends, each at the place of its name.
    pub closed spec fn backends(&self) -> Seq<Backend> {
        self.backends@
    }

    /// The name that is resolved where none is given.
    pub closed spec fn default_name(&self) -> Seq<char> {
        self.default_runtime@
    }

    /// The invariant of the registry: no name is registered twice, and each
    /// name has its backend.
    pub open spec fn well_formed(&self) -> bool {
        &&& self.names().no_duplicates()
        &&& self.backends().len() == self.names().len()
    }

    /// Whether a backend is registered under `name`.
    pub open spec fn has(&self, name: Seq<char>) -> bool {
        self.names().contains(name)
    }

    /// The name that `get_runtime` looks up for the argument.
    pub open spec fn resolved_name(&self, name: Option<&str>) -> Seq<char> {
        match name {
            Some(n) => n@,
            None => self.default_name(),
        }
    }

    /// The registry at start-up: the Wasmtime backend with the standard
    /// settings under the name `wasmtime`, which is also the default.
    ///
    /// Fails with `RuntimeNotFound` for `wasmtime` where this host cannot
    /// have that backend.
    pub fn new() -> (r: Result<Self, WasmRunnerError>)
        ensures
            match r {
                Ok(m) => {
                    &&& m.well_formed()
                    &&& m.names() == seq![wasmtime_label()]
                    &&& m.default_name() == wasmtime_label()
                    &&& m.backends().len() == 1
                    &&& m.backends()[0] matches Backend::Wasmtime(runtime)
                    &&& runtime.settings() == EngineSettings::spec_standard()
                    &&& m.backends()[0].label() == wasmtime_label()
                },
                Err(e) => e matches WasmRunnerError::RuntimeNotFound(n) && n@ == wasmtime_label(),
            },
    {
        match WasmtimeRuntime::new() {
            Ok(runtime) => {
                let mut m = RuntimeManager::with_default("wasmtime".to_owned());
                m.register("wasmtime".to_owned(), Backend::Wasmtime(runtime));
                assert(m.names() =~= seq![wasmtime_label()]);
                Ok(m)
            },
            Err(e) => Err(e),
        }
    }

    /// A registry without backends, whose default is `default_runtime`.
    pub fn with_default(default_runtime: String) -> (m: Self)
        ensures
            m.well_formed(),
            m.names().len() == 0,
            m.backends().len() == 0,
            m.default_name() == default_runtime@,
    {
        let m = RuntimeManager { names: Vec::new(), backends: Vec::new(), default_runtime };
        assert(m.names() =~= Seq::empty());
        m
    }

    fn find(&self, name: &String) -> (r: Option<usize>)
        requires
            self.well_formed(),
        ensures
            position(self.names(), name@) == match r {
                Some(i) => Some(i as int),
                None => None,
            },
            r matches Some(i) ==> i < self.names().len(),
    {
        let mut i: usize = 0;
        while i < self.names.len()
            invariant
                self.well_formed(),
                i <= self.names.len(),
                forall|j: int| 0 <= j < i ==> self.names()[j] != name@,
            decreases self.names.len() - i,
        {
            if self.names[i] == *name {
                proof {
                    let k = self.names().index_of(name@);
                    assert(self.names()[i as int] == name@);
                    assert(self.names().contains(name@));
                    assert(self.names()[k] == name@);
                    assert(k == i);
                }
                return Some(i);
            }
            i += 1;
        }
        None
    }

    /// Registers `backend` under `name`. A backend that was registered under
    /// the name before is replaced; the other entries stay as they are.
    pub fn register(&mut self, name: String, backend: Backend)
        requires
            old(self).well_formed(),
        ensures
            final(self).well_formed(),
            final(self).default_name() == old(self).default_name(),
            final(self).has(name@),
            match position(old(self).names(), name@) {
                Some(i) => {
                    &&& final(self).names() == old(self).names()
                    &&& final(self).backends() == old(self).backends().update(i, backend)
                },
                None => {
                    &&& final(self).names() == old(self).names().push(name@)
                    &&& final(self).backends() == old(self).backends().push(backend)
                },
            },
    {
        let found = self.find(&name);
        match found {
            Some(i) => {
                self.backends[i] = backend;
            },
            None => {
                let ghost old_names = self.names();
                self.names.push(name);
                self.backends.push(backend);
                proof {
                    let new_names = self.names();
                    assert(new_names =~= old_names.push(name@));
                    assert(new_names[old_names.len() as int] == name@);
                    assert forall|a: int, b: int|
                        0 <= a < new_names.len() && 0 <= b < new_names.len() && a
                            != b implies new_names[a] != new_names[b] by {
                        if a < old_names.len() {
                            assert(old_names[a] == new_names[a]);
                        }
                        if b < old_names.len() {
                            assert(old_names[b] == new_names[b]);
                        }
                    }
                }
            },
        }
    }

    /// Hands out the backend registered under `name`, or under the default
    /// name where `name` is `None`.
    ///
    /// Fails with `RuntimeNotFound`, carrying the name looked up, exactly when
    /// no backend is registered under it; the registry is then unchanged.
    /// While the handle is held, the registry hands out no other.
    pub fn get_runtime(&mut self, name: Option<&str>) -> (r: Result<&mut Backend, WasmRunnerError>)
        requires
            old(self).well_formed(),
        ensures
            final(self).well_formed(),
            final(self).names() == old(self).names(),
            final(self).default_name() == old(self).default_name(),
            final(self).backends().len() == old(self).backends().len(),
            match r {
                Ok(handle) => {
                    &&& position(old(self).names(), old(self).resolved_name(name)) matches Some(i)
                    &&& *handle == old(self).backends()[i]
                    &&& final(self).backends() == old(self).backends().update(i, *final(handle))
                },
                Err(e) => {
                    &&& !old(self).has(old(self).resolved_name(name))
                    &&& e matches WasmRunnerError::RuntimeNotFound(n)
                    &&& n@ == old(self).resolved_name(name)
                    &&& final(self).backends() == old(self).backends()
                },
            },
    {
        let wanted: String = match name {
            Some(n) => n.to_owned(),
            None => self.default_runtime.clone(),
        };
        let found = self.find(&wanted);
        match found {
            Some(i) => Ok(&mut self.backends[i]),
            None => Err(WasmRunnerError::RuntimeNotFound(wanted)),
        }
    }

    /// The names of the registered backends, in the order of registration.
    pub fn available_runtimes(&self) -> (names: Vec<String>)
        ensures
            names.deep_view() == self.names(),
    {
        copy_strings(&self.names)
    }
}

} // verus!
