//! The settings of the runner and their defaults.

use crate::container::{ContainerConfig, ResourceLimits};
use crate::sandbox::guard::GuardKind;
use crate::sandbox::SandboxConfig;
use vstd::prelude::*;

verus! {

#[derive(Debug, Clone, PartialEq, Eq)]
pub struct Config {
    pub runtime: RuntimeConfig,
    pub security: SecurityConfig,
    pub registry: RegistryConfig,
    pub plugins: PluginConfig,
    pub supabase: Option<SupabaseConfig>,
}

#[derive(Debug, Clone, PartialEq, Eq)]
pub struct RuntimeConfig {
    pub default_runtime: String,
    pub memory_limit_mb: u64,
    pub cpu_limit_percent: u32,
    pub timeout_seconds: u64,
}

#[derive(Debug, Clone, PartialEq, Eq)]
pub struct SecurityConfig {
    pub enable_seccomp: bool,
    pub seccomp_profile: Option<String>,
    pub enable_memory_guard: bool,
    pub allow_network: bool,
    pub allow_filesystem: bool,
}

#[derive(Debug, Clone, PartialEq, Eq)]
pub struct RegistryConfig {
    pub default_registry: String,
    pub cache_dir: String,
    pub auth_config: Option<String>,
}

#[derive(Debug, Clone, PartialEq, Eq)]
pub struct PluginConfig {
    pub plugin_dir: String,
    pub auto_discovery: bool,
    pub trusted_publishers: Vec<String>,
}

#[derive(Debug, Clone, PartialEq, Eq)]
pub struct SupabaseConfig {
    pub url: String,
    pub anon_key: String,
    pub service_key: Option<String>,
    pub enable_auth: bool,
    pub enable_storage: bool,
}

/// The path of `leaf` below `base`. An empty base gives the leaf itself, and
/// a base that ends in a separator gets no second one.
pub open spec fn joined(base: Seq<char>, leaf: Seq<char>) -> Seq<char> {
    if base.len() == 0 {
        leaf
    } else if base.last() == '/' {
        base + leaf
    } else {
        base + seq!['/'] + leaf
    }
}

/// The directory of the runner's own files below the home directory.
pub open spec fn data_dir(home: Seq<char>) -> Seq<char> {
    joined(home, ".wasmrunner"@)
}

/// The path of `leaf` below `base`.
pub fn join_path(base: &str, leaf: &str) -> (path: String)
    ensures
        path@ == joined(base@, leaf@),
{
    let n = base.unicode_len();
    if n == 0 {
        leaf.to_owned()
    } else if base.get_char(n - 1) == '/' {
        let mut path = base.to_owned();
        path.append(leaf);
        path
    } else {
        let mut path = base.to_owned();
        proof {
            reveal_strlit("/");
            assert("/"@ =~= seq!['/']);
        }
        path.append("/");
        path.append(leaf);
        path
    }
}

impl Config {
    /// The settings of a user who has set nothing, with the runner's own
    /// files below `home`.
    pub fn with_home(home: &str) -> (c: Config)
        ensures
            c.runtime.default_runtime@ == "wasmtime"@,
            c.runtime.memory_limit_mb == 128,
            c.runtime.cpu_limit_percent == 100,
            c.runtime.timeout_seconds == 300,
            c.security.enable_seccomp,
            c.security.seccomp_profile is None,
            c.security.enable_memory_guard,
            !c.security.allow_network,
            c.security.allow_filesystem,
            c.registry.default_registry@ == "registry.wasmrunner.dev"@,
            c.registry.cache_dir@ == joined(data_dir(home@), "cache"@),
            c.registry.auth_config matches Some(path) && path@ == joined(
                data_dir(home@),
                "auth.json"@,
            ),
            c.plugins.plugin_dir@ == joined(data_dir(home@), "plugins"@),
            c.plugins.auto_discovery,
            c.plugins.trusted_publishers@.len() == 1,
            c.plugins.trusted_publishers@[0]@ == "wasmrunner.dev"@,
            c.supabase is None,
    {
        let wasmrunner_dir = join_path(home, ".wasmrunner");
        Config {
            runtime: RuntimeConfig {
                default_runtime: "wasmtime".to_owned(),
                memory_limit_mb: 128,
                cpu_limit_percent: 100,
                timeout_seconds: 300,
            },
            security: SecurityConfig {
                enable_seccomp: true,
                seccomp_profile: None,
                enable_memory_guard: true,
                allow_network: false,
                allow_filesystem: true,
            },
            registry: RegistryConfig {
                default_registry: "registry.wasmrunner.dev".to_owned(),
                cache_dir: join_path(wasmrunner_dir.as_str(), "cache"),
                auth_config: Some(join_path(wasmrunner_dir.as_str(), "auth.json")),
            },
            plugins: PluginConfig {
                plugin_dir: join_path(wasmrunner_dir.as_str(), "plugins"),
                auto_discovery: true,
                trusted_publishers: vec!["wasmrunner.dev".to_owned()],
            },
            supabase: None,
        }
    }

    /// Takes the settings of the app store from the environment: where both
    /// the address and the key are set, they replace what was configured,
    /// with sign-in and storage switched on. Otherwise nothing changes.
    pub fn override_supabase(
        &mut self,
        url: Option<String>,
        anon_key: Option<String>,
        service_key: Option<String>,
    )
        ensures
            final(self).runtime == old(self).runtime,
            final(self).security == old(self).security,
            final(self).registry == old(self).registry,
            final(self).plugins == old(self).plugins,
            match (url, anon_key) {
                (Some(u), Some(k)) => final(self).supabase == Some(
                    (SupabaseConfig {
                        url: u,
                        anon_key: k,
                        service_key: service_key,
                        enable_auth: true,
                        enable_storage: true,
                    }),
                ),
                _ => final(self).supabase == old(self).supabase,
            },
    {
        match (url, anon_key) {
            (Some(u), Some(k)) => {
                self.supabase = Some(
                    SupabaseConfig {
                        url: u,
                        anon_key: k,
                        service_key,
                        enable_auth: true,
                        enable_storage: true,
                    },
                );
            },
            _ => {},
        }
    }

    /// The policy of a unit under these settings.
    ///
    /// The request gives the limits and the network mode. The settings say
    /// whether the memory ceiling is guarded at all, whether syscalls are
    /// filtered and by which profile, and whether the filesystem is open;
    /// where it is, it is open below `/tmp`. The process is always isolated.
    pub fn policy_for(&self, request: &ContainerConfig) -> (policy: SandboxConfig)
        ensures
            policy.memory_limit == (if self.security.enable_memory_guard {
                Some(request.resource_limits.spec_memory_bytes())
            } else {
                None
            }),
            policy.cpu_limit == Some(request.resource_limits.cpu_percent),
            policy.enable_seccomp == self.security.enable_seccomp,
            policy.seccomp_profile == self.security.seccomp_profile,
            policy.allow_network == (request.network_mode is Host),
            policy.allow_filesystem == self.security.allow_filesystem,
            self.security.allow_filesystem ==> policy.allowed_paths@.len() == 1
                && policy.allowed_paths@[0]@ == "/tmp"@,
            !self.security.allow_filesystem ==> policy.allowed_paths@.len() == 0,
            policy.enable_process_isolation,
            !policy.refuses(GuardKind::Filesystem),
    {
        let mut policy = request.sandbox_policy();
        if !self.security.enable_memory_guard {
            policy.memory_limit = None;
        }
        policy.enable_seccomp = self.security.enable_seccomp;
        policy.seccomp_profile = match &self.security.seccomp_profile {
            Some(profile) => Some(profile.clone()),
            None => None,
        };
        policy.allow_filesystem = self.security.allow_filesystem;
        if !policy.allow_filesystem {
            policy.allowed_paths = Vec::new();
        }
        policy
    }

    /// The resource limits of an execution that asks for none of its own.
    pub fn default_limits(&self) -> (limits: ResourceLimits)
        ensures
            limits.memory_mb == self.runtime.memory_limit_mb,
            limits.cpu_percent == self.runtime.cpu_limit_percent,
    {
        ResourceLimits {
            memory_mb: self.runtime.memory_limit_mb,
            cpu_percent: self.runtime.cpu_limit_percent,
        }
    }
}

} // verus!
