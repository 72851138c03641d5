//! The declarative policy of a sandbox.

use crate::sandbox::guard::GuardKind;
use crate::text::copy_strings;
use vstd::prelude::*;

verus! {

/// The ceiling of the default policy: 128 MiB, in bytes.
pub const DEFAULT_MEMORY_LIMIT: u64 = 134217728;

/// The largest share of the processor that a policy can grant, in percent.
pub const MAX_CPU_PERCENT: u32 = 100;

/// What an execution may use and reach.
#[derive(Debug, Clone, PartialEq, Eq)]
pub struct SandboxConfig {
    /// Memory limit in bytes
    pub memory_limit: Option<u64>,
    /// CPU limit as percentage (0-100)
    pub cpu_limit: Option<u32>,
    /// Enable syscall filtering
    pub enable_seccomp: bool,
    /// Path to a custom filter profile
    pub seccomp_profile: Option<String>,
    /// Allow network access
    pub allow_network: bool,
    /// Allow filesystem access
    pub allow_filesystem: bool,
    /// Path prefixes below which the filesystem may be reached
    pub allowed_paths: Vec<String>,
    /// Enable process isolation
    pub enable_process_isolation: bool,
}

impl SandboxConfig {
    /// Whether the policy asks for a guard of the kind.
    pub open spec fn wants(&self, g: GuardKind) -> bool {
        match g {
            GuardKind::MemoryCeiling => self.memory_limit is Some,
            GuardKind::CpuShare => self.cpu_limit is Some,
            GuardKind::SyscallFilter => self.enable_seccomp,
            GuardKind::Filesystem => true,
            GuardKind::Network => !self.allow_network,
            GuardKind::ProcessIsolation => self.enable_process_isolation,
        }
    }

    /// Whether a guard of the kind can be applied with what the policy gives it.
    pub open spec fn admits(&self, g: GuardKind) -> bool {
        match g {
            GuardKind::MemoryCeiling => self.memory_limit != Some(0u64),
            GuardKind::CpuShare => match self.cpu_limit {
                Some(c) => c <= MAX_CPU_PERCENT,
                None => true,
            },
            GuardKind::SyscallFilter => match self.seccomp_profile {
                Some(p) => p@.len() > 0,
                None => true,
            },
            GuardKind::Filesystem => self.allow_filesystem || self.allowed_paths@.len() == 0,
            GuardKind::Network => true,
            GuardKind::ProcessIsolation => true,
        }
    }

    /// A guard of the kind is asked for and cannot be applied.
    pub open spec fn refuses(&self, g: GuardKind) -> bool {
        self.wants(g) && !self.admits(g)
    }

    /// The invariant of a policy: every guard it asks for can be applied.
    pub open spec fn well_formed(&self) -> bool {
        forall|g: GuardKind| !self.refuses(g)
    }

    pub fn has_guard(&self, g: GuardKind) -> (b: bool)
        ensures
            b == self.wants(g),
    {
        match g {
            GuardKind::MemoryCeiling => self.memory_limit.is_some(),
            GuardKind::CpuShare => self.cpu_limit.is_some(),
            GuardKind::SyscallFilter => self.enable_seccomp,
            GuardKind::Filesystem => true,
            GuardKind::Network => !self.allow_network,
            GuardKind::ProcessIsolation => self.enable_process_isolation,
        }
    }

    pub fn can_apply(&self, g: GuardKind) -> (b: bool)
        ensures
            b == self.admits(g),
    {
        match g {
            GuardKind::MemoryCeiling => match self.memory_limit {
                Some(m) => m != 0,
                None => true,
            },
            GuardKind::CpuShare => match self.cpu_limit {
                Some(c) => c <= MAX_CPU_PERCENT,
                None => true,
            },
            GuardKind::SyscallFilter => match &self.seccomp_profile {
                Some(p) => !p.as_str().is_empty(),
                None => true,
            },
            GuardKind::Filesystem => self.allow_filesystem || self.allowed_paths.len() == 0,
            GuardKind::Network => true,
            GuardKind::ProcessIsolation => true,
        }
    }

    /// Tells whether the policy keeps its invariant.
    pub fn is_well_formed(&self) -> (b: bool)
        ensures
            b == self.well_formed(),
    {
        let memory = self.can_apply(GuardKind::MemoryCeiling);
        let cpu = self.can_apply(GuardKind::CpuShare);
        let filter = !self.enable_seccomp || self.can_apply(GuardKind::SyscallFilter);
        let filesystem = self.can_apply(GuardKind::Filesystem);
        let ok = memory && cpu && filter && filesystem;
        proof {
            if ok {
                assert forall|g: GuardKind| !self.refuses(g) by {
                    match g {
                        GuardKind::MemoryCeiling => {},
                        GuardKind::CpuShare => {},
                        GuardKind::SyscallFilter => {},
                        GuardKind::Filesystem => {},
                        GuardKind::Network => {},
                        GuardKind::ProcessIsolation => {},
                    }
                }
            } else {
                assert(self.refuses(GuardKind::MemoryCeiling) || self.refuses(GuardKind::CpuShare)
                    || self.refuses(GuardKind::SyscallFilter) || self.refuses(
                    GuardKind::Filesystem,
                ));
            }
        }
        ok
    }

    /// A copy of the policy.
    pub fn duplicate(&self) -> (c: SandboxConfig)
        ensures
            c.same_policy(self),
    {
        let paths = copy_strings(&self.allowed_paths);
        SandboxConfig {
            memory_limit: self.memory_limit,
            cpu_limit: self.cpu_limit,
            enable_seccomp: self.enable_seccomp,
            seccomp_profile: match &self.seccomp_profile {
                Some(p) => Some(p.clone()),
                None => None,
            },
            allow_network: self.allow_network,
            allow_filesystem: self.allow_filesystem,
            allowed_paths: paths,
            enable_process_isolation: self.enable_process_isolation,
        }
    }

    /// Two policies that say the same.
    pub open spec fn same_policy(&self, other: &SandboxConfig) -> bool {
        &&& self.memory_limit == other.memory_limit
        &&& self.cpu_limit == other.cpu_limit
        &&& self.enable_seccomp == other.enable_seccomp
        &&& self.seccomp_profile == other.seccomp_profile
        &&& self.allow_network == other.allow_network
        &&& self.allow_filesystem == other.allow_filesystem
        &&& self.allowed_paths.deep_view() == other.allowed_paths.deep_view()
        &&& self.enable_process_isolation == other.enable_process_isolation
    }
}

impl Default for SandboxConfig {
    /// The policy of an execution that asks for nothing else: 128 MiB of
    /// memory, the whole processor, filtered syscalls, no network, the
    /// filesystem below `/tmp`, and process isolation.
    fn default() -> (c: Self)
        ensures
            c.memory_limit == Some(DEFAULT_MEMORY_LIMIT),
            c.cpu_limit == Some(MAX_CPU_PERCENT),
            c.enable_seccomp,
            c.seccomp_profile is None,
            !c.allow_network,
            c.allow_filesystem,
            c.allowed_paths@.len() == 1,
            c.allowed_paths@[0]@ == "/tmp"@,
            c.enable_process_isolation,
            c.well_formed(),
    {
        let c = SandboxConfig {
            memory_limit: Some(DEFAULT_MEMORY_LIMIT),
            cpu_limit: Some(MAX_CPU_PERCENT),
            enable_seccomp: true,
            seccomp_profile: None,
            allow_network: false,
            allow_filesystem: true,
            allowed_paths: vec!["/tmp".to_owned()],
            enable_process_isolation: true,
        };
        assert forall|g: GuardKind| !c.refuses(g) by {
            match g {
                GuardKind::MemoryCeiling => {},
                GuardKind::CpuShare => {},
                GuardKind::SyscallFilter => {},
                GuardKind::Filesystem => {},
                GuardKind::Network => {},
                GuardKind::ProcessIsolation => {},
            }
        }
        c
    }
}

} // verus!
