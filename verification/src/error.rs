//! The failures of an execution, and the phase each one belongs to.

use crate::sandbox::guard::GuardKind;
use vstd::prelude::*;

verus! {

/// Why an invocation ended without an exit code.
#[derive(Debug, Clone, Copy, PartialEq, Eq, Structural)]
pub enum FaultKind {
    /// The module executed an instruction that traps.
    Trap,
    /// A resource guard ended the module.
    ResourceLimit,
    /// The deadline of the invocation passed.
    TimedOut,
    /// The module asked for something that the policy denies.
    PermissionDenied,
    /// The engine could not prepare or carry out the call.
    Host,
}

/// The step of an execution in which a failure arose.
#[derive(Debug, Clone, Copy, PartialEq, Eq, Structural)]
pub enum Phase {
    Validate,
    Load,
    Sandbox,
    Invoke,
}

/// Every way in which an execution can fail.
#[derive(Debug, Clone, PartialEq, Eq)]
pub enum WasmRunnerError {
    /// The bytes are not a well-formed module for the chosen backend.
    Validation(String),
    /// The module needs a capability that the chosen backend lacks.
    UnsupportedFeature(String),
    /// No backend is registered under the name.
    RuntimeNotFound(String),
    /// A guard refused to apply; the sandbox was unwound before this was reported.
    SandboxSetup(GuardKind, String),
    /// The module faulted while it ran.
    ExecutionFault(FaultKind, String),
    /// The execution was stopped on request while it was running.
    Cancellation,
}

/// The exit code that a process reports for an execution that failed.
pub const FAILURE_EXIT_CODE: i32 = 125;

impl FaultKind {
    /// The stable name of the kind in diagnostics.
    pub open spec fn spec_label(self) -> Seq<char> {
        match self {
            FaultKind::Trap => "trap"@,
            FaultKind::ResourceLimit => "resource-limit"@,
            FaultKind::TimedOut => "timed-out"@,
            FaultKind::PermissionDenied => "permission-denied"@,
            FaultKind::Host => "host"@,
        }
    }

    pub fn label(&self) -> (s: String)
        ensures
            s@ == self.spec_label(),
    {
        match self {
            FaultKind::Trap => "trap".to_owned(),
            FaultKind::ResourceLimit => "resource-limit".to_owned(),
            FaultKind::TimedOut => "timed-out".to_owned(),
            FaultKind::PermissionDenied => "permission-denied".to_owned(),
            FaultKind::Host => "host".to_owned(),
        }
    }
}

impl Phase {
    pub open spec fn spec_label(self) -> Seq<char> {
        match self {
            Phase::Validate => "validate"@,
            Phase::Load => "load"@,
            Phase::Sandbox => "sandbox"@,
            Phase::Invoke => "invoke"@,
        }
    }

    pub fn label(&self) -> (s: String)
        ensures
            s@ == self.spec_label(),
    {
        match self {
            Phase::Validate => "validate".to_owned(),
            Phase::Load => "load".to_owned(),
            Phase::Sandbox => "sandbox".to_owned(),
            Phase::Invoke => "invoke".to_owned(),
        }
    }
}

impl WasmRunnerError {
    /// The number that identifies the kind of failure; no two kinds share one.
    pub open spec fn spec_code(&self) -> u8 {
        match self {
            WasmRunnerError::Validation(_) => 1,
            WasmRunnerError::UnsupportedFeature(_) => 2,
            WasmRunnerError::RuntimeNotFound(_) => 3,
            WasmRunnerError::SandboxSetup(_, _) => 4,
            WasmRunnerError::ExecutionFault(_, _) => 5,
            WasmRunnerError::Cancellation => 6,
        }
    }

    pub open spec fn spec_phase(&self) -> Phase {
        match self {
            WasmRunnerError::Validation(_) => Phase::Validate,
            WasmRunnerError::UnsupportedFeature(_) => Phase::Load,
            WasmRunnerError::RuntimeNotFound(_) => Phase::Load,
            WasmRunnerError::SandboxSetup(_, _) => Phase::Sandbox,
            WasmRunnerError::ExecutionFault(_, _) => Phase::Invoke,
            WasmRunnerError::Cancellation => Phase::Invoke,
        }
    }

    /// The name of the kind in diagnostics.
    pub open spec fn spec_kind_name(&self) -> Seq<char> {
        match self {
            WasmRunnerError::Validation(_) => "validation error"@,
            WasmRunnerError::UnsupportedFeature(_) => "unsupported feature"@,
            WasmRunnerError::RuntimeNotFound(_) => "runtime not found"@,
            WasmRunnerError::SandboxSetup(_, _) => "sandbox setup failed"@,
            WasmRunnerError::ExecutionFault(_, _) => "execution fault"@,
            WasmRunnerError::Cancellation => "cancelled"@,
        }
    }

    /// What the failure says beyond its kind: the cause, led by the guard or
    /// the kind of fault where there is one.
    pub open spec fn spec_detail(&self) -> Seq<char> {
        match self {
            WasmRunnerError::Validation(m) => m@,
            WasmRunnerError::UnsupportedFeature(m) => m@,
            WasmRunnerError::RuntimeNotFound(n) => n@,
            WasmRunnerError::SandboxSetup(g, m) => g.spec_label() + ": "@ + m@,
            WasmRunnerError::ExecutionFault(k, m) => k.spec_label() + ": "@ + m@,
            WasmRunnerError::Cancellation => "stopped on request"@,
        }
    }

    /// The whole diagnostic: phase, kind and detail.
    pub open spec fn spec_message(&self) -> Seq<char> {
        self.spec_phase().spec_label() + ": "@ + self.spec_kind_name() + ": "@ + self.spec_detail()
    }

    /// Whether the failure is one that an operator brings about: a stop on
    /// request or a deadline that has passed. Every other failure shows a
    /// defect of the module, of the configuration or of the host.
    pub open spec fn spec_is_expected(&self) -> bool {
        match self {
            WasmRunnerError::Cancellation => true,
            WasmRunnerError::ExecutionFault(kind, _) => *kind == FaultKind::TimedOut,
            _ => false,
        }
    }

    pub fn is_expected(&self) -> (b: bool)
        ensures
            b == self.spec_is_expected(),
    {
        match self {
            WasmRunnerError::Cancellation => true,
            WasmRunnerError::ExecutionFault(kind, _) => match kind {
                FaultKind::TimedOut => true,
                _ => false,
            },
            _ => false,
        }
    }

    pub fn code(&self) -> (c: u8)
        ensures
            c == self.spec_code(),
            1 <= c <= 6,
    {
        match self {
            WasmRunnerError::Validation(_) => 1,
            WasmRunnerError::UnsupportedFeature(_) => 2,
            WasmRunnerError::RuntimeNotFound(_) => 3,
            WasmRunnerError::SandboxSetup(_, _) => 4,
            WasmRunnerError::ExecutionFault(_, _) => 5,
            WasmRunnerError::Cancellation => 6,
        }
    }

    pub fn phase(&self) -> (p: Phase)
        ensures
            p == self.spec_phase(),
    {
        match self {
            WasmRunnerError::Validation(_) => Phase::Validate,
            WasmRunnerError::UnsupportedFeature(_) => Phase::Load,
            WasmRunnerError::RuntimeNotFound(_) => Phase::Load,
            WasmRunnerError::SandboxSetup(_, _) => Phase::Sandbox,
            WasmRunnerError::ExecutionFault(_, _) => Phase::Invoke,
            WasmRunnerError::Cancellation => Phase::Invoke,
        }
    }

    pub fn kind_name(&self) -> (s: String)
        ensures
            s@ == self.spec_kind_name(),
    {
        match self {
            WasmRunnerError::Validation(_) => "validation error".to_owned(),
            WasmRunnerError::UnsupportedFeature(_) => "unsupported feature".to_owned(),
            WasmRunnerError::RuntimeNotFound(_) => "runtime not found".to_owned(),
            WasmRunnerError::SandboxSetup(_, _) => "sandbox setup failed".to_owned(),
            WasmRunnerError::ExecutionFault(_, _) => "execution fault".to_owned(),
            WasmRunnerError::Cancellation => "cancelled".to_owned(),
        }
    }

    pub fn detail(&self) -> (s: String)
        ensures
            s@ == self.spec_detail(),
    {
        match self {
            WasmRunnerError::Validation(m) => m.clone(),
            WasmRunnerError::UnsupportedFeature(m) => m.clone(),
            WasmRunnerError::RuntimeNotFound(n) => n.clone(),
            WasmRunnerError::SandboxSetup(g, m) => {
                let mut s = g.label();
                s.append(": ");
                s.append(m.as_str());
                s
            },
            WasmRunnerError::ExecutionFault(k, m) => {
                let mut s = k.label();
                s.append(": ");
                s.append(m.as_str());
                s
            },
            WasmRunnerError::Cancellation => "stopped on request".to_owned(),
        }
    }

    /// The diagnostic shown to the user. It names the phase that failed, then
    /// the kind of failure, then the cause.
    pub fn message(&self) -> (s: String)
        ensures
            s@ == self.spec_message(),
    {
        let mut s = self.phase().label();
        s.append(": ");
        s.append(self.kind_name().as_str());
        s.append(": ");
        s.append(self.detail().as_str());
        s
    }

    /// A copy of the failure.
    pub fn duplicate(&self) -> (e: WasmRunnerError)
        ensures
            e == *self,
    {
        match self {
            WasmRunnerError::Validation(m) => WasmRunnerError::Validation(m.clone()),
            WasmRunnerError::UnsupportedFeature(m) => WasmRunnerError::UnsupportedFeature(
                m.clone(),
            ),
            WasmRunnerError::RuntimeNotFound(n) => WasmRunnerError::RuntimeNotFound(n.clone()),
            WasmRunnerError::SandboxSetup(g, m) => WasmRunnerError::SandboxSetup(*g, m.clone()),
            WasmRunnerError::ExecutionFault(k, m) => WasmRunnerError::ExecutionFault(*k, m.clone()),
            WasmRunnerError::Cancellation => WasmRunnerError::Cancellation,
        }
    }
}

/// Failures of different kinds carry different codes, and a code fixes the
/// phase: the code alone tells which phase failed.
pub proof fn lemma_code_identifies_kind(a: WasmRunnerError, b: WasmRunnerError)
    requires
        a.spec_code() == b.spec_code(),
    ensures
        a.spec_phase() == b.spec_phase(),
        a.spec_kind_name() == b.spec_kind_name(),
        (a is Validation) == (b is Validation),
        (a is UnsupportedFeature) == (b is UnsupportedFeature),
        (a is RuntimeNotFound) == (b is RuntimeNotFound),
        (a is SandboxSetup) == (b is SandboxSetup),
        (a is ExecutionFault) == (b is ExecutionFault),
        (a is Cancellation) == (b is Cancellation),
{
}

} // verus!
