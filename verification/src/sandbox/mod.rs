//! The sandbox: a policy, and the guards that put it in force.
//!
//! Guards are applied in one fixed order and released in the reverse order.
//! A sandbox is in force as a whole or not at all: when a guard refuses to
//! apply, the guards applied before it are released before the failure is
//! reported.
//!
//! A guard refuses where the policy gives it nothing it can enforce: a
//! memory ceiling of zero, more than the whole processor, a filter profile
//! without a name, permitted paths beside a closed filesystem. What is in
//! force is handed to the backend as [`Restrictions`], and the backend runs
//! the module under them.

pub mod config;
pub mod guard;

pub use config::SandboxConfig;

use crate::error::WasmRunnerError;
use crate::text::copy_strings;
use guard::{GuardKind, GUARD_KINDS};
use vstd::prelude::*;

verus! {

/// One entry of a sandbox's journal.
#[derive(Debug, Clone, Copy, PartialEq, Eq, Structural)]
pub enum GuardOp {
    Applied(GuardKind),
    Released(GuardKind),
}

/// What a sandbox is at one moment: the guards in force, oldest first, and
/// everything it has done so far.
pub struct SandboxState {
    pub live: Seq<GuardKind>,
    pub journal: Seq<GuardOp>,
}

/// The restrictions that an execution runs under.
#[derive(Debug, Clone, PartialEq, Eq)]
pub struct Restrictions {
    /// The most memory the module may hold, in bytes.
    pub memory_ceiling: Option<u64>,
    /// The share of the processor the module may use, in percent.
    pub cpu_share: Option<u32>,
    /// Whether calls to the host are filtered.
    pub syscall_filter: bool,
    /// Whether the filesystem is gated to `permitted_paths`.
    pub filesystem_gated: bool,
    /// The path prefixes that can be reached while the filesystem is gated.
    pub permitted_paths: Vec<String>,
    /// Whether the network is closed.
    pub network_denied: bool,
    /// Whether the module runs apart from the caller's own privileges.
    pub process_isolated: bool,
}

/// The path that governs the filesystem where access is allowed and no
/// prefix is named: the working directory.
pub open spec fn working_directory() -> Seq<char> {
    "."@
}

/// The path prefixes that a policy lets an execution reach.
pub open spec fn reachable_paths(config: &SandboxConfig) -> Seq<Seq<char>> {
    if !config.allow_filesystem {
        Seq::empty()
    } else if config.allowed_paths@.len() == 0 {
        seq![working_directory()]
    } else {
        config.allowed_paths.deep_view()
    }
}

impl Restrictions {
    /// Nothing is restricted.
    pub open spec fn is_none(&self) -> bool {
        &&& self.memory_ceiling is None
        &&& self.cpu_share is None
        &&& !self.syscall_filter
        &&& !self.filesystem_gated
        &&& self.permitted_paths@.len() == 0
        &&& !self.network_denied
        &&& !self.process_isolated
    }

    /// Nothing of the host can be reached: calls to the host are filtered,
    /// no path is permitted and the network is closed.
    pub open spec fn is_closed(&self) -> bool {
        &&& self.memory_ceiling is None
        &&& self.cpu_share is None
        &&& self.syscall_filter
        &&& self.filesystem_gated
        &&& self.permitted_paths@.len() == 0
        &&& self.network_denied
        &&& !self.process_isolated
    }

    /// The restrictions are those of the policy, all of them in force.
    pub open spec fn enforces(&self, config: &SandboxConfig) -> bool {
        &&& self.memory_ceiling == config.memory_limit
        &&& self.cpu_share == config.cpu_limit
        &&& self.syscall_filter == config.enable_seccomp
        &&& self.filesystem_gated
        &&& self.permitted_paths.deep_view() == reachable_paths(config)
        &&& self.network_denied == !config.allow_network
        &&& self.process_isolated == config.enable_process_isolation
    }

    /// The restrictions of an execution that was told nothing: it reaches
    /// nothing of the host.
    pub fn closed() -> (r: Restrictions)
        ensures
            r.is_closed(),
    {
        Restrictions {
            memory_ceiling: None,
            cpu_share: None,
            syscall_filter: true,
            filesystem_gated: true,
            permitted_paths: Vec::new(),
            network_denied: true,
            process_isolated: false,
        }
    }

    /// The restrictions of an execution outside any sandbox.
    pub fn none() -> (r: Restrictions)
        ensures
            r.is_none(),
    {
        Restrictions {
            memory_ceiling: None,
            cpu_share: None,
            syscall_filter: false,
            filesystem_gated: false,
            permitted_paths: Vec::new(),
            network_denied: false,
            process_isolated: false,
        }
    }
}

/// Applies the guards of a policy and releases them again.
pub struct Sandbox {
    config: SandboxConfig,
    live: Vec<GuardKind>,
    journal: Vec<GuardOp>,
}

/// The guards that the policy asks for among the first `n` kinds, in the
/// order of application.
pub open spec fn plan_upto(config: &SandboxConfig, n: int) -> Seq<GuardKind>
    decreases n,
{
    if n <= 0 {
        Seq::empty()
    } else if config.wants(GuardKind::spec_at(n - 1)) {
        plan_upto(config, n - 1).push(GuardKind::spec_at(n - 1))
    } else {
        plan_upto(config, n - 1)
    }
}

/// The guards that the policy asks for, in the order of application.
pub open spec fn plan(config: &SandboxConfig) -> Seq<GuardKind> {
    plan_upto(config, GUARD_KINDS as int)
}

/// The rank of the first guard among the first `n` kinds that the policy
/// asks for and that cannot be applied.
pub open spec fn refusal_upto(config: &SandboxConfig, n: int) -> Option<int>
    decreases n,
{
    if n <= 0 {
        None
    } else {
        match refusal_upto(config, n - 1) {
            Some(k) => Some(k),
            None => if config.refuses(GuardKind::spec_at(n - 1)) {
                Some(n - 1)
            } else {
                None
            },
        }
    }
}

/// The rank of the first guard that refuses to apply, if any does.
pub open spec fn refusal(config: &SandboxConfig) -> Option<int> {
    refusal_upto(config, GUARD_KINDS as int)
}

/// Why a guard of the kind refuses to apply.
pub open spec fn refusal_cause(g: GuardKind) -> Seq<char> {
    match g {
        GuardKind::MemoryCeiling => "the memory ceiling is zero"@,
        GuardKind::CpuShare => "the cpu share is above 100 percent"@,
        GuardKind::SyscallFilter => "the filter profile has no name"@,
        GuardKind::Filesystem => "paths are permitted while access is denied"@,
        GuardKind::Network => "the network guard cannot be applied"@,
        GuardKind::ProcessIsolation => "the isolation guard cannot be applied"@,
    }
}

/// The journal entries of applying `guards` one after the other.
pub open spec fn applied_ops(guards: Seq<GuardKind>) -> Seq<GuardOp> {
    Seq::new(guards.len(), |i: int| GuardOp::Applied(guards[i]))
}

/// The journal entries of releasing `guards`, the last one first.
pub open spec fn released_ops(guards: Seq<GuardKind>) -> Seq<GuardOp> {
    Seq::new(guards.len(), |i: int| GuardOp::Released(guards[guards.len() - 1 - i]))
}

/// The sandbox after it has entered the policy with success.
pub open spec fn entered(config: &SandboxConfig, s: SandboxState) -> SandboxState {
    SandboxState { live: plan(config), journal: s.journal + applied_ops(plan(config)) }
}

/// The sandbox after the guard of rank `k` refused: the guards before it
/// were applied and then released, the last one first.
pub open spec fn unwound(config: &SandboxConfig, s: SandboxState, k: int) -> SandboxState {
    SandboxState {
        live: Seq::empty(),
        journal: s.journal + applied_ops(plan_upto(config, k)) + released_ops(
            plan_upto(config, k),
        ),
    }
}

/// The sandbox after it has released what was in force.
pub open spec fn left(s: SandboxState) -> SandboxState {
    SandboxState { live: Seq::empty(), journal: s.journal + released_ops(s.live) }
}

/// Why a guard of the kind refuses to apply.
pub fn refusal_text(g: GuardKind) -> (s: String)
    ensures
        s@ == refusal_cause(g),
{
    match g {
        GuardKind::MemoryCeiling => "the memory ceiling is zero".to_owned(),
        GuardKind::CpuShare => "the cpu share is above 100 percent".to_owned(),
        GuardKind::SyscallFilter => "the filter profile has no name".to_owned(),
        GuardKind::Filesystem => "paths are permitted while access is denied".to_owned(),
        GuardKind::Network => "the network guard cannot be applied".to_owned(),
        GuardKind::ProcessIsolation => "the isolation guard cannot be applied".to_owned(),
    }
}

/// Once a guard has refused, the guards after it do not change which one
/// refused first.
pub proof fn lemma_refusal_stays(config: &SandboxConfig, k: int, n: int)
    requires
        0 <= k < n,
        refusal_upto(config, k) is None,
        config.refuses(GuardKind::spec_at(k)),
    ensures
        refusal_upto(config, n) == Some(k),
    decreases n,
{
    if n > k + 1 {
        lemma_refusal_stays(config, k, n - 1);
    }
}

impl View for Sandbox {
    type V = SandboxState;

    closed spec fn view(&self) -> SandboxState {
        SandboxState { live: self.live@, journal: self.journal@ }
    }
}

impl Sandbox {
    /// The policy that the sandbox was made with.
    pub closed spec fn policy(&self) -> &SandboxConfig {
        &self.config
    }

    /// The invariant of a sandbox: nothing is in force, or the whole plan is.
    pub open spec fn well_formed(&self) -> bool {
        self@.live.len() == 0 || self@.live == plan(self.policy())
    }

    /// Whether the restrictions are in force.
    pub open spec fn active(&self) -> bool {
        self@.live.len() > 0
    }

    /// A sandbox for the policy. Nothing is applied yet.
    pub fn new(config: SandboxConfig) -> (s: Self)
        ensures
            *s.policy() == config,
            s@.live.len() == 0,
            s@.journal.len() == 0,
            s.well_formed(),
            !s.active(),
    {
        Sandbox { config, live: Vec::new(), journal: Vec::new() }
    }

    /// Releases every guard in force, the last applied first.
    fn release_all(&mut self)
        ensures
            final(self).policy() == old(self).policy(),
            final(self)@ == left(old(self)@),
    {
        while self.live.len() > 0
            invariant
                self.config == old(self).config,
                self.journal@ + released_ops(self.live@) == old(self).journal@ + released_ops(
                    old(self).live@,
                ),
            decreases self.live.len(),
        {
            let ghost before = self.live@;
            let ghost log = self.journal@;
            let g = self.live.pop().unwrap();
            self.journal.push(GuardOp::Released(g));
            assert(self.journal@ + released_ops(self.live@) =~= log + released_ops(before));
        }
        assert(released_ops(self.live@) =~= Seq::empty());
        assert(self.journal@ =~= self.journal@ + released_ops(self.live@));
        assert(self.live@ =~= Seq::empty());
    }

    /// Enters the policy: applies its guards in the fixed order, memory
    /// ceiling first and process isolation last.
    ///
    /// When a guard refuses, the guards applied before it are released, the
    /// last one first, and the failure names the guard that refused. On a
    /// sandbox that is already in force this does nothing.
    pub fn apply_restrictions(&mut self) -> (r: Result<(), WasmRunnerError>)
        requires
            old(self).well_formed(),
        ensures
            final(self).well_formed(),
            final(self).policy() == old(self).policy(),
            old(self).active() ==> r is Ok && final(self)@ == old(self)@,
            !old(self).active() ==> match refusal(old(self).policy()) {
                None => r is Ok && final(self)@ == entered(old(self).policy(), old(self)@),
                Some(k) => {
                    &&& r matches Err(WasmRunnerError::SandboxSetup(g, cause))
                    &&& g == GuardKind::spec_at(k)
                    &&& cause@ == refusal_cause(g)
                    &&& final(self)@ == unwound(old(self).policy(), old(self)@, k)
                },
            },
            r is Ok <==> final(self).active(),
            r is Ok <==> old(self).active() || refusal(old(self).policy()) is None,
    {
        if self.live.len() > 0 {
            return Ok(());
        }
        assert(self.live@ =~= Seq::empty());
        let mut i: usize = 0;
        while i < GUARD_KINDS
            invariant
                i <= GUARD_KINDS,
                old(self).live@.len() == 0,
                self.config == old(self).config,
                self.live@ == plan_upto(&self.config, i as int),
                self.journal@ == old(self).journal@ + applied_ops(
                    plan_upto(&self.config, i as int),
                ),
                refusal_upto(&self.config, i as int) is None,
            decreases GUARD_KINDS - i,
        {
            let g = GuardKind::at(i);
            if self.config.has_guard(g) {
                if !self.config.can_apply(g) {
                    let ghost log = self.journal@;
                    self.release_all();
                    proof {
                        lemma_refusal_stays(&self.config, i as int, GUARD_KINDS as int);
                        assert(self@.journal == log + released_ops(
                            plan_upto(&self.config, i as int),
                        ));
                        assert(self@ == unwound(&self.config, old(self)@, i as int));
                    }
                    return Err(WasmRunnerError::SandboxSetup(g, refusal_text(g)));
                }
                let ghost before = self.live@;
                self.live.push(g);
                self.journal.push(GuardOp::Applied(g));
                assert(applied_ops(before.push(g)) =~= applied_ops(before).push(
                    GuardOp::Applied(g),
                ));
                assert(self.journal@ =~= old(self).journal@ + applied_ops(
                    plan_upto(&self.config, i + 1),
                ));
            }
            i += 1;
        }
        proof {
            lemma_plan_holds_filesystem(&self.config);
        }
        Ok(())
    }

    /// Leaves the sandbox: releases the guards in force, the last applied
    /// first. Where nothing is in force this does nothing; it never fails.
    pub fn cleanup(&mut self) -> (r: Result<(), WasmRunnerError>)
        ensures
            r is Ok,
            final(self).policy() == old(self).policy(),
            final(self)@ == left(old(self)@),
            final(self).well_formed(),
            !final(self).active(),
    {
        self.release_all();
        Ok(())
    }

    /// Tells whether the restrictions are in force.
    pub fn is_active(&self) -> (b: bool)
        ensures
            b == self.active(),
    {
        self.live.len() > 0
    }

    /// Tells whether the sandbox keeps its invariant.
    pub fn is_well_formed(&self) -> (b: bool)
        ensures
            b == self.well_formed(),
    {
        if self.live.len() == 0 {
            return true;
        }
        let mut expected: Vec<GuardKind> = Vec::new();
        let mut i: usize = 0;
        while i < GUARD_KINDS
            invariant
                i <= GUARD_KINDS,
                expected@ == plan_upto(&self.config, i as int),
            decreases GUARD_KINDS - i,
        {
            let g = GuardKind::at(i);
            if self.config.has_guard(g) {
                expected.push(g);
            }
            i += 1;
        }
        if expected.len() != self.live.len() {
            return false;
        }
        let mut j: usize = 0;
        while j < expected.len()
            invariant
                j <= expected.len(),
                expected@.len() == self.live@.len(),
                expected@ == plan(&self.config),
                self.live@.len() > 0,
                forall|k: int| 0 <= k < j ==> expected@[k] == self.live@[k],
            decreases expected.len() - j,
        {
            if expected[j].rank() != self.live[j].rank() {
                proof {
                    assert(expected@[j as int] != self.live@[j as int]);
                }
                return false;
            }
            proof {
                guard::lemma_rank_round_trip(expected@[j as int]);
                guard::lemma_rank_round_trip(self.live@[j as int]);
            }
            j += 1;
        }
        assert(expected@ =~= self.live@);
        true
    }

    /// The restrictions that an execution inside this sandbox runs under:
    /// those of the policy while the sandbox is in force, none otherwise.
    pub fn restrictions(&self) -> (r: Restrictions)
        ensures
            self.active() ==> r.enforces(self.policy()),
            !self.active() ==> r.is_none(),
    {
        if self.live.len() == 0 {
            return Restrictions::none();
        }
        let mut paths: Vec<String> = Vec::new();
        if self.config.allow_filesystem {
            if self.config.allowed_paths.len() == 0 {
                paths.push(".".to_owned());
                assert(paths.deep_view() =~= reachable_paths(&self.config));
            } else {
                paths = copy_strings(&self.config.allowed_paths);
            }
        } else {
            assert(paths.deep_view() =~= reachable_paths(&self.config));
        }
        Restrictions {
            memory_ceiling: self.config.memory_limit,
            cpu_share: self.config.cpu_limit,
            syscall_filter: self.config.enable_seccomp,
            filesystem_gated: true,
            permitted_paths: paths,
            network_denied: !self.config.allow_network,
            process_isolated: self.config.enable_process_isolation,
        }
    }

    /// The policy that the sandbox was made with.
    pub fn config(&self) -> (c: &SandboxConfig)
        ensures
            c == self.policy(),
    {
        &self.config
    }

    /// The guards in force, in the order in which they were applied.
    pub fn live_guards(&self) -> (guards: Vec<GuardKind>)
        ensures
            guards@ == self@.live,
    {
        let mut guards: Vec<GuardKind> = Vec::new();
        let mut i: usize = 0;
        while i < self.live.len()
            invariant
                i <= self.live.len(),
                guards@ == self.live@.subrange(0, i as int),
            decreases self.live.len() - i,
        {
            guards.push(self.live[i]);
            assert(self.live@.subrange(0, i + 1) =~= self.live@.subrange(0, i as int).push(
                self.live@[i as int],
            ));
            i += 1;
        }
        assert(self.live@.subrange(0, i as int) =~= self.live@);
        guards
    }

    /// Everything the sandbox has done, in the order in which it was done.
    pub fn journal(&self) -> (ops: Vec<GuardOp>)
        ensures
            ops@ == self@.journal,
    {
        let mut ops: Vec<GuardOp> = Vec::new();
        let mut i: usize = 0;
        while i < self.journal.len()
            invariant
                i <= self.journal.len(),
                ops@ == self.journal@.subrange(0, i as int),
            decreases self.journal.len() - i,
        {
            ops.push(self.journal[i]);
            assert(self.journal@.subrange(0, i + 1) =~= self.journal@.subrange(0, i as int).push(
                self.journal@[i as int],
            ));
            i += 1;
        }
        assert(self.journal@.subrange(0, i as int) =~= self.journal@);
        ops
    }
}

/// Every plan holds the filesystem guard, so a sandbox that has entered has
/// a guard in force.
pub proof fn lemma_plan_holds_filesystem(config: &SandboxConfig)
    ensures
        plan(config).len() > 0,
        plan(config).contains(GuardKind::Filesystem),
{
    reveal_with_fuel(plan_upto, 7);
    let front = plan_upto(config, 4);
    assert(front.last() == GuardKind::Filesystem);
    let i = front.len() - 1;
    assert(plan(config)[i] == GuardKind::Filesystem);
}

/// The guards of a plan up to a rank are those that the policy asks for
/// below that rank, and they stand in the order of their ranks.
pub proof fn lemma_plan_upto(config: &SandboxConfig, n: int)
    requires
        0 <= n <= GUARD_KINDS,
    ensures
        forall|i: int|
            0 <= i < plan_upto(config, n).len() ==> config.wants(#[trigger] plan_upto(config, n)[i])
                && plan_upto(config, n)[i].spec_rank() < n,
        forall|i: int, j: int|
            0 <= i < j < plan_upto(config, n).len() ==> plan_upto(config, n)[i].spec_rank()
                < plan_upto(config, n)[j].spec_rank(),
        forall|g: GuardKind|
            config.wants(g) && g.spec_rank() < n ==> plan_upto(config, n).contains(g),
    decreases n,
{
    if n > 0 {
        lemma_plan_upto(config, n - 1);
        let before = plan_upto(config, n - 1);
        let now = plan_upto(config, n);
        let g = GuardKind::spec_at(n - 1);
        assert(g.spec_rank() == n - 1);
        if config.wants(g) {
            assert(now == before.push(g));
            assert(now[before.len() as int] == g);
            assert forall|i: int| 0 <= i < now.len() implies config.wants(#[trigger] now[i])
                && now[i].spec_rank() < n by {
                if i < before.len() {
                    assert(now[i] == before[i]);
                }
            }
            assert forall|i: int, j: int| 0 <= i < j < now.len() implies now[i].spec_rank()
                < now[j].spec_rank() by {
                assert(now[i] == before[i]);
                if j < before.len() {
                    assert(now[j] == before[j]);
                }
            }
        }
        assert forall|h: GuardKind| config.wants(h) && h.spec_rank() < n implies now.contains(
            h,
        ) by {
            if h.spec_rank() < n - 1 {
                assert(before.contains(h));
                let i = choose|i: int| 0 <= i < before.len() && before[i] == h;
                assert(now[i] == h);
            } else {
                guard::lemma_rank_round_trip(h);
                assert(h == g);
                assert(now[before.len() as int] == h);
            }
        }
    }
}

/// The order of application is fixed: a plan holds exactly the guards that
/// the policy asks for, each once, memory ceiling before cpu share before
/// syscall filter before filesystem before network before process isolation.
pub proof fn lemma_plan_is_ordered(config: &SandboxConfig)
    ensures
        forall|g: GuardKind| plan(config).contains(g) <==> config.wants(g),
        forall|i: int, j: int|
            0 <= i < j < plan(config).len() ==> plan(config)[i].spec_rank() < plan(
                config,
            )[j].spec_rank(),
        plan(config).len() <= GUARD_KINDS,
{
    lemma_plan_upto(config, GUARD_KINDS as int);
    let p = plan(config);
    assert forall|g: GuardKind| p.contains(g) <==> config.wants(g) by {
        guard::lemma_rank_round_trip(g);
        if p.contains(g) {
            let i = choose|i: int| 0 <= i < p.len() && p[i] == g;
            assert(config.wants(p[i]));
        }
    }
    if p.len() > GUARD_KINDS {
        assert(p[0].spec_rank() < p[1].spec_rank() < p[2].spec_rank() < p[3].spec_rank()
            < p[4].spec_rank() < p[5].spec_rank() < p[6].spec_rank());
        guard::lemma_rank_round_trip(p[0]);
        guard::lemma_rank_round_trip(p[6]);
    }
}

/// A policy that keeps its invariant is entered without a refusal.
pub proof fn lemma_well_formed_policy_enters(config: &SandboxConfig)
    requires
        config.well_formed(),
    ensures
        refusal(config) is None,
{
    reveal_with_fuel(refusal_upto, 7);
}

/// What a refusal is: the guard at that rank is asked for and cannot be
/// applied, and no guard before it refuses.
pub proof fn lemma_refusal_is_first(config: &SandboxConfig, n: int)
    requires
        0 <= n <= GUARD_KINDS,
    ensures
        match refusal_upto(config, n) {
            Some(k) => {
                &&& 0 <= k < n
                &&& config.refuses(GuardKind::spec_at(k))
                &&& forall|i: int| 0 <= i < k ==> !config.refuses(GuardKind::spec_at(i))
            },
            None => forall|i: int| 0 <= i < n ==> !config.refuses(GuardKind::spec_at(i)),
        },
    decreases n,
{
    if n > 0 {
        lemma_refusal_is_first(config, n - 1);
    }
}

/// No partial sandbox is left behind. When the guard of rank `k` refuses,
/// nothing is in force afterwards, and the journal shows that every guard
/// applied before the refusal was released again, the last applied first:
/// the `i`-th entry from the end releases the guard that the `i`-th entry
/// of the attempt applied.
pub proof fn lemma_failed_entry_is_undone(config: &SandboxConfig, s: SandboxState, k: int)
    ensures
        unwound(config, s, k).live.len() == 0,
        unwound(config, s, k).journal.len() == s.journal.len() + 2 * plan_upto(config, k).len(),
        forall|i: int|
            0 <= i < s.journal.len() ==> unwound(config, s, k).journal[i] == s.journal[i],
        forall|i: int|
            #![trigger plan_upto(config, k)[i]]
            0 <= i < plan_upto(config, k).len() ==> {
                &&& unwound(config, s, k).journal[s.journal.len() + i] == GuardOp::Applied(
                    plan_upto(config, k)[i],
                )
                &&& unwound(config, s, k).journal[unwound(config, s, k).journal.len() - 1 - i]
                    == GuardOp::Released(plan_upto(config, k)[i])
            },
{
}

/// Leaving is idempotent: leaving a sandbox twice leaves it as leaving it
/// once does, and leaving a sandbox with nothing in force changes nothing.
pub proof fn lemma_leave_is_idempotent(s: SandboxState)
    ensures
        left(left(s)) == left(s),
        left(s).live.len() == 0,
        s.live.len() == 0 ==> left(s) == s,
{
    assert(released_ops(Seq::<GuardKind>::empty()) =~= Seq::empty());
    assert(left(s).journal + released_ops(left(s).live) =~= left(s).journal);
    if s.live.len() == 0 {
        assert(s.live =~= Seq::empty());
        assert(s.journal + released_ops(s.live) =~= s.journal);
    }
}

/// Entering and then leaving releases every guard that was applied, in the
/// reverse order of application.
pub proof fn lemma_leave_reverses_entry(config: &SandboxConfig, s: SandboxState)
    ensures
        left(entered(config, s)).live.len() == 0,
        left(entered(config, s)).journal == s.journal + applied_ops(plan(config)) + released_ops(
            plan(config),
        ),
        forall|i: int|
            #![trigger plan(config)[i]]
            0 <= i < plan(config).len() ==> released_ops(plan(config))[plan(config).len() - 1 - i]
                == GuardOp::Released(plan(config)[i]),
{
}

} // verus!
