//! The kinds of guard and the order in which they are applied.

use vstd::prelude::*;

verus! {

/// One kind of restriction. The variants stand in the order of application.
#[derive(Debug, Clone, Copy, PartialEq, Eq, Structural)]
pub enum GuardKind {
    MemoryCeiling,
    CpuShare,
    SyscallFilter,
    Filesystem,
    Network,
    ProcessIsolation,
}

/// The number of kinds of guard.
pub const GUARD_KINDS: usize = 6;

impl GuardKind {
    /// The place of the kind in the order of application, from 0.
    pub open spec fn spec_rank(self) -> int {
        match self {
            GuardKind::MemoryCeiling => 0,
            GuardKind::CpuShare => 1,
            GuardKind::SyscallFilter => 2,
            GuardKind::Filesystem => 3,
            GuardKind::Network => 4,
            GuardKind::ProcessIsolation => 5,
        }
    }

    /// The kind that stands at `rank` in the order of application.
    pub open spec fn spec_at(rank: int) -> GuardKind {
        if rank <= 0 {
            GuardKind::MemoryCeiling
        } else if rank == 1 {
            GuardKind::CpuShare
        } else if rank == 2 {
            GuardKind::SyscallFilter
        } else if rank == 3 {
            GuardKind::Filesystem
        } else if rank == 4 {
            GuardKind::Network
        } else {
            GuardKind::ProcessIsolation
        }
    }

    pub open spec fn spec_label(self) -> Seq<char> {
        match self {
            GuardKind::MemoryCeiling => "memory ceiling"@,
            GuardKind::CpuShare => "cpu share"@,
            GuardKind::SyscallFilter => "syscall filter"@,
            GuardKind::Filesystem => "filesystem"@,
            GuardKind::Network => "network"@,
            GuardKind::ProcessIsolation => "process isolation"@,
        }
    }

    pub fn rank(&self) -> (r: usize)
        ensures
            r == self.spec_rank(),
            r < GUARD_KINDS,
    {
        match self {
            GuardKind::MemoryCeiling => 0,
            GuardKind::CpuShare => 1,
            GuardKind::SyscallFilter => 2,
            GuardKind::Filesystem => 3,
            GuardKind::Network => 4,
            GuardKind::ProcessIsolation => 5,
        }
    }

    pub fn at(rank: usize) -> (g: GuardKind)
        requires
            rank < GUARD_KINDS,
        ensures
            g == GuardKind::spec_at(rank as int),
            g.spec_rank() == rank,
    {
        if rank == 0 {
            GuardKind::MemoryCeiling
        } else if rank == 1 {
            GuardKind::CpuShare
        } else if rank == 2 {
            GuardKind::SyscallFilter
        } else if rank == 3 {
            GuardKind::Filesystem
        } else if rank == 4 {
            GuardKind::Network
        } else {
            GuardKind::ProcessIsolation
        }
    }

    pub fn label(&self) -> (s: String)
        ensures
            s@ == self.spec_label(),
    {
        match self {
            GuardKind::MemoryCeiling => "memory ceiling".to_owned(),
            GuardKind::CpuShare => "cpu share".to_owned(),
            GuardKind::SyscallFilter => "syscall filter".to_owned(),
            GuardKind::Filesystem => "filesystem".to_owned(),
            GuardKind::Network => "network".to_owned(),
            GuardKind::ProcessIsolation => "process isolation".to_owned(),
        }
    }
}

/// A kind is found again from its rank.
pub proof fn lemma_rank_round_trip(g: GuardKind)
    ensures
        0 <= g.spec_rank() < GUARD_KINDS,
        GuardKind::spec_at(g.spec_rank()) == g,
{
}

} // verus!
