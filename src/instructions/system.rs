//! System instructions: cache control. Caches are not modelled, so these
//! operations change nothing; all but prefetch are supervisor only, and outside
//! supervisor mode they set the privilege violation bit and nothing else.
pub use crate::cpu::PrivilegeLevel;
use crate::cpu::CPU;
use crate::instructions::Instruction;
use crate::memory::Memory;
use vstd::prelude::*;

verus! {

/// Cache operation selector.
#[derive(Debug, PartialEq, Eq, Clone, Copy, Structural)]
pub enum CacheOperation {
    Invalidate,
    Flush,
    LoadLock,
    StoreLock,
    Prefetch,
    ClearLock,
}

/// State after a supervisor-only operation that has no effect of its own:
/// unchanged in supervisor mode, otherwise only the privilege violation bit set.
pub open spec fn gated_noop(c: CPU) -> CPU {
    if c.privilege_level == PrivilegeLevel::Supervisor {
        c
    } else {
        c.with_cr0(c.cr0 | CPU::CR0_PRIVILEGE_VIOLATION)
    }
}

/// Instruction cache control (supervisor only).
#[derive(Debug)]
pub struct ICache {
    pub operation: CacheOperation,
}

impl Instruction for ICache {
    fn execute(&self, cpu: &mut CPU, memory: &mut Memory)
        ensures
            *final(cpu) == gated_noop(*old(cpu)),
            final(memory)@ == old(memory)@,
    {
        if cpu.get_privilege_level() != PrivilegeLevel::Supervisor {
            cpu.set_privilege_violation();
        }
    }
}

/// Data cache control (supervisor only).
#[derive(Debug)]
pub struct DCache {
    pub operation: CacheOperation,
}

impl Instruction for DCache {
    fn execute(&self, cpu: &mut CPU, memory: &mut Memory)
        ensures
            *final(cpu) == gated_noop(*old(cpu)),
            final(memory)@ == old(memory)@,
    {
        if cpu.get_privilege_level() != PrivilegeLevel::Supervisor {
            cpu.set_privilege_violation();
        }
    }
}

impl ICache {
    pub fn new(operation: CacheOperation) -> (r: Self)
        ensures
            r.operation == operation,
    {
        ICache { operation }
    }
}

impl DCache {
    pub fn new(operation: CacheOperation) -> (r: Self)
        ensures
            r.operation == operation,
    {
        DCache { operation }
    }
}

/// Flush both caches (supervisor only).
#[derive(Debug)]
pub struct FlushCache;

impl Instruction for FlushCache {
    fn execute(&self, cpu: &mut CPU, memory: &mut Memory)
        ensures
            *final(cpu) == gated_noop(*old(cpu)),
            final(memory)@ == old(memory)@,
    {
        if cpu.get_privilege_level() != PrivilegeLevel::Supervisor {
            cpu.set_privilege_violation();
        }
    }
}

/// Invalidate cache entries (supervisor only).
#[derive(Debug)]
pub struct CacheInvalidate;

impl Instruction for CacheInvalidate {
    fn execute(&self, cpu: &mut CPU, memory: &mut Memory)
        ensures
            *final(cpu) == gated_noop(*old(cpu)),
            final(memory)@ == old(memory)@,
    {
        if cpu.get_privilege_level() != PrivilegeLevel::Supervisor {
            cpu.set_privilege_violation();
        }
    }
}

/// Flush cache entries (supervisor only).
#[derive(Debug)]
pub struct CacheFlush;

impl Instruction for CacheFlush {
    fn execute(&self, cpu: &mut CPU, memory: &mut Memory)
        ensures
            *final(cpu) == gated_noop(*old(cpu)),
            final(memory)@ == old(memory)@,
    {
        if cpu.get_privilege_level() != PrivilegeLevel::Supervisor {
            cpu.set_privilege_violation();
        }
    }
}

/// Prefetch into the cache: allowed at any privilege level, changes nothing.
#[derive(Debug)]
pub struct CachePrefetch;

impl Instruction for CachePrefetch {
    fn execute(&self, cpu: &mut CPU, memory: &mut Memory)
        ensures
            *final(cpu) == *old(cpu),
            final(memory)@ == old(memory)@,
    {
    }
}

} // verus!
