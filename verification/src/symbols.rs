//! The process-wide module base address and the fixed foreign entry points
//! computed from it. The base is resolved once — outside this crate, by the
//! platform — and never invalidated or re-resolved; the set-once cell here
//! models that discipline, and the entry-point arithmetic is checked.

use vstd::prelude::*;

verus! {

use crate::slots::FREE_TASK_OFFSET;
use crate::slots::REGISTER_TASK_OFFSET;
use crate::slots::SlotBinding;

/// The cached module base address: empty until first use, then fixed.
pub struct ModuleBase {
    pub base: Option<u64>,
}

impl ModuleBase {
    /// An unresolved cache.
    pub fn new() -> (r: ModuleBase)
        ensures
            r.base is None,
    {
        ModuleBase { base: None }
    }

    /// Hands back the cached base, storing `resolved` on first use: later
    /// calls keep the first value and never re-resolve.
    pub fn get_or_init(&mut self, resolved: u64) -> (r: u64)
        ensures
            old(self).base is None ==> final (self).base == Option::Some(resolved) && r
                == resolved,
            old(self).base is Some ==> *final (self) == *old(self) && r == old(
                self,
            ).base->Some_0,
    {
        match self.base {
            Some(b) => b,
            None => {
                self.base = Some(resolved);
                resolved
            },
        }
    }
}

/// The absolute address a foreign-entry slot calls into: the module base
/// plus the slot's fixed offset, when that fits the address space; a slot
/// bound to anything other than a foreign entry has no such address.
pub fn resolve_foreign_entry(base: u64, binding: SlotBinding) -> (r: Option<u64>)
    ensures
        r is Some <==> (binding matches SlotBinding::ForeignEntry(off) && base + off <= u64::MAX),
        r matches Option::Some(a) ==> (binding matches SlotBinding::ForeignEntry(off) && a == base
            + off),
{
    match binding {
        SlotBinding::ForeignEntry(off) => base.checked_add(off),
        _ => None,
    }
}

/// The registration entry point for a given module base.
pub fn register_task_entry(base: u64) -> (r: Option<u64>)
    ensures
        r is Some <==> base + REGISTER_TASK_OFFSET <= u64::MAX,
        r matches Option::Some(a) ==> a == base + REGISTER_TASK_OFFSET,
{
    base.checked_add(REGISTER_TASK_OFFSET)
}

/// The release entry point for a given module base.
pub fn free_task_entry(base: u64) -> (r: Option<u64>)
    ensures
        r is Some <==> base + FREE_TASK_OFFSET <= u64::MAX,
        r matches Option::Some(a) ==> a == base + FREE_TASK_OFFSET,
{
    base.checked_add(FREE_TASK_OFFSET)
}

} // verus!
