//! Virtual-dispatch slots. The foreign runtime invokes a class's virtual
//! operations by fixed position in that class's dispatch table, so a slot is
//! modelled as the pair of the operation it stands for (`SlotKind`) and the
//! behavior the generator resolved it to (`SlotBinding`).

use vstd::prelude::*;

verus! {

/// Offset, relative to the foreign module's base address, of the foreign
/// runtime's task-registration entry point.
pub const REGISTER_TASK_OFFSET: u64 = 0xE71C70;

/// Offset, relative to the foreign module's base address, of the foreign
/// runtime's task-release entry point.
pub const FREE_TASK_OFFSET: u64 = 0xE71D60;

/// Size in bytes of one dispatch-table slot (a function pointer on the
/// 64-bit target ABI).
pub const SLOT_SIZE: u64 = 8;

/// The virtual operation a dispatch-table slot stands for, one variant per
/// slot that appears anywhere in the capability-interface chain.
#[derive(Clone, Copy, Debug, PartialEq, Eq, Structural)]
pub enum SlotKind {
    /// Reflection: return the narrow class-name string.
    ClassName,
    /// Reflection: return the wide class-name string.
    ClassNameW,
    /// Reflection: four reserved byte accessors.
    RefByte1,
    RefByte2,
    RefByte3,
    RefByte4,
    /// Reflection: an operation observed to always return false.
    UnkAlwaysFalse,
    /// Reflection: release the record through a foreign allocator.
    FreeBase,
    /// Reflection: return the byte size of the record.
    ClassSize,
    /// Base level: return the class's reflection record.
    GetRuntimeClass,
    /// Base level: tear the object down.
    Destructor,
    /// Task level: run the task once.
    Execute,
    /// Schedulable-task level: the task-specific execute callback.
    EztaskExecute,
    /// Schedulable-task level: register with the foreign scheduler.
    RegisterTask,
    /// Schedulable-task level: release from the foreign scheduler.
    FreeTask,
}

/// The behavior a slot was resolved to when its class's dispatch table was
/// built: a concrete default, an override, or a fixed foreign entry point.
#[derive(Clone, Copy, Debug, PartialEq, Eq, Structural)]
pub enum SlotBinding {
    /// Returns the class's own reflection record.
    RuntimeClassGetter,
    /// The safe default destructor: does nothing.
    NoOpDestructor,
    /// The schedulable-task override: the destructor releases the task.
    FreeTaskDestructor,
    /// A generated override: a user-supplied hook runs first, then the
    /// inherited releasing destructor.
    HookedDestructor,
    /// The task-level default for an operation no implementer supplied:
    /// invoking it aborts the process with a diagnostic.
    FatalPlaceholder,
    /// The schedulable-task default for `Execute`: forwards to the
    /// task-specific execute slot of the same object.
    ForwardToEztaskExecute,
    /// The proxy's `Execute`: forwards to the owning task's task-specific
    /// execute slot through the recorded owner address.
    ForwardToOwnerEztaskExecute,
    /// The schedulable-task base's own task-specific execute: does nothing.
    NoOpEztaskExecute,
    /// A generated class's task-specific execute, supplied by the class
    /// author.
    UserEztaskExecute,
    /// A call into the foreign runtime at the given fixed offset from the
    /// module base address.
    ForeignEntry(u64),
    /// Reflection: returns the record's narrow name string.
    NarrowNameGetter,
    /// Reflection: returns the record's wide name string.
    WideNameGetter,
    /// Reflection: returns a reserved zero byte.
    RefByteZero,
    /// Reflection: returns false.
    ConstFalse,
    /// Reflection: returns the record's byte size.
    RecordSizeGetter,
}

/// The slot kinds of the base capability level, in foreign table order.
pub open spec fn spec_component_slot_kinds() -> Seq<SlotKind> {
    seq![SlotKind::GetRuntimeClass, SlotKind::Destructor]
}

/// The slot kinds of the task level: every base slot first, then the one
/// slot the level adds.
pub open spec fn spec_task_slot_kinds() -> Seq<SlotKind> {
    spec_component_slot_kinds().push(SlotKind::Execute)
}

/// The slot kinds of the schedulable-task level: every task-level slot
/// first, then the three slots the level adds.
pub open spec fn spec_eztask_slot_kinds() -> Seq<SlotKind> {
    spec_task_slot_kinds() + seq![
        SlotKind::EztaskExecute,
        SlotKind::RegisterTask,
        SlotKind::FreeTask,
    ]
}

/// One resolved dispatch-table slot.
#[derive(Clone, Copy, Debug, PartialEq, Eq, Structural)]
pub struct Slot {
    pub kind: SlotKind,
    pub binding: SlotBinding,
}

impl Slot {
    /// Builds the slot for `kind` resolved to `binding`.
    pub fn new(kind: SlotKind, binding: SlotBinding) -> (r: Slot)
        ensures
            r.kind == kind,
            r.binding == binding,
    {
        Slot { kind, binding }
    }
}

} // verus!
