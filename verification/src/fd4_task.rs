//! The task capability level: the base task interface every schedulable
//! object satisfies. It extends the component base with one slot, `Execute`,
//! which has no safe default — a class that does not supply it gets a fatal
//! placeholder that aborts on first invocation.

use vstd::prelude::*;

verus! {

use crate::CppClass;
use crate::VTable;
use crate::component::DLRuntimeClassTrait;
use crate::component::FD4ComponentBaseTrait;
use crate::component::FD4ComponentBaseType;
use crate::component::FD4ComponentBaseVTable;
use crate::layout::TypeLayout;
use crate::layout::spec_pointer_layout;
use crate::layout::spec_struct_size;
use crate::reflection::DLRuntimeClass;
use crate::reflection::DLRuntimeClassType;
use crate::slots::SLOT_SIZE;
use crate::slots::Slot;
use crate::slots::SlotBinding;
use crate::slots::SlotKind;
use crate::time::FD4Time;

/// A base-task object: a dispatch-table reference over the base-task data.
pub type FD4TaskBase = CppClass<FD4TaskBaseType>;

/// Data block of the base task: the (empty) component base first, then one
/// reserved pointer-sized field, null on construction. Pointers are carried
/// as addresses; zero stands for null.
#[derive(Clone, Copy, Debug, PartialEq, Eq, Structural)]
pub struct FD4TaskBaseType {
    pub base: FD4ComponentBaseType,
    pub unk: u64,
}

impl Default for FD4TaskBaseType {
    /// A fresh base-task data block: the reserved field is null.
    fn default() -> (r: FD4TaskBaseType)
        ensures
            r.unk == 0,
    {
        FD4TaskBaseType { base: FD4ComponentBaseType, unk: 0 }
    }
}

/// The task capability: the component-base capability plus an `Execute`
/// slot.
pub trait FD4TaskBaseTrait: FD4ComponentBaseTrait {
    /// The behavior this class's execute slot resolves to.
    spec fn spec_execute_binding() -> SlotBinding;

    /// Yields the execute resolution for building dispatch tables.
    fn execute_binding() -> (b: SlotBinding)
        ensures
            b == Self::spec_execute_binding(),
    ;
}

/// Dispatch table of the task level: the component-base slots first, then
/// `Execute`.
#[derive(Clone, Copy, Debug, PartialEq, Eq, Structural)]
pub struct FD4TaskBaseVTable {
    pub fd4component_base_vtable: FD4ComponentBaseVTable,
    pub execute: Slot,
}

impl FD4TaskBaseVTable {
    /// The slots in table order: every ancestor slot first, own slots after.
    pub open spec fn slots(self) -> Seq<Slot> {
        self.fd4component_base_vtable.slots().push(self.execute)
    }

    /// The task table with the destructor resolved to `d` and the execute
    /// slot to `ex`.
    pub open spec fn spec_for(d: SlotBinding, ex: SlotBinding) -> FD4TaskBaseVTable {
        FD4TaskBaseVTable {
            fd4component_base_vtable: FD4ComponentBaseVTable::spec_for(d),
            execute: Slot { kind: SlotKind::Execute, binding: ex },
        }
    }

    /// Builds the task table for class `C`, resolving each slot to that
    /// class's capability implementation.
    pub fn new<C: VTable>() -> (r: FD4TaskBaseVTable) where CppClass<C>: FD4TaskBaseTrait
        ensures
            r == FD4TaskBaseVTable::spec_for(
                <CppClass<C> as FD4ComponentBaseTrait>::spec_destructor_binding(),
                <CppClass<C> as FD4TaskBaseTrait>::spec_execute_binding(),
            ),
    {
        FD4TaskBaseVTable {
            fd4component_base_vtable: FD4ComponentBaseVTable::new::<C>(),
            execute: Slot::new(
                SlotKind::Execute,
                <CppClass<C> as FD4TaskBaseTrait>::execute_binding(),
            ),
        }
    }
}

impl VTable for FD4TaskBaseType {
    type Table = FD4TaskBaseVTable;

    open spec fn table_spec() -> FD4TaskBaseVTable {
        FD4TaskBaseVTable::spec_for(SlotBinding::NoOpDestructor, SlotBinding::FatalPlaceholder)
    }

    fn table() -> (t: FD4TaskBaseVTable) {
        FD4TaskBaseVTable {
            fd4component_base_vtable: FD4ComponentBaseVTable {
                get_runtime_class: Slot::new(
                    SlotKind::GetRuntimeClass,
                    SlotBinding::RuntimeClassGetter,
                ),
                destructor: Slot::new(SlotKind::Destructor, SlotBinding::NoOpDestructor),
            },
            execute: Slot::new(SlotKind::Execute, SlotBinding::FatalPlaceholder),
        }
    }
}

impl DLRuntimeClassTrait for FD4TaskBase {
    open spec fn spec_class_name() -> Seq<char> {
        "FD4TaskBase"@
    }

    fn get_runtime_class(&self) -> (r: DLRuntimeClass) {
        proof {
            reveal_strlit("FD4TaskBase");
        }
        DLRuntimeClass::from_data(DLRuntimeClassType::new("FD4TaskBase"))
    }
}

impl FD4ComponentBaseTrait for FD4TaskBase {
    open spec fn spec_destructor_binding() -> SlotBinding {
        SlotBinding::NoOpDestructor
    }

    fn destructor_binding() -> (b: SlotBinding) {
        SlotBinding::NoOpDestructor
    }
}

impl FD4TaskBaseTrait for FD4TaskBase {
    open spec fn spec_execute_binding() -> SlotBinding {
        SlotBinding::FatalPlaceholder
    }

    fn execute_binding() -> (b: SlotBinding) {
        SlotBinding::FatalPlaceholder
    }
}

/// The data the foreign scheduler passes to a task's execute slot: the time
/// value, the identifier of the task group being run, and a seed.
pub struct FD4TaskData {
    pub time: FD4Time,
    pub task_group_id: crate::task::cstgi,
    pub seed: i32,
}

/// The base task's data-field layout: the empty component base, then the
/// reserved pointer.
pub open spec fn spec_task_base_data_fields() -> Seq<TypeLayout> {
    seq![TypeLayout { size: 0, align: 1 }, spec_pointer_layout()]
}

/// The execute-data record's field layout: the sixteen-byte time object,
/// the group identifier and the seed.
pub open spec fn spec_task_data_fields() -> Seq<TypeLayout> {
    seq![
        TypeLayout { size: 0x10, align: 8 },
        TypeLayout { size: 4, align: 4 },
        TypeLayout { size: 4, align: 4 },
    ]
}

/// The task level's sizes, as the foreign ABI fixes them: an eight-byte
/// data block, a sixteen-byte object, a three-slot (twenty-four-byte)
/// dispatch table, and a twenty-four-byte execute-data record.
pub proof fn lemma_task_base_layout()
    ensures
        spec_struct_size(spec_task_base_data_fields()) == 0x8,
        spec_struct_size(seq![spec_pointer_layout(), spec_pointer_layout()]) == 0x10,
        FD4TaskBaseVTable::spec_for(
            SlotBinding::NoOpDestructor,
            SlotBinding::FatalPlaceholder,
        ).slots().len() * SLOT_SIZE == 0x18,
        spec_struct_size(spec_task_data_fields()) == 0x18,
{
    let p = spec_pointer_layout();
    let z = TypeLayout { size: 0, align: 1 };
    let e = Seq::<TypeLayout>::empty();
    assert(crate::layout::spec_fields_end(e) == 0);
    assert(crate::layout::spec_struct_align(e) == 1);
    crate::layout::lemma_layout_push(e, z);
    crate::layout::lemma_layout_push(e.push(z), p);
    assert(spec_task_base_data_fields() =~= e.push(z).push(p));
    assert(crate::layout::spec_align_up(0, 1) == 0);
    assert(crate::layout::spec_align_up(0, 8) == 0);
    assert(crate::layout::spec_align_up(8, 8) == 8);
    crate::layout::lemma_layout_push(e, p);
    crate::layout::lemma_layout_push(e.push(p), p);
    assert(seq![p, p] =~= e.push(p).push(p));
    assert(crate::layout::spec_align_up(16, 8) == 16);
    let tw = TypeLayout { size: 0x10, align: 8 };
    let u = TypeLayout { size: 4, align: 4 };
    crate::layout::lemma_layout_push(e, tw);
    crate::layout::lemma_layout_push(e.push(tw), u);
    crate::layout::lemma_layout_push(e.push(tw).push(u), u);
    assert(spec_task_data_fields() =~= e.push(tw).push(u).push(u));
    assert(crate::layout::spec_align_up(16, 4) == 16);
    assert(crate::layout::spec_align_up(20, 4) == 20);
    assert(crate::layout::spec_align_up(24, 8) == 24);
}

} // verus!
