//! The foreign time value handed to a task on execution: a one-field
//! foreign object with a single-slot dispatch table. The field itself is a
//! 32-bit foreign floating-point value; it is carried here as its raw bits,
//! since nothing in this crate computes with it.

use vstd::prelude::*;

verus! {

use crate::CppClass;
use crate::VTable;
use crate::layout::TypeLayout;
use crate::layout::spec_pointer_layout;
use crate::layout::spec_struct_size;
use crate::slots::SLOT_SIZE;
use crate::slots::Slot;
use crate::slots::SlotBinding;
use crate::slots::SlotKind;

/// A time object: a dispatch-table reference over the raw time value.
pub type FD4Time = CppClass<FD4TimeType>;

/// Data block of a time object: the raw bits of the foreign 32-bit
/// floating-point time value.
#[derive(Clone, Copy, Debug, PartialEq, Eq, Structural)]
pub struct FD4TimeType {
    pub time: u32,
}

impl Default for FD4TimeType {
    /// A zero time value.
    fn default() -> (r: FD4TimeType)
        ensures
            r.time == 0,
    {
        FD4TimeType { time: 0 }
    }
}

/// The time capability: a destructor slot only.
pub trait FD4TimeTrait {
    /// The behavior this class's destructor slot resolves to.
    spec fn spec_destructor_binding() -> SlotBinding;

    /// Yields the destructor resolution for building dispatch tables.
    fn destructor_binding() -> (b: SlotBinding)
        ensures
            b == Self::spec_destructor_binding(),
    ;
}

/// Dispatch table of a time object: one slot.
#[derive(Clone, Copy, Debug, PartialEq, Eq, Structural)]
pub struct FD4TimeVTable {
    pub destructor: Slot,
}

impl FD4TimeVTable {
    /// The slots in table order.
    pub open spec fn slots(self) -> Seq<Slot> {
        seq![self.destructor]
    }

    /// The time table with the destructor resolved to `d`.
    pub open spec fn spec_for(d: SlotBinding) -> FD4TimeVTable {
        FD4TimeVTable { destructor: Slot { kind: SlotKind::Destructor, binding: d } }
    }

    /// Builds the time table for class `C`, resolving the destructor slot to
    /// that class's capability implementation.
    pub fn new<C: VTable>() -> (r: FD4TimeVTable) where CppClass<C>: FD4TimeTrait
        ensures
            r == FD4TimeVTable::spec_for(<CppClass<C> as FD4TimeTrait>::spec_destructor_binding()),
    {
        FD4TimeVTable {
            destructor: Slot::new(
                SlotKind::Destructor,
                <CppClass<C> as FD4TimeTrait>::destructor_binding(),
            ),
        }
    }
}

impl VTable for FD4TimeType {
    type Table = FD4TimeVTable;

    open spec fn table_spec() -> FD4TimeVTable {
        FD4TimeVTable::spec_for(SlotBinding::NoOpDestructor)
    }

    fn table() -> (t: FD4TimeVTable) {
        FD4TimeVTable { destructor: Slot::new(SlotKind::Destructor, SlotBinding::NoOpDestructor) }
    }
}

impl FD4TimeTrait for FD4Time {
    open spec fn spec_destructor_binding() -> SlotBinding {
        SlotBinding::NoOpDestructor
    }

    fn destructor_binding() -> (b: SlotBinding) {
        SlotBinding::NoOpDestructor
    }
}

/// The time value's data-field layout: one 32-bit value.
pub open spec fn spec_time_data_fields() -> Seq<TypeLayout> {
    seq![TypeLayout { size: 4, align: 4 }]
}

/// The time object's sizes, as the foreign ABI fixes them: a four-byte data
/// block, a sixteen-byte object (pointer plus value, padded to pointer
/// alignment) and a one-slot dispatch table.
pub proof fn lemma_time_layout()
    ensures
        spec_struct_size(spec_time_data_fields()) == 0x4,
        spec_struct_size(seq![spec_pointer_layout(), TypeLayout { size: 4, align: 4 }]) == 0x10,
        FD4TimeVTable::spec_for(SlotBinding::NoOpDestructor).slots().len() * SLOT_SIZE == 0x8,
{
    let p = spec_pointer_layout();
    let t = TypeLayout { size: 4, align: 4 };
    let e = Seq::<TypeLayout>::empty();
    assert(crate::layout::spec_fields_end(e) == 0);
    assert(crate::layout::spec_struct_align(e) == 1);
    crate::layout::lemma_layout_push(e, t);
    assert(spec_time_data_fields() =~= e.push(t));
    assert(crate::layout::spec_align_up(0, 4) == 0);
    assert(crate::layout::spec_align_up(4, 4) == 4);
    crate::layout::lemma_layout_push(e, p);
    crate::layout::lemma_layout_push(e.push(p), t);
    assert(seq![p, t] =~= e.push(p).push(t));
    assert(crate::layout::spec_align_up(0, 8) == 0);
    assert(crate::layout::spec_align_up(8, 4) == 8);
    assert(crate::layout::spec_align_up(12, 8) == 16);
}

} // verus!
