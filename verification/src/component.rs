//! The base capability level. Every foreign-visible class can report its
//! reflection record and be destroyed; the component base is the empty class
//! at the root of the chain that contributes exactly those two slots.

use vstd::prelude::*;

verus! {

use crate::CppClass;
use crate::VTable;
use crate::layout::TypeLayout;
use crate::layout::spec_pointer_layout;
use crate::layout::spec_struct_size;
use crate::reflection::DLRuntimeClass;
use crate::reflection::DLRuntimeClassType;
use crate::slots::SLOT_SIZE;
use crate::slots::Slot;
use crate::slots::SlotBinding;
use crate::slots::SlotKind;

/// A component-base object: a dispatch-table reference over an empty data
/// block.
pub type FD4ComponentBase = CppClass<FD4ComponentBaseType>;

/// Data block of the component base: empty — the level contributes slots,
/// not fields.
#[derive(Clone, Copy, Debug, PartialEq, Eq, Structural)]
pub struct FD4ComponentBaseType;

impl Default for FD4ComponentBaseType {
    /// The component base carries no data to initialize.
    fn default() -> (r: FD4ComponentBaseType)
        ensures
            r == FD4ComponentBaseType,
    {
        FD4ComponentBaseType
    }
}

/// The reflection capability: a class exposes one reflection record, named
/// with the class's own name.
pub trait DLRuntimeClassTrait {
    /// The class's declared name.
    spec fn spec_class_name() -> Seq<char>;

    /// Returns the class's reflection record: a well-formed record whose
    /// narrow and wide strings both encode the class name.
    fn get_runtime_class(&self) -> (r: DLRuntimeClass)
        ensures
            r.wf(),
            r.data.wf_named(Self::spec_class_name()),
    ;
}

/// The component-base capability: the reflection capability plus a
/// destructor slot, which a class may leave at the safe no-op default or
/// override.
pub trait FD4ComponentBaseTrait: DLRuntimeClassTrait {
    /// The behavior this class's destructor slot resolves to.
    spec fn spec_destructor_binding() -> SlotBinding;

    /// Yields the destructor resolution for building dispatch tables.
    fn destructor_binding() -> (b: SlotBinding)
        ensures
            b == Self::spec_destructor_binding(),
    ;
}

/// Dispatch table of the component-base level: the two base slots.
#[derive(Clone, Copy, Debug, PartialEq, Eq, Structural)]
pub struct FD4ComponentBaseVTable {
    pub get_runtime_class: Slot,
    pub destructor: Slot,
}

impl FD4ComponentBaseVTable {
    /// The slots in table order.
    pub open spec fn slots(self) -> Seq<Slot> {
        seq![self.get_runtime_class, self.destructor]
    }

    /// The component-base table with the destructor resolved to `d`.
    pub open spec fn spec_for(d: SlotBinding) -> FD4ComponentBaseVTable {
        FD4ComponentBaseVTable {
            get_runtime_class: Slot {
                kind: SlotKind::GetRuntimeClass,
                binding: SlotBinding::RuntimeClassGetter,
            },
            destructor: Slot { kind: SlotKind::Destructor, binding: d },
        }
    }

    /// Builds the component-base table for class `C`, resolving each slot to
    /// that class's capability implementation.
    pub fn new<C: VTable>() -> (r: FD4ComponentBaseVTable) where
        CppClass<C>: FD4ComponentBaseTrait,

        ensures
            r == FD4ComponentBaseVTable::spec_for(
                <CppClass<C> as FD4ComponentBaseTrait>::spec_destructor_binding(),
            ),
    {
        FD4ComponentBaseVTable {
            get_runtime_class: Slot::new(
                SlotKind::GetRuntimeClass,
                SlotBinding::RuntimeClassGetter,
            ),
            destructor: Slot::new(
                SlotKind::Destructor,
                <CppClass<C> as FD4ComponentBaseTrait>::destructor_binding(),
            ),
        }
    }
}

impl VTable for FD4ComponentBaseType {
    type Table = FD4ComponentBaseVTable;

    open spec fn table_spec() -> FD4ComponentBaseVTable {
        FD4ComponentBaseVTable::spec_for(SlotBinding::NoOpDestructor)
    }

    fn table() -> (t: FD4ComponentBaseVTable) {
        FD4ComponentBaseVTable {
            get_runtime_class: Slot::new(
                SlotKind::GetRuntimeClass,
                SlotBinding::RuntimeClassGetter,
            ),
            destructor: Slot::new(SlotKind::Destructor, SlotBinding::NoOpDestructor),
        }
    }
}

impl DLRuntimeClassTrait for FD4ComponentBase {
    open spec fn spec_class_name() -> Seq<char> {
        "FD4ComponentBase"@
    }

    fn get_runtime_class(&self) -> (r: DLRuntimeClass) {
        proof {
            reveal_strlit("FD4ComponentBase");
        }
        DLRuntimeClass::from_data(DLRuntimeClassType::new("FD4ComponentBase"))
    }
}

impl FD4ComponentBaseTrait for FD4ComponentBase {
    open spec fn spec_destructor_binding() -> SlotBinding {
        SlotBinding::NoOpDestructor
    }

    fn destructor_binding() -> (b: SlotBinding) {
        SlotBinding::NoOpDestructor
    }
}

/// The component base's sizes, as the foreign ABI fixes them: an empty data
/// block, a one-pointer object and a two-slot (sixteen-byte) dispatch table.
pub proof fn lemma_component_layout()
    ensures
        spec_struct_size(Seq::<TypeLayout>::empty()) == 0,
        spec_struct_size(seq![spec_pointer_layout()]) == 0x8,
        FD4ComponentBaseVTable::spec_for(SlotBinding::NoOpDestructor).slots().len() * SLOT_SIZE
            == 0x10,
{
    let p = spec_pointer_layout();
    let e = Seq::<TypeLayout>::empty();
    assert(crate::layout::spec_fields_end(e) == 0);
    assert(crate::layout::spec_struct_align(e) == 1);
    assert(crate::layout::spec_align_up(0, 1) == 0);
    crate::layout::lemma_layout_push(e, p);
    assert(seq![p] =~= e.push(p));
    assert(crate::layout::spec_align_up(0, 8) == 0);
    assert(crate::layout::spec_align_up(8, 8) == 8);
}

} // verus!
