//! The schedulable-task capability level and its proxy. A schedulable task
//! extends the base task with the task-specific execute slot and the two
//! foreign scheduler entry points, and is paired with a proxy object: the
//! address the foreign scheduler stores is the proxy's, and the proxy's
//! execute slot forwards to the owning task through a recorded back-pointer.

use vstd::prelude::*;

verus! {

use crate::CppClass;
use crate::VTable;
use crate::component::DLRuntimeClassTrait;
use crate::component::FD4ComponentBaseTrait;
use crate::fd4_task::FD4TaskBaseTrait;
use crate::fd4_task::FD4TaskBaseType;
use crate::fd4_task::FD4TaskBaseVTable;
use crate::layout::TypeLayout;
use crate::layout::spec_pointer_layout;
use crate::layout::spec_struct_size;
use crate::reflection::DLRuntimeClass;
use crate::reflection::DLRuntimeClassType;
use crate::slots::FREE_TASK_OFFSET;
use crate::slots::REGISTER_TASK_OFFSET;
use crate::slots::SLOT_SIZE;
use crate::slots::Slot;
use crate::slots::SlotBinding;
use crate::slots::SlotKind;

/// The unsigned integer type the foreign runtime uses for task-group
/// identifiers.
#[allow(non_camel_case_types)]
pub type cstgi = u32;

/// The foreign execution phases. The scheduler runs the groups of one pass
/// in a strict, globally fixed order — the order `spec_group_rank` gives —
/// while tasks inside one group run in unspecified relative order.
/// `INVALID` is the explicit sentinel for a task not yet assigned a group.
#[allow(non_camel_case_types)]
#[derive(Clone, Copy, Debug, PartialEq, Eq, Structural)]
pub enum CSTaskGroup {
    INVALID,
    FrameBegin,
    SteamThread,
    SystemStep,
    GameStep,
    DrawStep,
    FrameEnd,
}

/// The position of a group in the fixed per-pass order; the sentinel sorts
/// first.
pub open spec fn spec_group_rank(g: CSTaskGroup) -> u32 {
    match g {
        CSTaskGroup::INVALID => 0,
        CSTaskGroup::FrameBegin => 1,
        CSTaskGroup::SteamThread => 2,
        CSTaskGroup::SystemStep => 3,
        CSTaskGroup::GameStep => 4,
        CSTaskGroup::DrawStep => 5,
        CSTaskGroup::FrameEnd => 6,
    }
}

/// Returns the group's position in the fixed per-pass order.
pub fn group_rank(g: CSTaskGroup) -> (r: u32)
    ensures
        r == spec_group_rank(g),
{
    match g {
        CSTaskGroup::INVALID => 0,
        CSTaskGroup::FrameBegin => 1,
        CSTaskGroup::SteamThread => 2,
        CSTaskGroup::SystemStep => 3,
        CSTaskGroup::GameStep => 4,
        CSTaskGroup::DrawStep => 5,
        CSTaskGroup::FrameEnd => 6,
    }
}

/// A schedulable-task object.
pub type CSEzTask = CppClass<CSEzTaskType>;

/// A proxy object.
pub type CSEzTaskProxy = CppClass<CSEzTaskProxyType>;

/// Data block of a schedulable task: the base-task data, then the address
/// of the task's proxy object (zero for null).
#[derive(Clone, Copy, Debug, PartialEq, Eq, Structural)]
pub struct CSEzTaskType {
    pub fd4_task_base: FD4TaskBaseType,
    pub proxy: u64,
}

impl CSEzTaskType {
    /// A fresh task data block pointing at the proxy at address `proxy`.
    pub fn new(proxy: u64) -> (r: CSEzTaskType)
        ensures
            r.proxy == proxy,
            r.fd4_task_base.unk == 0,
    {
        CSEzTaskType { fd4_task_base: Default::default(), proxy }
    }

    /// The recorded proxy address.
    pub fn get_proxy(&self) -> (r: u64)
        ensures
            r == self.proxy,
    {
        self.proxy
    }

    /// Records a new proxy address.
    pub fn set_proxy(&mut self, proxy: u64)
        ensures
            final (self).proxy == proxy,
            final (self).fd4_task_base == old(self).fd4_task_base,
    {
        self.proxy = proxy;
    }
}

/// The schedulable-task capability: the task capability plus the
/// task-specific execute slot and the two foreign scheduler entry points.
pub trait CSEzTaskTrait: FD4TaskBaseTrait {
    /// The behavior this class's task-specific execute slot resolves to.
    spec fn spec_eztask_execute_binding() -> SlotBinding;

    /// Yields the task-specific execute resolution.
    fn eztask_execute_binding() -> (b: SlotBinding)
        ensures
            b == Self::spec_eztask_execute_binding(),
    ;

    /// The behavior of the registration slot: by default the foreign
    /// runtime's registration entry point at its fixed offset from the
    /// module base.
    open spec fn spec_register_task_binding() -> SlotBinding {
        SlotBinding::ForeignEntry(REGISTER_TASK_OFFSET)
    }

    /// Yields the registration resolution.
    fn register_task_binding() -> (b: SlotBinding)
        ensures
            b == Self::spec_register_task_binding(),
    ;

    /// The behavior of the release slot: by default the foreign runtime's
    /// release entry point at its fixed offset from the module base.
    open spec fn spec_free_task_binding() -> SlotBinding {
        SlotBinding::ForeignEntry(FREE_TASK_OFFSET)
    }

    /// Yields the release resolution.
    fn free_task_binding() -> (b: SlotBinding)
        ensures
            b == Self::spec_free_task_binding(),
    ;
}

/// Dispatch table of the schedulable-task level: the task-level slots
/// first, then the three slots this level adds.
#[derive(Clone, Copy, Debug, PartialEq, Eq, Structural)]
pub struct CSEzTaskVTable {
    pub fd4task_base_vtable: FD4TaskBaseVTable,
    pub eztask_execute: Slot,
    pub register_task: Slot,
    pub free_task: Slot,
}

impl CSEzTaskVTable {
    /// The slots in table order: every ancestor slot first, own slots after.
    pub open spec fn slots(self) -> Seq<Slot> {
        self.fd4task_base_vtable.slots() + seq![
            self.eztask_execute,
            self.register_task,
            self.free_task,
        ]
    }

    /// The schedulable-task table with the five class-determined slots
    /// resolved to the given behaviors.
    pub open spec fn spec_for(
        d: SlotBinding,
        ex: SlotBinding,
        ez: SlotBinding,
        reg: SlotBinding,
        fr: SlotBinding,
    ) -> CSEzTaskVTable {
        CSEzTaskVTable {
            fd4task_base_vtable: FD4TaskBaseVTable::spec_for(d, ex),
            eztask_execute: Slot { kind: SlotKind::EztaskExecute, binding: ez },
            register_task: Slot { kind: SlotKind::RegisterTask, binding: reg },
            free_task: Slot { kind: SlotKind::FreeTask, binding: fr },
        }
    }

    /// Builds the schedulable-task table for class `C`, resolving each slot
    /// to that class's capability implementation.
    pub fn new<C: VTable>() -> (r: CSEzTaskVTable) where CppClass<C>: CSEzTaskTrait
        ensures
            r == CSEzTaskVTable::spec_for(
                <CppClass<C> as FD4ComponentBaseTrait>::spec_destructor_binding(),
                <CppClass<C> as FD4TaskBaseTrait>::spec_execute_binding(),
                <CppClass<C> as CSEzTaskTrait>::spec_eztask_execute_binding(),
                <CppClass<C> as CSEzTaskTrait>::spec_register_task_binding(),
                <CppClass<C> as CSEzTaskTrait>::spec_free_task_binding(),
            ),
    {
        CSEzTaskVTable {
            fd4task_base_vtable: FD4TaskBaseVTable::new::<C>(),
            eztask_execute: Slot::new(
                SlotKind::EztaskExecute,
                <CppClass<C> as CSEzTaskTrait>::eztask_execute_binding(),
            ),
            register_task: Slot::new(
                SlotKind::RegisterTask,
                <CppClass<C> as CSEzTaskTrait>::register_task_binding(),
            ),
            free_task: Slot::new(
                SlotKind::FreeTask,
                <CppClass<C> as CSEzTaskTrait>::free_task_binding(),
            ),
        }
    }
}

/// The one resolution of the schedulable-task base's own table: the
/// destructor releases the task, execute forwards to the task-specific
/// slot, the task-specific slot is a no-op until a subclass supplies one,
/// and the scheduler entry points sit at their fixed offsets.
pub open spec fn spec_eztask_base_table() -> CSEzTaskVTable {
    CSEzTaskVTable::spec_for(
        SlotBinding::FreeTaskDestructor,
        SlotBinding::ForwardToEztaskExecute,
        SlotBinding::NoOpEztaskExecute,
        SlotBinding::ForeignEntry(REGISTER_TASK_OFFSET),
        SlotBinding::ForeignEntry(FREE_TASK_OFFSET),
    )
}

impl VTable for CSEzTaskType {
    type Table = CSEzTaskVTable;

    open spec fn table_spec() -> CSEzTaskVTable {
        spec_eztask_base_table()
    }

    fn table() -> (t: CSEzTaskVTable) {
        CSEzTaskVTable {
            fd4task_base_vtable: FD4TaskBaseVTable {
                fd4component_base_vtable: crate::component::FD4ComponentBaseVTable {
                    get_runtime_class: Slot::new(
                        SlotKind::GetRuntimeClass,
                        SlotBinding::RuntimeClassGetter,
                    ),
                    destructor: Slot::new(SlotKind::Destructor, SlotBinding::FreeTaskDestructor),
                },
                execute: Slot::new(SlotKind::Execute, SlotBinding::ForwardToEztaskExecute),
            },
            eztask_execute: Slot::new(SlotKind::EztaskExecute, SlotBinding::NoOpEztaskExecute),
            register_task: Slot::new(
                SlotKind::RegisterTask,
                SlotBinding::ForeignEntry(REGISTER_TASK_OFFSET),
            ),
            free_task: Slot::new(SlotKind::FreeTask, SlotBinding::ForeignEntry(FREE_TASK_OFFSET)),
        }
    }
}

impl DLRuntimeClassTrait for CSEzTask {
    open spec fn spec_class_name() -> Seq<char> {
        "CSEzTask"@
    }

    fn get_runtime_class(&self) -> (r: DLRuntimeClass) {
        proof {
            reveal_strlit("CSEzTask");
        }
        DLRuntimeClass::from_data(DLRuntimeClassType::new("CSEzTask"))
    }
}

impl FD4ComponentBaseTrait for CSEzTask {
    open spec fn spec_destructor_binding() -> SlotBinding {
        SlotBinding::FreeTaskDestructor
    }

    fn destructor_binding() -> (b: SlotBinding) {
        SlotBinding::FreeTaskDestructor
    }
}

impl FD4TaskBaseTrait for CSEzTask {
    open spec fn spec_execute_binding() -> SlotBinding {
        SlotBinding::ForwardToEztaskExecute
    }

    fn execute_binding() -> (b: SlotBinding) {
        SlotBinding::ForwardToEztaskExecute
    }
}

impl CSEzTaskTrait for CSEzTask {
    open spec fn spec_eztask_execute_binding() -> SlotBinding {
        SlotBinding::NoOpEztaskExecute
    }

    fn eztask_execute_binding() -> (b: SlotBinding) {
        SlotBinding::NoOpEztaskExecute
    }

    fn register_task_binding() -> (b: SlotBinding) {
        SlotBinding::ForeignEntry(REGISTER_TASK_OFFSET)
    }

    fn free_task_binding() -> (b: SlotBinding) {
        SlotBinding::ForeignEntry(FREE_TASK_OFFSET)
    }
}

/// Data block of a proxy: the base-task data, the address of the owning
/// task object (zero until the owner links itself in), and the task group
/// the owner is to run in.
#[derive(Clone, Copy, Debug, PartialEq, Eq, Structural)]
pub struct CSEzTaskProxyType {
    pub fd4_task_base: FD4TaskBaseType,
    pub owner: u64,
    pub task_group: CSTaskGroup,
}

impl CSEzTaskProxyType {
    /// A fresh proxy data block for `task_group`, with a null owner: the
    /// first phase of the two-phase construction.
    pub fn new(task_group: CSTaskGroup) -> (r: CSEzTaskProxyType)
        ensures
            r.owner == 0,
            r.task_group == task_group,
            r.fd4_task_base.unk == 0,
    {
        CSEzTaskProxyType { fd4_task_base: Default::default(), owner: 0, task_group }
    }

    /// The recorded owner address.
    pub fn owner(&self) -> (r: u64)
        ensures
            r == self.owner,
    {
        self.owner
    }

    /// Records the owner's address: the patch phase of the two-phase
    /// construction.
    pub fn set_owner(&mut self, task: u64)
        ensures
            final (self).owner == task,
            final (self).task_group == old(self).task_group,
            final (self).fd4_task_base == old(self).fd4_task_base,
    {
        self.owner = task;
    }
}

impl Default for CSEzTaskProxyType {
    /// A proxy for no group yet: the explicit `INVALID` sentinel.
    fn default() -> (r: CSEzTaskProxyType)
        ensures
            r.owner == 0,
            r.task_group == CSTaskGroup::INVALID,
            r.fd4_task_base.unk == 0,
    {
        CSEzTaskProxyType::new(CSTaskGroup::INVALID)
    }
}

/// Dispatch table of a proxy: exactly the task-level slots.
#[derive(Clone, Copy, Debug, PartialEq, Eq, Structural)]
pub struct CSEzTaskProxyVTable {
    pub fd4task_base_vtable: FD4TaskBaseVTable,
}

impl CSEzTaskProxyVTable {
    /// The slots in table order.
    pub open spec fn slots(self) -> Seq<Slot> {
        self.fd4task_base_vtable.slots()
    }

    /// The proxy table: destructor at the safe default, execute forwarding
    /// to the owner's task-specific execute slot.
    pub open spec fn spec_table() -> CSEzTaskProxyVTable {
        CSEzTaskProxyVTable {
            fd4task_base_vtable: FD4TaskBaseVTable::spec_for(
                SlotBinding::NoOpDestructor,
                SlotBinding::ForwardToOwnerEztaskExecute,
            ),
        }
    }

    /// Builds the proxy table for class `C`.
    pub fn new<C: VTable>() -> (r: CSEzTaskProxyVTable) where CppClass<C>: FD4TaskBaseTrait
        ensures
            r.fd4task_base_vtable == FD4TaskBaseVTable::spec_for(
                <CppClass<C> as FD4ComponentBaseTrait>::spec_destructor_binding(),
                <CppClass<C> as FD4TaskBaseTrait>::spec_execute_binding(),
            ),
    {
        CSEzTaskProxyVTable { fd4task_base_vtable: FD4TaskBaseVTable::new::<C>() }
    }
}

impl VTable for CSEzTaskProxyType {
    type Table = CSEzTaskProxyVTable;

    open spec fn table_spec() -> CSEzTaskProxyVTable {
        CSEzTaskProxyVTable::spec_table()
    }

    fn table() -> (t: CSEzTaskProxyVTable) {
        CSEzTaskProxyVTable {
            fd4task_base_vtable: FD4TaskBaseVTable {
                fd4component_base_vtable: crate::component::FD4ComponentBaseVTable {
                    get_runtime_class: Slot::new(
                        SlotKind::GetRuntimeClass,
                        SlotBinding::RuntimeClassGetter,
                    ),
                    destructor: Slot::new(SlotKind::Destructor, SlotBinding::NoOpDestructor),
                },
                execute: Slot::new(SlotKind::Execute, SlotBinding::ForwardToOwnerEztaskExecute),
            },
        }
    }
}

impl DLRuntimeClassTrait for CSEzTaskProxy {
    open spec fn spec_class_name() -> Seq<char> {
        "CSEzTaskProxy"@
    }

    fn get_runtime_class(&self) -> (r: DLRuntimeClass) {
        proof {
            reveal_strlit("CSEzTaskProxy");
        }
        DLRuntimeClass::from_data(DLRuntimeClassType::new("CSEzTaskProxy"))
    }
}

impl FD4ComponentBaseTrait for CSEzTaskProxy {
    open spec fn spec_destructor_binding() -> SlotBinding {
        SlotBinding::NoOpDestructor
    }

    fn destructor_binding() -> (b: SlotBinding) {
        SlotBinding::NoOpDestructor
    }
}

impl FD4TaskBaseTrait for CSEzTaskProxy {
    open spec fn spec_execute_binding() -> SlotBinding {
        SlotBinding::ForwardToOwnerEztaskExecute
    }

    fn execute_binding() -> (b: SlotBinding) {
        SlotBinding::ForwardToOwnerEztaskExecute
    }
}

impl CSEzTaskProxy {
    /// The task group the proxy was created for.
    pub fn get_task_group(&self) -> (r: CSTaskGroup)
        ensures
            r == self.data.task_group,
    {
        self.data.task_group
    }
}

/// The dispatch table of any class at the schedulable-task level lists
/// every ancestor slot first, in the ancestors' declaration order, and the
/// level's own slots after, whatever behaviors the slots resolve to: the
/// table of a level extends its parent's table and removes nothing.
pub proof fn lemma_chain_slot_order(
    d: SlotBinding,
    ex: SlotBinding,
    ez: SlotBinding,
    reg: SlotBinding,
    fr: SlotBinding,
)
    ensures
        CSEzTaskVTable::spec_for(d, ex, ez, reg, fr).slots() == FD4TaskBaseVTable::spec_for(
            d,
            ex,
        ).slots() + seq![
            Slot { kind: SlotKind::EztaskExecute, binding: ez },
            Slot { kind: SlotKind::RegisterTask, binding: reg },
            Slot { kind: SlotKind::FreeTask, binding: fr },
        ],
        FD4TaskBaseVTable::spec_for(d, ex).slots()
            == crate::component::FD4ComponentBaseVTable::spec_for(d).slots().push(
            Slot { kind: SlotKind::Execute, binding: ex },
        ),
        CSEzTaskVTable::spec_for(d, ex, ez, reg, fr).slots().map_values(|s: Slot| s.kind)
            == crate::slots::spec_eztask_slot_kinds(),
{
    assert(CSEzTaskVTable::spec_for(d, ex, ez, reg, fr).slots().map_values(|s: Slot| s.kind)
        =~= crate::slots::spec_eztask_slot_kinds());
}

/// The schedulable task's data-field layout: the base-task data, then the
/// proxy pointer.
pub open spec fn spec_eztask_data_fields() -> Seq<TypeLayout> {
    seq![TypeLayout { size: 8, align: 8 }, spec_pointer_layout()]
}

/// The proxy's data-field layout: the base-task data, the owner pointer and
/// the task-group tag.
pub open spec fn spec_proxy_data_fields() -> Seq<TypeLayout> {
    seq![
        TypeLayout { size: 8, align: 8 },
        spec_pointer_layout(),
        TypeLayout { size: 4, align: 4 },
    ]
}

/// The schedulable-task level's sizes, as the foreign ABI fixes them: a
/// sixteen-byte task data block, a twenty-four-byte task object, a six-slot
/// (forty-eight-byte) dispatch table, and a thirty-two-byte proxy object
/// over a three-slot table.
pub proof fn lemma_eztask_layout()
    ensures
        spec_struct_size(spec_eztask_data_fields()) == 0x10,
        spec_struct_size(
            seq![spec_pointer_layout(), TypeLayout { size: 0x10, align: 8 }],
        ) == 0x18,
        spec_eztask_base_table().slots().len() * SLOT_SIZE == 0x30,
        spec_struct_size(spec_proxy_data_fields()) == 0x18,
        spec_struct_size(
            seq![spec_pointer_layout(), TypeLayout { size: 0x18, align: 8 }],
        ) == 0x20,
        CSEzTaskProxyVTable::spec_table().slots().len() * SLOT_SIZE == 0x18,
{
    let p = spec_pointer_layout();
    let b = TypeLayout { size: 8, align: 8 };
    let g = TypeLayout { size: 4, align: 4 };
    let e = Seq::<TypeLayout>::empty();
    assert(crate::layout::spec_fields_end(e) == 0);
    assert(crate::layout::spec_struct_align(e) == 1);
    assert(crate::layout::spec_align_up(0, 8) == 0);
    assert(crate::layout::spec_align_up(8, 8) == 8);
    assert(crate::layout::spec_align_up(16, 8) == 16);
    crate::layout::lemma_layout_push(e, b);
    crate::layout::lemma_layout_push(e.push(b), p);
    assert(spec_eztask_data_fields() =~= e.push(b).push(p));
    let tw = TypeLayout { size: 0x10, align: 8 };
    crate::layout::lemma_layout_push(e, p);
    crate::layout::lemma_layout_push(e.push(p), tw);
    assert(seq![p, tw] =~= e.push(p).push(tw));
    assert(crate::layout::spec_align_up(24, 8) == 24);
    crate::layout::lemma_layout_push(e.push(b).push(p), g);
    assert(spec_proxy_data_fields() =~= e.push(b).push(p).push(g));
    assert(crate::layout::spec_align_up(16, 4) == 16);
    assert(crate::layout::spec_align_up(20, 8) == 24);
    let pw = TypeLayout { size: 0x18, align: 8 };
    crate::layout::lemma_layout_push(e.push(p), pw);
    assert(seq![p, pw] =~= e.push(p).push(pw));
    assert(crate::layout::spec_align_up(32, 8) == 32);
}

} // verus!
