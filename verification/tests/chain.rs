//! The fixed capability chain: dispatch-table resolution at every level,
//! the reflection records, the layout computation and the wrapper type.

use liber_rs::component::DLRuntimeClassTrait;
use liber_rs::component::FD4ComponentBaseType;
use liber_rs::component::FD4ComponentBaseVTable;
use liber_rs::fd4_task::FD4TaskBaseType;
use liber_rs::fd4_task::FD4TaskBaseVTable;
use liber_rs::layout::struct_layout;
use liber_rs::layout::TypeLayout;
use liber_rs::reflection::DLRuntimeClassTrait as ReflectionOps;
use liber_rs::reflection::DLRuntimeClassType;
use liber_rs::reflection::DLRuntimeClassVTable;
use liber_rs::slots::SlotBinding;
use liber_rs::slots::SlotKind;
use liber_rs::slots::FREE_TASK_OFFSET;
use liber_rs::slots::REGISTER_TASK_OFFSET;
use liber_rs::task::CSEzTaskProxyType;
use liber_rs::task::CSEzTaskType;
use liber_rs::time::FD4TimeType;
use liber_rs::time::FD4TimeVTable;
use liber_rs::CppClass;
use liber_rs::VTable;

#[test]
fn component_table_uses_safe_defaults() {
    let t = FD4ComponentBaseVTable::new::<FD4ComponentBaseType>();
    assert_eq!(t.get_runtime_class.kind, SlotKind::GetRuntimeClass);
    assert_eq!(t.get_runtime_class.binding, SlotBinding::RuntimeClassGetter);
    assert_eq!(t.destructor.kind, SlotKind::Destructor);
    assert_eq!(t.destructor.binding, SlotBinding::NoOpDestructor);
}

#[test]
fn task_base_execute_is_a_fatal_placeholder() {
    let t = FD4TaskBaseVTable::new::<FD4TaskBaseType>();
    assert_eq!(t.execute.kind, SlotKind::Execute);
    assert_eq!(t.execute.binding, SlotBinding::FatalPlaceholder);
    assert_eq!(
        t.fd4component_base_vtable,
        FD4ComponentBaseVTable::new::<FD4ComponentBaseType>()
    );
}

#[test]
fn eztask_table_overrides_and_foreign_entries() {
    let t = CSEzTaskType::table();
    let base = &t.fd4task_base_vtable;
    assert_eq!(
        base.fd4component_base_vtable.destructor.binding,
        SlotBinding::FreeTaskDestructor
    );
    assert_eq!(base.execute.binding, SlotBinding::ForwardToEztaskExecute);
    assert_eq!(t.eztask_execute.binding, SlotBinding::NoOpEztaskExecute);
    assert_eq!(
        t.register_task.binding,
        SlotBinding::ForeignEntry(REGISTER_TASK_OFFSET)
    );
    assert_eq!(
        t.free_task.binding,
        SlotBinding::ForeignEntry(FREE_TASK_OFFSET)
    );
}

#[test]
fn proxy_execute_forwards_to_the_owner() {
    let t = CSEzTaskProxyType::table();
    assert_eq!(
        t.fd4task_base_vtable.execute.binding,
        SlotBinding::ForwardToOwnerEztaskExecute
    );
    assert_eq!(
        t.fd4task_base_vtable.fd4component_base_vtable.destructor.binding,
        SlotBinding::NoOpDestructor
    );
}

#[test]
fn reflection_table_resolution() {
    let t = DLRuntimeClassVTable::new::<DLRuntimeClassType>();
    assert_eq!(t.class_name.binding, SlotBinding::NarrowNameGetter);
    assert_eq!(t.class_name_w.binding, SlotBinding::WideNameGetter);
    assert_eq!(t.ref_byte1.binding, SlotBinding::RefByteZero);
    assert_eq!(t.ref_byte4.binding, SlotBinding::RefByteZero);
    assert_eq!(t.unk_always_false.binding, SlotBinding::ConstFalse);
    assert_eq!(t.free_base.binding, SlotBinding::FatalPlaceholder);
    assert_eq!(t.class_size.binding, SlotBinding::RecordSizeGetter);
}

#[test]
fn chain_class_names_round_trip() {
    let component = CppClass::from_data(FD4ComponentBaseType::default());
    let rc = component.get_runtime_class();
    assert_eq!(rc.data.class_name, b"FD4ComponentBase\0".to_vec());
    let task = CppClass::from_data(FD4TaskBaseType::default());
    let rc = task.get_runtime_class();
    assert_eq!(rc.data.class_name, b"FD4TaskBase\0".to_vec());
    let ez = CppClass::from_data(CSEzTaskType::new(0));
    let rc = ez.get_runtime_class();
    assert_eq!(rc.data.class_name, b"CSEzTask\0".to_vec());
    let wide: Vec<u16> = "CSEzTask".encode_utf16().chain([0u16]).collect();
    assert_eq!(rc.data.class_name_w, wide);
}

#[test]
fn reflection_record_operations() {
    let rec = CppClass::from_data(DLRuntimeClassType::new("Foo"));
    assert_eq!(rec.class_name(), &vec![0x46u8, 0x6F, 0x6F, 0x00]);
    assert_eq!(rec.class_name_w(), &vec![0x46u16, 0x6F, 0x6F, 0x00]);
    assert_eq!(rec.ref_byte1(), 0);
    assert_eq!(rec.ref_byte2(), 0);
    assert_eq!(rec.ref_byte3(), 0);
    assert_eq!(rec.ref_byte4(), 0);
    assert!(!rec.unk_always_false());
    assert_eq!(rec.class_size(), 0x18);
}

#[test]
fn wide_name_with_a_supplementary_character() {
    let rec = DLRuntimeClassType::new("A\u{10400}");
    // One basic unit, one surrogate pair, one terminator.
    assert_eq!(rec.class_name_w, vec![0x41u16, 0xD801, 0xDC00, 0x0000]);
}

#[test]
fn wrapper_keeps_the_data_block() {
    let task = CppClass::from_data(CSEzTaskType::new(7));
    assert_eq!(task.get().get_proxy(), 7);
    assert_eq!(task.data.fd4_task_base.unk, 0);
}

#[test]
fn proxy_two_phase_patching() {
    let mut p = CSEzTaskProxyType::new(liber_rs::task::CSTaskGroup::FrameBegin);
    assert_eq!(p.owner(), 0);
    p.set_owner(0x4242);
    assert_eq!(p.owner(), 0x4242);
    let d = CSEzTaskProxyType::default();
    assert_eq!(d.task_group, liber_rs::task::CSTaskGroup::INVALID);
}

#[test]
fn layout_sizes_match_the_foreign_chain() {
    let ptr = TypeLayout { size: 8, align: 8 };
    // Component wrapper: one pointer.
    let l = struct_layout(&vec![ptr]).unwrap();
    assert_eq!(l.size, 0x8);
    // Task-base wrapper: pointer plus eight-byte data block.
    let l = struct_layout(&vec![ptr, TypeLayout { size: 8, align: 8 }]).unwrap();
    assert_eq!(l.size, 0x10);
    // Schedulable-task wrapper: pointer plus sixteen-byte data block.
    let l = struct_layout(&vec![ptr, TypeLayout { size: 16, align: 8 }]).unwrap();
    assert_eq!(l.size, 0x18);
    // Proxy wrapper: pointer plus twenty-four-byte data block.
    let l = struct_layout(&vec![ptr, TypeLayout { size: 24, align: 8 }]).unwrap();
    assert_eq!(l.size, 0x20);
    // Time wrapper: pointer plus a four-byte value, padded to the pointer.
    let l = struct_layout(&vec![ptr, TypeLayout { size: 4, align: 4 }]).unwrap();
    assert_eq!(l.size, 0x10);
    // Execute-data record: time object, group identifier, seed.
    let l = struct_layout(&vec![
        TypeLayout { size: 16, align: 8 },
        TypeLayout { size: 4, align: 4 },
        TypeLayout { size: 4, align: 4 },
    ])
    .unwrap();
    assert_eq!(l.size, 0x18);
}

#[test]
fn every_instance_carries_its_class_table() {
    let a = CppClass::from_data(CSEzTaskType::new(0));
    let b = CppClass::from_data(CSEzTaskType::new(99));
    assert_eq!(a.vtable, CSEzTaskType::table());
    assert_eq!(a.vtable, b.vtable);
}

#[test]
fn execute_data_record_carries_time_group_and_seed() {
    let data = liber_rs::fd4_task::FD4TaskData {
        time: CppClass::from_data(FD4TimeType { time: 0x3F80_0000 }),
        task_group_id: 12,
        seed: -3,
    };
    assert_eq!(data.time.data.time, 0x3F80_0000);
    assert_eq!(data.task_group_id, 12);
    assert_eq!(data.seed, -3);
}

#[test]
fn empty_name_record_is_just_the_terminator() {
    let rec = DLRuntimeClassType::new("");
    assert_eq!(rec.class_name, vec![0u8]);
    assert_eq!(rec.class_name_w, vec![0u16]);
}

#[test]
fn time_table_has_one_slot() {
    let t = FD4TimeVTable::new::<FD4TimeType>();
    assert_eq!(t.destructor.kind, SlotKind::Destructor);
    assert_eq!(t.destructor.binding, SlotBinding::NoOpDestructor);
    assert_eq!(FD4TimeType::default().time, 0);
}
