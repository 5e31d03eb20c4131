//! The registry model: two-phase construction for every task group, shared
//! per-class dispatch-table addresses, distinct instance addresses, and the
//! fixed foreign entry points.

use liber_rs::decl::AttrDecl;
use liber_rs::decl::DataDecl;
use liber_rs::decl::DeriveDecl;
use liber_rs::decl::enforce_first_field;
use liber_rs::decl::enforce_repr_c;
use liber_rs::decl::FieldsDecl;
use liber_rs::decl::StructDecl;
use liber_rs::decl::NamedField;
use liber_rs::generate::generated_wrapper_layout;
use liber_rs::generate::inherit_cs_ez_task_impl;
use liber_rs::layout::TypeLayout;
use liber_rs::runtime::Runtime;
use liber_rs::symbols::free_task_entry;
use liber_rs::symbols::register_task_entry;
use liber_rs::symbols::ModuleBase;
use liber_rs::task::group_rank;
use liber_rs::task::CSTaskGroup;

fn foo_type_decl() -> DeriveDecl {
    DeriveDecl {
        ident: "FooType".to_string(),
        attrs: vec![AttrDecl {
            path: "repr".to_string(),
            tokens: "(C)".to_string(),
        }],
        data: DataDecl::Struct(FieldsDecl::Named(vec![
            NamedField {
                name: "task".to_string(),
                ty: "liber_rs::task::CSEzTaskType".to_string(),
            },
            NamedField {
                name: "value".to_string(),
                ty: "u64".to_string(),
            },
        ])),
    }
}

#[test]
fn two_phase_construction_links_proxy_to_owner_for_every_group() {
    let groups = [
        CSTaskGroup::INVALID,
        CSTaskGroup::FrameBegin,
        CSTaskGroup::SteamThread,
        CSTaskGroup::SystemStep,
        CSTaskGroup::GameStep,
        CSTaskGroup::DrawStep,
        CSTaskGroup::FrameEnd,
    ];
    let g = inherit_cs_ez_task_impl(&foo_type_decl()).unwrap();
    let layout = generated_wrapper_layout(&vec![TypeLayout { size: 8, align: 8 }]).unwrap();
    let mut rt = Runtime::new();
    let class = rt.register_class(g, layout).unwrap();
    for group in groups {
        let t = rt.new_task(class, group, vec![5]).unwrap();
        assert_eq!(rt.get_owner(t), rt.tasks[t].addr);
        assert_eq!(rt.proxies[t].data.owner, rt.tasks[t].addr);
        assert_eq!(rt.tasks[t].data.proxy, rt.proxies[t].addr);
        assert_eq!(rt.get_task_group(t), group);
    }
}

#[test]
fn foo_end_to_end_two_instances_one_shared_table() {
    // A declaration named "FooType" with exactly one extra integer field
    // emits a wrapper "Foo", a table type "FooVTable" and a one-argument
    // constructor; two constructions yield two distinct object addresses
    // that reference the identical shared dispatch-table address.
    let g = inherit_cs_ez_task_impl(&foo_type_decl()).unwrap();
    assert_eq!(g.wrapper_name.as_str(), "Foo");
    assert_eq!(g.vtable_name.as_str(), "FooVTable");
    assert_eq!(g.ctor_params.len(), 1);
    let layout = generated_wrapper_layout(&vec![TypeLayout { size: 8, align: 8 }]).unwrap();
    // Pointer + base data + one word-sized field, with no padding.
    assert_eq!(layout.size, 0x20);
    let mut rt = Runtime::new();
    let class = rt.register_class(g, layout).unwrap();
    let table_addr = rt.classes[class].vtable_addr;
    let a = rt.new_task(class, CSTaskGroup::FrameBegin, vec![1]).unwrap();
    let b = rt.new_task(class, CSTaskGroup::FrameBegin, vec![2]).unwrap();
    assert_ne!(rt.tasks[a].addr, rt.tasks[b].addr);
    assert_eq!(rt.tasks[a].vtable_addr, table_addr);
    assert_eq!(rt.tasks[b].vtable_addr, table_addr);
    assert_eq!(rt.tasks[a].extra, vec![1]);
    assert_eq!(rt.tasks[b].extra, vec![2]);
}

#[test]
fn two_classes_get_two_tables() {
    let g1 = inherit_cs_ez_task_impl(&foo_type_decl()).unwrap();
    let mut d2 = foo_type_decl();
    d2.ident = "BarType".to_string();
    let g2 = inherit_cs_ez_task_impl(&d2).unwrap();
    let layout = generated_wrapper_layout(&vec![TypeLayout { size: 8, align: 8 }]).unwrap();
    let mut rt = Runtime::new();
    let c1 = rt.register_class(g1, layout).unwrap();
    let c2 = rt.register_class(g2, layout).unwrap();
    assert_ne!(rt.classes[c1].vtable_addr, rt.classes[c2].vtable_addr);
}

#[test]
fn wrapper_layout_pads_only_to_the_minimum() {
    // One word-sized extra field: no padding at all.
    let l = generated_wrapper_layout(&vec![TypeLayout { size: 8, align: 8 }]).unwrap();
    assert_eq!(l.size, 8 + 16 + 8);
    // A four-byte extra field: four bytes of tail padding and nothing more,
    // forced by the struct's pointer alignment.
    let l = generated_wrapper_layout(&vec![TypeLayout { size: 4, align: 4 }]).unwrap();
    assert_eq!(l.size, 8 + 16 + 4 + 4);
    assert_eq!(l.align, 8);
    // No extra fields: exactly the schedulable-task object.
    let l = generated_wrapper_layout(&vec![]).unwrap();
    assert_eq!(l.size, 0x18);
}

#[test]
fn enforcement_completes_a_bare_declaration() {
    let mut s = StructDecl {
        ident: "MyTask".to_string(),
        attrs: vec![],
        fields: FieldsDecl::Unit,
    };
    assert!(enforce_repr_c(&mut s).is_ok());
    assert_eq!(s.attrs.len(), 1);
    assert_eq!(s.attrs[0].path.as_str(), "repr");
    assert_eq!(s.attrs[0].tokens.as_str(), "(C)");
    enforce_first_field(&mut s);
    match &s.fields {
        FieldsDecl::Unnamed(tys) => assert_eq!(tys[0].as_str(), "liber_rs::task::CSEzTaskType"),
        _ => panic!("expected unnamed fields"),
    }
}

#[test]
fn task_groups_run_in_a_fixed_order() {
    assert_eq!(group_rank(CSTaskGroup::INVALID), 0);
    assert!(group_rank(CSTaskGroup::FrameBegin) < group_rank(CSTaskGroup::SystemStep));
    assert!(group_rank(CSTaskGroup::SystemStep) < group_rank(CSTaskGroup::DrawStep));
    assert!(group_rank(CSTaskGroup::DrawStep) < group_rank(CSTaskGroup::FrameEnd));
}

#[test]
fn module_base_resolves_once() {
    let mut cache = ModuleBase::new();
    assert_eq!(cache.get_or_init(0x1400_0000), 0x1400_0000);
    // A later resolution attempt never replaces the first value.
    assert_eq!(cache.get_or_init(0x7777_0000), 0x1400_0000);
}

#[test]
fn foreign_entry_points_sit_at_fixed_offsets() {
    let base = 0x1400_0000u64;
    assert_eq!(register_task_entry(base), Some(base + 0xE71C70));
    assert_eq!(free_task_entry(base), Some(base + 0xE71D60));
    assert_eq!(register_task_entry(u64::MAX), None);
}
