//! The generator end to end: validation errors, both invocation forms,
//! option parsing and the emitted names, tables and reflection records.

use liber_rs::decl::AttrDecl;
use liber_rs::decl::DataDecl;
use liber_rs::decl::DeclError;
use liber_rs::decl::DeriveDecl;
use liber_rs::decl::FieldsDecl;
use liber_rs::decl::NamedField;
use liber_rs::decl::StructDecl;
use liber_rs::generate::inherit_cs_ez_task_attr_impl;
use liber_rs::generate::inherit_cs_ez_task_impl;
use liber_rs::generate::parse_args;
use liber_rs::slots::SlotBinding;
use liber_rs::slots::SlotKind;
use liber_rs::slots::FREE_TASK_OFFSET;
use liber_rs::slots::REGISTER_TASK_OFFSET;

fn repr_c() -> AttrDecl {
    AttrDecl {
        path: "repr".to_string(),
        tokens: "(C)".to_string(),
    }
}

fn task_field() -> NamedField {
    NamedField {
        name: "task".to_string(),
        ty: "liber_rs::task::CSEzTaskType".to_string(),
    }
}

fn foo_type_decl() -> DeriveDecl {
    DeriveDecl {
        ident: "FooType".to_string(),
        attrs: vec![repr_c()],
        data: DataDecl::Struct(FieldsDecl::Named(vec![
            task_field(),
            NamedField {
                name: "value".to_string(),
                ty: "u64".to_string(),
            },
        ])),
    }
}

#[test]
fn derive_accepts_foo_type() {
    let g = inherit_cs_ez_task_impl(&foo_type_decl()).unwrap();
    assert_eq!(g.decl_name.as_str(), "FooType");
    assert_eq!(g.wrapper_name.as_str(), "Foo");
    assert_eq!(g.vtable_name.as_str(), "FooVTable");
    assert_eq!(g.ctor_params.len(), 1);
    assert_eq!(g.ctor_params[0].name.as_str(), "value");
    assert_eq!(g.ctor_params[0].ty.as_str(), "u64");
    assert_eq!(g.task_field_name.as_deref(), Some("task"));
    assert!(g.destructor_hook.is_none());
}

#[test]
fn reflection_record_names_the_wrapper() {
    let g = inherit_cs_ez_task_impl(&foo_type_decl()).unwrap();
    assert_eq!(g.runtime_class.class_name, vec![0x46u8, 0x6F, 0x6F, 0x00]);
    assert_eq!(
        g.runtime_class.class_name_w,
        vec![0x46u16, 0x6F, 0x6F, 0x00]
    );
}

#[test]
fn generated_table_resolution() {
    let g = inherit_cs_ez_task_impl(&foo_type_decl()).unwrap();
    let v = &g.vtable;
    let base = &v.fd4task_base_vtable.fd4component_base_vtable;
    assert_eq!(base.get_runtime_class.kind, SlotKind::GetRuntimeClass);
    assert_eq!(base.get_runtime_class.binding, SlotBinding::RuntimeClassGetter);
    assert_eq!(base.destructor.binding, SlotBinding::NoOpDestructor);
    assert_eq!(
        v.fd4task_base_vtable.execute.binding,
        SlotBinding::ForwardToEztaskExecute
    );
    assert_eq!(v.eztask_execute.binding, SlotBinding::UserEztaskExecute);
    assert_eq!(
        v.register_task.binding,
        SlotBinding::ForeignEntry(REGISTER_TASK_OFFSET)
    );
    assert_eq!(
        v.free_task.binding,
        SlotBinding::ForeignEntry(FREE_TASK_OFFSET)
    );
}

#[test]
fn table_independent_of_declared_field_order() {
    let mut d1 = foo_type_decl();
    if let DataDecl::Struct(FieldsDecl::Named(fs)) = &mut d1.data {
        fs.push(NamedField {
            name: "alpha".to_string(),
            ty: "u32".to_string(),
        });
    }
    let mut d2 = foo_type_decl();
    if let DataDecl::Struct(FieldsDecl::Named(fs)) = &mut d2.data {
        fs.insert(1, NamedField {
            name: "alpha".to_string(),
            ty: "u32".to_string(),
        });
    }
    let g1 = inherit_cs_ez_task_impl(&d1).unwrap();
    let g2 = inherit_cs_ez_task_impl(&d2).unwrap();
    assert_eq!(g1.vtable, g2.vtable);
}

#[test]
fn rejects_name_without_suffix() {
    let mut d = foo_type_decl();
    d.ident = "Foo".to_string();
    match inherit_cs_ez_task_impl(&d) {
        Err(DeclError::NotTypeSuffix) => {}
        other => panic!("expected a name-suffix rejection, got {:?}", other.is_ok()),
    }
}

#[test]
fn rejects_missing_layout_marker() {
    let mut d = foo_type_decl();
    d.attrs = vec![];
    match inherit_cs_ez_task_impl(&d) {
        Err(DeclError::MissingReprAttr) => {}
        other => panic!("expected a missing-marker rejection, got {:?}", other.is_ok()),
    }
}

#[test]
fn rejects_wrong_layout_marker() {
    let mut d = foo_type_decl();
    d.attrs = vec![AttrDecl {
        path: "repr".to_string(),
        tokens: "(packed)".to_string(),
    }];
    match inherit_cs_ez_task_impl(&d) {
        Err(DeclError::WrongReprAttr(t)) => assert_eq!(t.as_str(), "(packed)"),
        other => panic!("expected a wrong-marker rejection, got {:?}", other.is_ok()),
    }
}

#[test]
fn accepts_lowercase_layout_marker() {
    let mut d = foo_type_decl();
    d.attrs = vec![AttrDecl {
        path: "repr".to_string(),
        tokens: "(c)".to_string(),
    }];
    assert!(inherit_cs_ez_task_impl(&d).is_ok());
}

#[test]
fn rejects_wrong_first_field() {
    let mut d = foo_type_decl();
    d.data = DataDecl::Struct(FieldsDecl::Named(vec![NamedField {
        name: "value".to_string(),
        ty: "u64".to_string(),
    }]));
    match inherit_cs_ez_task_impl(&d) {
        Err(DeclError::WrongFirstField) => {}
        other => panic!("expected a first-field rejection, got {:?}", other.is_ok()),
    }
}

#[test]
fn rejects_unit_declaration() {
    let mut d = foo_type_decl();
    d.data = DataDecl::Struct(FieldsDecl::Unit);
    match inherit_cs_ez_task_impl(&d) {
        Err(DeclError::UnitNotSupported) => {}
        other => panic!("expected a unit rejection, got {:?}", other.is_ok()),
    }
}

#[test]
fn rejects_non_struct() {
    let mut d = foo_type_decl();
    d.data = DataDecl::Enum;
    match inherit_cs_ez_task_impl(&d) {
        Err(DeclError::NotAStruct) => {}
        other => panic!("expected a non-struct rejection, got {:?}", other.is_ok()),
    }
}

#[test]
fn attr_form_appends_suffix_and_inserts_marker_and_field() {
    let item = StructDecl {
        ident: "MyTask".to_string(),
        attrs: vec![],
        fields: FieldsDecl::Named(vec![NamedField {
            name: "count".to_string(),
            ty: "u64".to_string(),
        }]),
    };
    let (decl, g) = inherit_cs_ez_task_attr_impl("", item).unwrap();
    assert_eq!(decl.ident.as_str(), "MyTaskType");
    assert_eq!(decl.attrs.len(), 1);
    assert_eq!(decl.attrs[0].path.as_str(), "repr");
    assert_eq!(decl.attrs[0].tokens.as_str(), "(C)");
    match &decl.fields {
        FieldsDecl::Named(fs) => {
            assert_eq!(fs.len(), 2);
            assert_eq!(fs[0].name.as_str(), "task");
            assert_eq!(fs[0].ty.as_str(), "liber_rs::task::CSEzTaskType");
            assert_eq!(fs[1].name.as_str(), "count");
        }
        _ => panic!("expected named fields"),
    }
    assert_eq!(g.wrapper_name.as_str(), "MyTask");
    assert_eq!(g.vtable_name.as_str(), "MyTaskVTable");
    assert_eq!(g.decl_name.as_str(), "MyTaskType");
    assert_eq!(g.ctor_params.len(), 1);
    assert_eq!(g.ctor_params[0].name.as_str(), "count");
    assert_eq!(g.task_field_name.as_deref(), Some("task"));
}

#[test]
fn attr_form_unit_declaration_gains_the_base_field() {
    let item = StructDecl {
        ident: "Idle".to_string(),
        attrs: vec![repr_c()],
        fields: FieldsDecl::Unit,
    };
    let (decl, g) = inherit_cs_ez_task_attr_impl("", item).unwrap();
    match &decl.fields {
        FieldsDecl::Unnamed(tys) => {
            assert_eq!(tys.len(), 1);
            assert_eq!(tys[0].as_str(), "liber_rs::task::CSEzTaskType");
        }
        _ => panic!("expected unnamed fields"),
    }
    assert_eq!(g.ctor_params.len(), 0);
    assert!(g.task_field_name.is_none());
}

#[test]
fn attr_form_rejects_wrong_marker() {
    let item = StructDecl {
        ident: "MyTask".to_string(),
        attrs: vec![AttrDecl {
            path: "repr".to_string(),
            tokens: "(transparent)".to_string(),
        }],
        fields: FieldsDecl::Unit,
    };
    match inherit_cs_ez_task_attr_impl("", item) {
        Err(DeclError::WrongReprAttr(t)) => assert_eq!(t.as_str(), "(transparent)"),
        other => panic!("expected a wrong-marker rejection, got {:?}", other.is_ok()),
    }
}

#[test]
fn destructor_hook_with_explicit_path() {
    let item = StructDecl {
        ident: "MyTask".to_string(),
        attrs: vec![repr_c()],
        fields: FieldsDecl::Unit,
    };
    let (_, g) = inherit_cs_ez_task_attr_impl("destructor = MyTask::cleanup", item).unwrap();
    assert_eq!(g.destructor_hook.as_deref(), Some("MyTask::cleanup"));
    let base = &g.vtable.fd4task_base_vtable.fd4component_base_vtable;
    assert_eq!(base.destructor.binding, SlotBinding::HookedDestructor);
}

#[test]
fn destructor_hook_defaults_to_method_path() {
    let item = StructDecl {
        ident: "MyTask".to_string(),
        attrs: vec![repr_c()],
        fields: FieldsDecl::Unit,
    };
    let (_, g) = inherit_cs_ez_task_attr_impl("destructor", item).unwrap();
    assert_eq!(g.destructor_hook.as_deref(), Some("MyTask::destructor"));
}

#[test]
fn duplicate_option_is_rejected() {
    let item = StructDecl {
        ident: "MyTask".to_string(),
        attrs: vec![repr_c()],
        fields: FieldsDecl::Unit,
    };
    match inherit_cs_ez_task_attr_impl("destructor = a, destructor = b", item) {
        Err(DeclError::DuplicateOption(k)) => assert_eq!(k.as_str(), "destructor"),
        other => panic!("expected a duplicate-option rejection, got {:?}", other.is_ok()),
    }
}

#[test]
fn first_field_name_check_compares_the_type_suffix() {
    assert!(liber_rs::decl::check_field_name(&task_field(), "CSEzTaskType"));
    assert!(!liber_rs::decl::check_field_name(
        &NamedField {
            name: "value".to_string(),
            ty: "u64".to_string(),
        },
        "CSEzTaskType"
    ));
}

#[test]
fn parse_args_empty_list_has_no_hook() {
    let a = parse_args("", "MyTask").unwrap();
    assert!(a.destructor.is_none());
}

#[test]
fn parse_args_trims_and_takes_value_between_equals() {
    let a = parse_args("  destructor =  my_mod::drop_it  ", "MyTask").unwrap();
    assert_eq!(a.destructor.as_deref(), Some("my_mod::drop_it"));
}

#[test]
fn parse_args_duplicate_of_any_option_errors() {
    match parse_args("retries = 3, retries = 4", "MyTask") {
        Err(DeclError::DuplicateOption(k)) => assert_eq!(k.as_str(), "retries"),
        other => panic!("expected a duplicate-option rejection, got {:?}", other.is_ok()),
    }
}

#[test]
fn parse_args_two_empty_entries_collide() {
    // Splitting " , " yields two entries whose names are both empty, and a
    // repeated name is a repeated name.
    match parse_args(" , ", "MyTask") {
        Err(DeclError::DuplicateOption(k)) => assert_eq!(k.as_str(), ""),
        other => panic!("expected a duplicate-option rejection, got {:?}", other.is_ok()),
    }
}

#[test]
fn parse_args_value_stops_at_the_second_equals() {
    let a = parse_args("destructor = a::b = c", "MyTask").unwrap();
    assert_eq!(a.destructor.as_deref(), Some("a::b"));
}

#[test]
fn error_messages_match_the_diagnostics() {
    assert_eq!(
        DeclError::NotTypeSuffix.message().as_str(),
        "Derive must be used on a type that ends with the word 'Type'"
    );
    assert_eq!(
        DeclError::WrongReprAttr("(packed)".to_string()).message().as_str(),
        "Found `#[repr(packed)]` attribute. Type must have `#[repr(C)]` attribute"
    );
    assert_eq!(
        DeclError::DuplicateOption("destructor".to_string()).message().as_str(),
        "destructor specified twice. Can only be specified once!"
    );
    assert_eq!(
        DeclError::UnitNotSupported.message().as_str(),
        "Unit types are not supported."
    );
    assert_eq!(
        DeclError::NotAStruct.message().as_str(),
        "Only structures are supported for inheriting `CSEzTask`."
    );
    assert_eq!(
        DeclError::MissingReprAttr.message().as_str(),
        "Could not find `repr` attribute. Type must have `#[repr(C)]` attribute"
    );
}
