//! The code generator: from one accepted class declaration it derives
//! everything a new schedulable-task class needs to plug into the foreign
//! hierarchy — the wrapper and dispatch-table type names, the constructor
//! parameters, the resolved dispatch table and the reflection record. A
//! declaration that fails validation is rejected with a diagnostic and
//! nothing is emitted.

use vstd::prelude::*;

verus! {

use crate::decl::DataDecl;
use crate::decl::DeclError;
use crate::decl::DeriveDecl;
use crate::decl::StructDecl;
use crate::layout::TypeLayout;
use crate::decl::FieldsDecl;
use crate::decl::NamedField;
use crate::decl::Params;
use crate::decl::check_and_get_fields;
use crate::decl::get_params;
use crate::decl::get_structure_name;
use crate::decl::is_repr_c;
use crate::decl::spec_find_repr;
use crate::decl::spec_first_field_ok;
use crate::decl::spec_repr_c_tokens;
use crate::decl::spec_repr_ok;
use crate::reflection::DLRuntimeClassType;
use crate::slots::FREE_TASK_OFFSET;
use crate::slots::REGISTER_TASK_OFFSET;
use crate::slots::Slot;
use crate::slots::SlotBinding;
use crate::slots::SlotKind;
use crate::task::CSEzTaskVTable;
use crate::text::concat2;
use crate::text::spec_ends_with;
use crate::text::spec_find;
use crate::text::spec_split;
use crate::text::spec_trim;
use vstd::string::StrSliceExecFns;
use vstd::string::StringExecFns;

/// The configuration options of one generator invocation: at most a
/// `destructor` hook, a function path to run before the inherited teardown.
pub struct AttrArgs {
    pub destructor: Option<String>,
}

/// Everything the generator emits for one accepted declaration.
pub struct GeneratedClass {
    /// The declared data type's name, suffixed `Type`.
    pub decl_name: String,
    /// The emitted wrapper type's name: the declared name without the
    /// suffix.
    pub wrapper_name: String,
    /// The emitted dispatch-table type's name: the wrapper name plus
    /// `VTable`.
    pub vtable_name: String,
    /// The constructor's parameters: exactly the declared fields beyond the
    /// mandatory first field, in declaration order.
    pub ctor_params: Vec<NamedField>,
    /// The name of the mandatory first field, where the declaration names
    /// its fields; the constructor builds that field itself.
    pub task_field_name: Option<String>,
    /// The class's dispatch table, each slot resolved.
    pub vtable: CSEzTaskVTable,
    /// The class's reflection record data, naming the wrapper.
    pub runtime_class: DLRuntimeClassType,
    /// The user hook the destructor slot runs before the inherited
    /// teardown, if one was configured.
    pub destructor_hook: Option<String>,
}

/// The dispatch table of every generated class: the base slots resolved to
/// the generated overrides — execute forwards to the task-specific slot,
/// which the class author supplies — and the two scheduler entry points at
/// their fixed offsets. Only the destructor depends on the declaration: a
/// configured hook runs before the inherited teardown, otherwise the safe
/// default stands.
pub open spec fn spec_generated_table(hooked: bool) -> CSEzTaskVTable {
    CSEzTaskVTable::spec_for(
        if hooked {
            SlotBinding::HookedDestructor
        } else {
            SlotBinding::NoOpDestructor
        },
        SlotBinding::ForwardToEztaskExecute,
        SlotBinding::UserEztaskExecute,
        SlotBinding::ForeignEntry(REGISTER_TASK_OFFSET),
        SlotBinding::ForeignEntry(FREE_TASK_OFFSET),
    )
}

/// Emits one class: derives the wrapper, table and constructor shapes from
/// the validated name and parameters, resolves the dispatch table, and
/// builds the reflection record. The name must carry the `Type` suffix and,
/// as an ABI string, cannot contain a nul character.
pub fn inherit_cs_easy_task(ident: String, fields: Params, args: AttrArgs) -> (g: GeneratedClass)
    requires
        spec_ends_with(ident@, "Type"@),
        forall|i: int| 0 <= i < ident@.len() ==> ident@[i] != '\u{0}',
    ensures
        g.decl_name == ident,
        g.wrapper_name@ == ident@.subrange(0, ident@.len() - 4),
        g.vtable_name@ == g.wrapper_name@ + "VTable"@,
        g.ctor_params == fields.field_types,
        g.task_field_name == fields.task_field_name,
        g.destructor_hook == args.destructor,
        g.vtable == spec_generated_table(args.destructor is Some),
        g.runtime_class.wf_named(g.wrapper_name@),
{
    proof {
        reveal_strlit("Type");
    }
    let n = ident.as_str().unicode_len();
    let wrapper = ident.as_str().substring_char(0, n - 4);
    let wrapper_name = wrapper.to_owned();
    let vtable_name = concat2(wrapper, "VTable");
    proof {
        assert forall|i: int| 0 <= i < wrapper_name@.len() implies wrapper_name@[i]
            != '\u{0}' by {
            assert(wrapper_name@[i] == ident@[i]);
        }
    }
    let runtime_class = DLRuntimeClassType::new(wrapper_name.as_str());
    let hooked = args.destructor.is_some();
    let vtable = CSEzTaskVTable {
        fd4task_base_vtable: crate::fd4_task::FD4TaskBaseVTable {
            fd4component_base_vtable: crate::component::FD4ComponentBaseVTable {
                get_runtime_class: Slot::new(
                    SlotKind::GetRuntimeClass,
                    SlotBinding::RuntimeClassGetter,
                ),
                destructor: Slot::new(
                    SlotKind::Destructor,
                    if hooked {
                        SlotBinding::HookedDestructor
                    } else {
                        SlotBinding::NoOpDestructor
                    },
                ),
            },
            execute: Slot::new(SlotKind::Execute, SlotBinding::ForwardToEztaskExecute),
        },
        eztask_execute: Slot::new(SlotKind::EztaskExecute, SlotBinding::UserEztaskExecute),
        register_task: Slot::new(
            SlotKind::RegisterTask,
            SlotBinding::ForeignEntry(REGISTER_TASK_OFFSET),
        ),
        free_task: Slot::new(SlotKind::FreeTask, SlotBinding::ForeignEntry(FREE_TASK_OFFSET)),
    };
    GeneratedClass {
        decl_name: ident,
        wrapper_name,
        vtable_name,
        ctor_params: fields.field_types,
        task_field_name: fields.task_field_name,
        vtable,
        runtime_class,
        destructor_hook: args.destructor,
    }
}

/// The byte size of the schedulable-task base data embedded at the front of
/// every generated wrapper's data block.
pub const EZTASK_DATA_SIZE: u64 = 0x10;

/// The field layout of a generated wrapper: the dispatch-table pointer, the
/// schedulable-task base data every ancestor contributes, then the declared
/// extra fields in declaration order.
pub open spec fn spec_generated_wrapper_fields(extras: Seq<TypeLayout>) -> Seq<TypeLayout> {
    seq![
        crate::layout::spec_pointer_layout(),
        TypeLayout { size: EZTASK_DATA_SIZE, align: crate::layout::PTR_SIZE },
    ] + extras
}

/// Computes a generated wrapper's byte layout from the layouts of its extra
/// fields, or reports that the size does not fit in a machine word.
pub fn generated_wrapper_layout(extras: &Vec<TypeLayout>) -> (r: Option<TypeLayout>)
    requires
        forall|k: int| 0 <= k < extras@.len() ==> (#[trigger] extras@[k]).wf(),
    ensures
        r is Some <==> crate::layout::spec_struct_size(spec_generated_wrapper_fields(extras@))
            <= u64::MAX,
        r matches Option::Some(l) ==> {
            &&& l.size == crate::layout::spec_struct_size(spec_generated_wrapper_fields(extras@))
            &&& l.align == crate::layout::spec_struct_align(spec_generated_wrapper_fields(extras@))
            &&& l.wf()
            &&& 0 < l.size
        },
{
    let mut fields: Vec<TypeLayout> = Vec::new();
    fields.push(TypeLayout::pointer());
    fields.push(TypeLayout { size: EZTASK_DATA_SIZE, align: crate::layout::PTR_SIZE });
    let n = extras.len();
    let mut i: usize = 0;
    while i < n
        invariant
            i <= n,
            n == extras@.len(),
            forall|k: int| 0 <= k < extras@.len() ==> (#[trigger] extras@[k]).wf(),
            fields@ =~= seq![
                crate::layout::spec_pointer_layout(),
                TypeLayout { size: EZTASK_DATA_SIZE, align: crate::layout::PTR_SIZE },
            ] + extras@.subrange(0, i as int),
        decreases n - i,
    {
        fields.push(extras[i]);
        proof {
            assert(fields@ =~= seq![
                crate::layout::spec_pointer_layout(),
                TypeLayout { size: EZTASK_DATA_SIZE, align: crate::layout::PTR_SIZE },
            ] + extras@.subrange(0, i + 1));
        }
        i = i + 1;
    }
    proof {
        assert(fields@ =~= spec_generated_wrapper_fields(extras@));
        assert forall|k: int| 0 <= k < fields@.len() implies (#[trigger] fields@[k]).wf() by {
            if k == 0 {
                assert(fields@[k] == crate::layout::spec_pointer_layout());
                assert(crate::layout::spec_pointer_layout().wf()) by {
                    assert(8int % 8int == 0);
                }
            } else if k == 1 {
                assert(fields@[k] == TypeLayout {
                    size: EZTASK_DATA_SIZE,
                    align: crate::layout::PTR_SIZE,
                });
                assert(TypeLayout { size: EZTASK_DATA_SIZE, align: crate::layout::PTR_SIZE }.wf())
                    by {
                    assert(16int % 8int == 0);
                }
            } else {
                assert(fields@[k] == extras@[k - 2]);
                assert(extras@[k - 2].wf());
            }
        }
        crate::layout::lemma_struct_size_at_least_end(fields@);
        crate::layout::lemma_fields_end_bounds(fields@);
        crate::layout::lemma_fields_end_mono(fields@, 2, fields@.len() as int);
        assert(fields@.subrange(0, 2) =~= seq![
            crate::layout::spec_pointer_layout(),
            TypeLayout { size: EZTASK_DATA_SIZE, align: crate::layout::PTR_SIZE },
        ]);
        assert(crate::layout::spec_fields_end(fields@.subrange(0, 2)) == 0x18) by {
            let e = Seq::<TypeLayout>::empty();
            let p = crate::layout::spec_pointer_layout();
            let z = TypeLayout { size: EZTASK_DATA_SIZE, align: crate::layout::PTR_SIZE };
            assert(fields@.subrange(0, 2) =~= e.push(p).push(z));
            assert(crate::layout::spec_fields_end(e) == 0);
            crate::layout::lemma_layout_push(e, p);
            crate::layout::lemma_layout_push(e.push(p), z);
            assert(crate::layout::spec_align_up(0, 8) == 0);
            assert(crate::layout::spec_align_up(8, 8) == 8);
        }
        assert(fields@.subrange(0, fields@.len() as int) =~= fields@);
    }
    crate::layout::struct_layout(&fields)
}

/// For any accepted declaration, the wrapper's size is the dispatch-table
/// pointer plus the ancestors' base data plus the declared extra fields, in
/// that order; when every extra field is word-aligned and word-multiple in
/// size — as every field of the foreign ABI's own chain is — not one byte
/// of padding is inserted. (For other fields, `spec_struct_size` inserts
/// exactly the padding `lemma_align_up_minimal` proves minimal.)
pub proof fn lemma_wrapper_size_no_extra_padding(extras: Seq<TypeLayout>)
    requires
        forall|k: int| 0 <= k < extras.len() ==> (#[trigger] extras[k]).align == 8,
        forall|k: int| 0 <= k < extras.len() ==> (#[trigger] extras[k]).size as int % 8 == 0,
    ensures
        crate::layout::spec_struct_size(spec_generated_wrapper_fields(extras))
            == crate::layout::PTR_SIZE + EZTASK_DATA_SIZE + crate::layout::spec_sum_sizes(extras),
{
    let head = seq![
        crate::layout::spec_pointer_layout(),
        TypeLayout { size: EZTASK_DATA_SIZE, align: crate::layout::PTR_SIZE },
    ];
    let fields = spec_generated_wrapper_fields(extras);
    assert(forall|k: int| 0 <= k < fields.len() ==> (#[trigger] fields[k]).align == 8);
    assert(forall|k: int| 0 <= k < fields.len() ==> (#[trigger] fields[k]).size as int % 8 == 0);
    crate::layout::lemma_struct_size_no_padding(fields);
    crate::layout::lemma_sum_sizes_concat(head, extras);
    assert(crate::layout::spec_sum_sizes(head) == 0x18) by {
        assert(head.drop_last() =~= seq![crate::layout::spec_pointer_layout()]);
        assert(head.drop_last().drop_last() =~= Seq::<TypeLayout>::empty());
        assert(crate::layout::spec_sum_sizes(Seq::<TypeLayout>::empty()) == 0);
        assert(head.drop_last().last() == crate::layout::spec_pointer_layout());
        assert(crate::layout::spec_sum_sizes(head.drop_last()) == 8);
        assert(head.last() == TypeLayout { size: EZTASK_DATA_SIZE, align: crate::layout::PTR_SIZE });
    }
}

/// Dispatch-table slot order for a generated class: every ancestor slot in
/// the ancestors' declaration order, then the class's own slots — and the
/// same table whatever fields the declaration lists, in whatever order,
/// since only the destructor option enters the table's resolution.
pub proof fn lemma_dispatch_slot_order(hooked: bool)
    ensures
        spec_generated_table(hooked).slots().map_values(|s: Slot| s.kind)
            == crate::slots::spec_eztask_slot_kinds(),
        spec_generated_table(hooked).slots().len() * crate::slots::SLOT_SIZE == 0x30,
        spec_generated_table(hooked).slots() == spec_generated_table(
            hooked,
        ).fd4task_base_vtable.slots() + seq![
            spec_generated_table(hooked).eztask_execute,
            spec_generated_table(hooked).register_task,
            spec_generated_table(hooked).free_task,
        ],
{
    crate::task::lemma_chain_slot_order(
        if hooked {
            SlotBinding::HookedDestructor
        } else {
            SlotBinding::NoOpDestructor
        },
        SlotBinding::ForwardToEztaskExecute,
        SlotBinding::UserEztaskExecute,
        SlotBinding::ForeignEntry(REGISTER_TASK_OFFSET),
        SlotBinding::ForeignEntry(FREE_TASK_OFFSET),
    );
}

/// The name of one configuration option: what stands before the first `=`
/// of its list entry, trimmed.
pub open spec fn spec_arg_key(seg: Seq<char>) -> Seq<char> {
    let f = spec_find(seg, '=');
    if f < 0 {
        spec_trim(seg)
    } else {
        spec_trim(seg.subrange(0, f))
    }
}

/// The value of one configuration option: what stands between the first
/// and second `=` of its entry, trimmed; an option without `=` defaults to
/// the path `<declaring type>::<option name>`.
pub open spec fn spec_arg_value(seg: Seq<char>, ident: Seq<char>) -> Seq<char> {
    let f = spec_find(seg, '=');
    if f < 0 {
        spec_trim(ident + "::"@ + spec_arg_key(seg))
    } else {
        let rest = seg.subrange(f + 1, seg.len() as int);
        let f2 = spec_find(rest, '=');
        if f2 < 0 {
            spec_trim(rest)
        } else {
            spec_trim(rest.subrange(0, f2))
        }
    }
}

/// The option names of an option list, in order: the list splits on commas,
/// each entry's name before its first `=`.
pub open spec fn spec_arg_keys(attr: Seq<char>) -> Seq<Seq<char>> {
    spec_split(attr, ',').map_values(|seg: Seq<char>| spec_arg_key(seg))
}

/// Some option name occurs twice.
pub open spec fn spec_has_dup(keys: Seq<Seq<char>>) -> bool {
    exists|i: int, j: int| 0 <= i < j < keys.len() && keys[i] == keys[j]
}

/// `j` is the first position whose option name already occurred.
pub open spec fn spec_first_dup(keys: Seq<Seq<char>>, j: int) -> bool {
    &&& 0 <= j < keys.len()
    &&& keys.subrange(0, j).contains(keys[j])
    &&& forall|i: int| 0 <= i < j ==> !keys.subrange(0, i).contains(#[trigger] keys[i])
}

/// Whether `key` already stands in `keys`, by content.
fn contains_key(keys: &Vec<String>, key: &String) -> (r: bool)
    ensures
        r == exists|i: int| 0 <= i < keys@.len() && (#[trigger] keys@[i])@ == key@,
{
    let n = keys.len();
    let mut i: usize = 0;
    while i < n
        invariant
            i <= n,
            n == keys@.len(),
            forall|j: int| 0 <= j < i ==> (#[trigger] keys@[j])@ != key@,
        decreases n - i,
    {
        if crate::text::str_eq(keys[i].as_str(), key.as_str()) {
            return true;
        }
        i = i + 1;
    }
    false
}

/// Parses the configuration options of one attribute-form invocation. The
/// list splits on commas; each entry names an option, with a value after
/// `=` or a defaulted path. Any option name given twice — the `destructor`
/// hook is the one option read — rejects the invocation with the offending
/// name.
pub fn parse_args(attr: &str, ident: &str) -> (r: Result<AttrArgs, DeclError>)
    ensures
        r is Err <==> spec_has_dup(spec_arg_keys(attr@)),
        r is Err ==> exists|j: int|
            #![auto]
            spec_first_dup(spec_arg_keys(attr@), j) && (r->Err_0 matches DeclError::DuplicateOption(
                kk,
            ) && kk@ == spec_arg_keys(attr@)[j]),
        r matches Result::Ok(a) ==> {
            &&& (a.destructor is Some <==> spec_arg_keys(attr@).contains("destructor"@))
            &&& forall|i: int|
                0 <= i < spec_arg_keys(attr@).len() && #[trigger] spec_arg_keys(attr@)[i]
                    == "destructor"@ ==> a.destructor->Some_0@ == spec_arg_value(
                    spec_split(attr@, ',')[i],
                    ident@,
                )
        },
{
    let n = attr.unicode_len();
    let ghost segs = spec_split(attr@, ',');
    proof {
        crate::text::lemma_split_len(attr@, ',');
    }
    // Segment boundaries, matching the splitting of the option list.
    let mut bounds: Vec<(usize, usize)> = Vec::new();
    let mut start: usize = 0;
    let mut done = false;
    proof {
        assert(attr@.skip(0) =~= attr@);
        assert(bounds@.map_values(
            |b: (usize, usize)| attr@.subrange(b.0 as int, b.1 as int),
        ) =~~= Seq::<Seq<char>>::empty());
    }
    while !done
        invariant
            start <= n,
            n == attr@.len(),
            forall|k: int|
                0 <= k < bounds@.len() ==> (#[trigger] bounds@[k]).0 <= bounds@[k].1 <= n,
            !done ==> segs == bounds@.map_values(
                |b: (usize, usize)| attr@.subrange(b.0 as int, b.1 as int),
            ) + spec_split(attr@.skip(start as int), ','),
            done ==> segs == bounds@.map_values(
                |b: (usize, usize)| attr@.subrange(b.0 as int, b.1 as int),
            ),
        decreases n - start + (if done {
            0int
        } else {
            1int
        }),
    {
        let ghost prev = bounds@.map_values(
            |b: (usize, usize)| attr@.subrange(b.0 as int, b.1 as int),
        );
        let ghost sk = attr@.skip(start as int);
        proof {
            assert(sk =~= attr@.subrange(start as int, n as int));
            crate::text::lemma_split_step(sk, ',');
        }
        match crate::text::find_char_range(attr, start, n, ',') {
            Some(e) => {
                bounds.push((start, e));
                proof {
                    assert(sk.subrange(0, e - start) =~= attr@.subrange(start as int, e as int));
                    assert(sk.subrange(e - start + 1, sk.len() as int) =~= attr@.skip(e + 1));
                    assert(bounds@.map_values(
                        |b: (usize, usize)| attr@.subrange(b.0 as int, b.1 as int),
                    ) =~~= prev.push(attr@.subrange(start as int, e as int)));
                }
                start = e + 1;
            },
            None => {
                bounds.push((start, n));
                proof {
                    assert(bounds@.map_values(
                        |b: (usize, usize)| attr@.subrange(b.0 as int, b.1 as int),
                    ) =~~= prev.push(attr@.subrange(start as int, n as int)));
                    assert(segs =~~= prev + seq![sk]);
                }
                done = true;
            },
        }
    }
    // Read the options off the segments, rejecting a repeated name.
    let ghost keys_spec = spec_arg_keys(attr@);
    let m = bounds.len();
    let mut keys: Vec<String> = Vec::new();
    let mut destructor: Option<String> = None;
    let dkey = "destructor".to_owned();
    let mut k: usize = 0;
    while k < m
        invariant
            k <= m,
            m == bounds@.len(),
            n == attr@.len(),
            keys_spec == spec_arg_keys(attr@),
            segs == spec_split(attr@, ','),
            segs == bounds@.map_values(
                |b: (usize, usize)| attr@.subrange(b.0 as int, b.1 as int),
            ),
            keys_spec.len() == m,
            forall|i: int| 0 <= i < m ==> (#[trigger] bounds@[i]).0 <= bounds@[i].1 <= n,
            keys@.len() == k,
            forall|i: int| 0 <= i < k ==> (#[trigger] keys@[i])@ == keys_spec[i],
            forall|i: int, j: int| 0 <= i < j < k ==> keys_spec[i] != keys_spec[j],
            dkey@ == "destructor"@,
            destructor is Some <==> exists|i: int| 0 <= i < k && #[trigger] keys_spec[i]
                == "destructor"@,
            forall|i: int|
                0 <= i < k && #[trigger] keys_spec[i] == "destructor"@
                    ==> destructor->Some_0@ == spec_arg_value(segs[i], ident@),
        decreases m - k,
    {
        let lo = bounds[k].0;
        let hi = bounds[k].1;
        let ghost seg = segs[k as int];
        proof {
            assert(seg == attr@.subrange(lo as int, hi as int));
            assert(keys_spec[k as int] == spec_arg_key(seg));
        }
        let key: String;
        let value: String;
        match crate::text::find_char_range(attr, lo, hi, '=') {
            Some(p) => {
                proof {
                    assert(seg.subrange(0, p - lo) =~= attr@.subrange(lo as int, p as int));
                }
                key = crate::text::str_trim(attr.substring_char(lo, p));
                let ghost rest = seg.subrange(spec_find(seg, '=') + 1, seg.len() as int);
                proof {
                    assert(rest =~= attr@.subrange(p + 1, hi as int));
                }
                match crate::text::find_char_range(attr, p + 1, hi, '=') {
                    Some(q) => {
                        proof {
                            assert(rest.subrange(0, q - (p + 1)) =~= attr@.subrange(
                                p + 1,
                                q as int,
                            ));
                        }
                        value = crate::text::str_trim(attr.substring_char(p + 1, q));
                    },
                    None => {
                        value = crate::text::str_trim(attr.substring_char(p + 1, hi));
                    },
                }
            },
            None => {
                key = crate::text::str_trim(attr.substring_char(lo, hi));
                let path = crate::text::concat3(ident, "::", key.as_str());
                value = crate::text::str_trim(path.as_str());
            },
        }
        proof {
            assert(key@ == keys_spec[k as int]);
            assert(value@ == spec_arg_value(seg, ident@));
        }
        if contains_key(&keys, &key) {
            proof {
                let w = choose|i: int| 0 <= i < keys@.len() && (#[trigger] keys@[i])@ == key@;
                assert(keys_spec.subrange(0, k as int)[w] == keys_spec[k as int]);
                assert(keys_spec.subrange(0, k as int).contains(keys_spec[k as int]));
                assert forall|i: int| 0 <= i < k implies !keys_spec.subrange(0, i).contains(
                    #[trigger] keys_spec[i],
                ) by {
                    if keys_spec.subrange(0, i).contains(keys_spec[i]) {
                        let w2 = choose|j: int|
                            0 <= j < i && #[trigger] keys_spec.subrange(0, i)[j] == keys_spec[i];
                        assert(keys_spec[w2] == keys_spec[i]);
                    }
                }
                assert(spec_first_dup(keys_spec, k as int));
                assert(spec_has_dup(keys_spec));
            }
            return Err(DeclError::DuplicateOption(key));
        }
        proof {
            assert forall|i: int| 0 <= i < k implies keys_spec[i] != keys_spec[k as int] by {
                assert(keys@[i]@ == keys_spec[i]);
            }
        }
        if crate::text::str_eq(key.as_str(), dkey.as_str()) {
            destructor = Some(value);
        }
        keys.push(key);
        k = k + 1;
    }
    proof {
        if spec_has_dup(keys_spec) {
            let (i, j) = choose|i: int, j: int|
                #![trigger keys_spec[i], keys_spec[j]]
                0 <= i < j < keys_spec.len() && keys_spec[i] == keys_spec[j];
            assert(false);
        }
        if spec_arg_keys(attr@).contains("destructor"@) {
            let w = choose|i: int|
                0 <= i < keys_spec.len() && #[trigger] keys_spec[i] == "destructor"@;
        }
    }
    Ok(AttrArgs { destructor })
}

/// The derive form accepts a declaration if and only if its name carries
/// the `Type` suffix, its layout marker is present and correct, and it is a
/// non-unit struct leading with the schedulable-task base field.
pub open spec fn spec_derive_accepts(d: DeriveDecl) -> bool {
    &&& spec_ends_with(d.ident@, "Type"@)
    &&& spec_repr_ok(d.attrs@)
    &&& (d.data matches DataDecl::Struct(f) && spec_first_field_ok(f))
}

/// The diagnostic a rejected derive-form declaration gets: the checks run
/// in a fixed order — name suffix, layout marker, declaration shape — and
/// the first to fail names the error.
pub open spec fn spec_derive_error(d: DeriveDecl) -> DeclError
    recommends
        !spec_derive_accepts(d),
{
    if !spec_ends_with(d.ident@, "Type"@) {
        DeclError::NotTypeSuffix
    } else if spec_find_repr(d.attrs@) < 0 {
        DeclError::MissingReprAttr
    } else if !spec_repr_c_tokens(d.attrs@[spec_find_repr(d.attrs@)].tokens@) {
        DeclError::WrongReprAttr(d.attrs@[spec_find_repr(d.attrs@)].tokens)
    } else if d.data is Enum || d.data is Union {
        DeclError::NotAStruct
    } else if d.data->Struct_0 is Unit {
        DeclError::UnitNotSupported
    } else {
        DeclError::WrongFirstField
    }
}

/// Validates a derive-form declaration and emits the class. No destructor
/// hook exists on this path: the derive form takes no options.
pub fn inherit_cs_ez_task_internal(input: &DeriveDecl) -> (r: Result<GeneratedClass, DeclError>)
    requires
        forall|i: int| 0 <= i < input.ident@.len() ==> input.ident@[i] != '\u{0}',
    ensures
        r is Ok <==> spec_derive_accepts(*input),
        r is Err ==> r->Err_0 == spec_derive_error(*input),
        r matches Result::Ok(g) ==> {
            &&& g.decl_name == input.ident
            &&& g.wrapper_name@ == input.ident@.subrange(0, input.ident@.len() - 4)
            &&& g.vtable_name@ == g.wrapper_name@ + "VTable"@
            &&& g.destructor_hook is None
            &&& g.vtable == spec_generated_table(false)
            &&& g.runtime_class.wf_named(g.wrapper_name@)
            &&& (input.data->Struct_0 is Named ==> {
                &&& g.ctor_params@ == input.data->Struct_0->Named_0@.subrange(
                    1,
                    input.data->Struct_0->Named_0@.len() as int,
                )
                &&& g.task_field_name matches Option::Some(t) && t == input.data->Struct_0->Named_0@[0].name
            })
            &&& (input.data->Struct_0 is Unnamed ==> {
                &&& g.task_field_name is None
                &&& g.ctor_params@.len() == input.data->Struct_0->Unnamed_0@.len() - 1
                &&& forall|i: int|
                    0 <= i < g.ctor_params@.len() ==> (#[trigger] g.ctor_params@[i].name@ == "f1"@
                        && g.ctor_params@[i].ty == input.data->Struct_0->Unnamed_0@[i + 1])
            })
        },
{
    let ident = match get_structure_name(input) {
        Ok(s) => s,
        Err(e) => {
            return Err(e);
        },
    };
    match is_repr_c(input) {
        Ok(_) => (),
        Err(e) => {
            return Err(e);
        },
    };
    let fields = match check_and_get_fields(input) {
        Ok(f) => f,
        Err(e) => {
            return Err(e);
        },
    };
    let params = get_params(fields);
    Ok(inherit_cs_easy_task(ident, params, AttrArgs { destructor: None }))
}

/// The attribute form accepts an invocation if and only if the declaration
/// carries no wrong layout marker (a missing one is inserted) and no
/// configuration option is given twice. The name needs no suffix here: the
/// form appends it.
pub open spec fn spec_attr_accepts(attr: Seq<char>, item: StructDecl) -> bool {
    &&& (spec_find_repr(item.attrs@) < 0 || spec_repr_ok(item.attrs@))
    &&& !spec_has_dup(spec_arg_keys(attr))
}

/// Validates an attribute-form invocation and emits the class. The
/// declaration is completed rather than rejected where that is well-defined
/// — a missing layout marker and a missing first field are inserted, and
/// the name gains the `Type` suffix — while a wrong marker or a repeated
/// option still rejects it. The declared name, an ABI string, cannot
/// contain a nul character.
#[verifier::rlimit(100)]
#[verifier::spinoff_prover]
pub fn inherit_cs_ez_task_attr_internal(attr: &str, item: StructDecl) -> (r: Result<
    (StructDecl, GeneratedClass),
    DeclError,
>)
    requires
        forall|i: int| 0 <= i < item.ident@.len() ==> item.ident@[i] != '\u{0}',
    ensures
        r is Ok <==> spec_attr_accepts(attr@, item),
        (spec_find_repr(item.attrs@) >= 0 && !spec_repr_ok(item.attrs@)) ==> r == Result::<
            (StructDecl, GeneratedClass),
            DeclError,
        >::Err(DeclError::WrongReprAttr(item.attrs@[spec_find_repr(item.attrs@)].tokens)),
        ((spec_find_repr(item.attrs@) < 0 || spec_repr_ok(item.attrs@)) && spec_has_dup(
            spec_arg_keys(attr@),
        )) ==> exists|j: int|
            #![auto]
            spec_first_dup(spec_arg_keys(attr@), j) && (r->Err_0 matches DeclError::DuplicateOption(
                kk,
            ) && kk@ == spec_arg_keys(attr@)[j]),
        r is Ok ==> {
            &&& r->Ok_0.0.ident@ == item.ident@ + "Type"@
            &&& spec_repr_ok(r->Ok_0.0.attrs@)
        },
        (r is Ok && spec_repr_ok(item.attrs@)) ==> r->Ok_0.0.attrs == item.attrs,
        (r is Ok && spec_find_repr(item.attrs@) < 0) ==> {
            &&& r->Ok_0.0.attrs@.len() == item.attrs@.len() + 1
            &&& r->Ok_0.0.attrs@.subrange(0, item.attrs@.len() as int) == item.attrs@
            &&& r->Ok_0.0.attrs@.last().path@ == "repr"@
            &&& r->Ok_0.0.attrs@.last().tokens@ == "(C)"@
        },
        r is Ok ==> {
            &&& spec_first_field_ok(r->Ok_0.0.fields)
            &&& (spec_first_field_ok(item.fields) ==> r->Ok_0.0.fields == item.fields)
        },
        r is Ok ==> {
            &&& r->Ok_0.1.decl_name == r->Ok_0.0.ident
            &&& r->Ok_0.1.wrapper_name@ == item.ident@
            &&& r->Ok_0.1.vtable_name@ == item.ident@ + "VTable"@
            &&& r->Ok_0.1.runtime_class.wf_named(item.ident@)
            &&& r->Ok_0.1.vtable == spec_generated_table(
                spec_arg_keys(attr@).contains("destructor"@),
            )
            &&& (r->Ok_0.1.destructor_hook is Some <==> spec_arg_keys(attr@).contains(
                "destructor"@,
            ))
        },
        r is Ok ==> forall|i: int|
            0 <= i < spec_arg_keys(attr@).len() && #[trigger] spec_arg_keys(attr@)[i]
                == "destructor"@ ==> r->Ok_0.1.destructor_hook->Some_0@ == spec_arg_value(
                spec_split(attr@, ',')[i],
                item.ident@,
            ),
        (r is Ok && item.fields is Named && spec_first_field_ok(item.fields)) ==> {
            &&& r->Ok_0.1.ctor_params@ == item.fields->Named_0@.subrange(
                1,
                item.fields->Named_0@.len() as int,
            )
            &&& r->Ok_0.1.task_field_name matches Option::Some(t) && t == item.fields->Named_0@[0].name
        },
        (r is Ok && item.fields is Named && !spec_first_field_ok(item.fields)) ==> {
            &&& r->Ok_0.1.ctor_params@ == item.fields->Named_0@
            &&& r->Ok_0.1.task_field_name matches Option::Some(t) && t@ == "task"@
        },
        (r is Ok && item.fields is Unnamed && spec_first_field_ok(item.fields)) ==> {
            &&& r->Ok_0.1.task_field_name is None
            &&& r->Ok_0.1.ctor_params@.len() == item.fields->Unnamed_0@.len() - 1
            &&& forall|i: int|
                0 <= i < r->Ok_0.1.ctor_params@.len() ==> (#[trigger] r->Ok_0.1.ctor_params@[i].name@
                    == "f1"@ && r->Ok_0.1.ctor_params@[i].ty == item.fields->Unnamed_0@[i + 1])
        },
        (r is Ok && item.fields is Unnamed && !spec_first_field_ok(item.fields)) ==> {
            &&& r->Ok_0.1.task_field_name is None
            &&& r->Ok_0.1.ctor_params@.len() == item.fields->Unnamed_0@.len()
            &&& forall|i: int|
                0 <= i < r->Ok_0.1.ctor_params@.len() ==> (#[trigger] r->Ok_0.1.ctor_params@[i].name@
                    == "f1"@ && r->Ok_0.1.ctor_params@[i].ty == item.fields->Unnamed_0@[i])
        },
        (r is Ok && item.fields is Unit) ==> r->Ok_0.1.ctor_params@.len() == 0
            && r->Ok_0.1.task_field_name is None,
{
    let mut input = item;
    match crate::decl::enforce_repr_c(&mut input) {
        Ok(_) => (),
        Err(e) => {
            return Err(e);
        },
    }
    crate::decl::enforce_first_field(&mut input);
    let params = get_params(&input.fields);
    let args = match parse_args(attr, input.ident.as_str()) {
        Ok(a) => a,
        Err(e) => {
            return Err(e);
        },
    };
    let new_ident = concat2(input.ident.as_str(), "Type");
    input.ident = new_ident;
    proof {
        reveal_strlit("Type");
        assert(spec_ends_with(input.ident@, "Type"@)) by {
            assert(input.ident@.subrange(
                input.ident@.len() - 4,
                input.ident@.len() as int,
            ) =~= "Type"@);
        }
        assert forall|i: int| 0 <= i < input.ident@.len() implies input.ident@[i]
            != '\u{0}' by {
            if i < item.ident@.len() {
                assert(input.ident@[i] == item.ident@[i]);
            } else {
                assert(input.ident@[i] == "Type"@[i - item.ident@.len()]);
            }
        }
    }
    let g = inherit_cs_easy_task(input.ident.clone(), params, args);
    proof {
        assert(g.wrapper_name@ =~= item.ident@);
        assert(g.vtable_name@ == item.ident@ + "VTable"@);
        assert(g.decl_name == input.ident);
        assert(g.runtime_class.wf_named(item.ident@));
        assert(g.vtable == spec_generated_table(spec_arg_keys(attr@).contains("destructor"@)));
        assert(g.destructor_hook is Some <==> spec_arg_keys(attr@).contains("destructor"@));
        if item.fields is Named && spec_first_field_ok(item.fields) {
            assert(g.ctor_params@ == item.fields->Named_0@.subrange(
                1,
                item.fields->Named_0@.len() as int,
            ));
        }
        if item.fields is Named && !spec_first_field_ok(item.fields) {
            assert(g.ctor_params@ == item.fields->Named_0@);
        }
        if item.fields is Unit {
            assert(g.ctor_params@.len() == 0 && g.task_field_name is None);
        }
        if item.fields is Unnamed {
            let tys = item.fields->Unnamed_0@;
            assert(g.ctor_params@ == params.field_types@);
            assert(g.task_field_name is None);
            if spec_first_field_ok(item.fields) {
                assert(input.fields == item.fields);
                assert(input.fields->Unnamed_0@ == tys);
                assert(g.ctor_params@.len() == tys.len() - 1);
                assert forall|i: int| 0 <= i < g.ctor_params@.len() implies (
                #[trigger] g.ctor_params@[i].name@ == "f1"@ && g.ctor_params@[i].ty == tys[i
                    + 1]) by {
                    assert(params.field_types@[i].name@ == "f1"@);
                    assert(params.field_types@[i].ty == input.fields->Unnamed_0@[i + 1]);
                }
            } else {
                assert(input.fields matches FieldsDecl::Unnamed(us) && us@.len() == tys.len() + 1
                    && us@.subrange(1, us@.len() as int) == tys);
                assert(g.ctor_params@.len() == tys.len());
                assert forall|i: int| 0 <= i < g.ctor_params@.len() implies (
                #[trigger] g.ctor_params@[i].name@ == "f1"@ && g.ctor_params@[i].ty
                    == tys[i]) by {
                    assert(params.field_types@[i].name@ == "f1"@);
                    assert(params.field_types@[i].ty == input.fields->Unnamed_0@[i + 1]);
                    assert(input.fields->Unnamed_0@[i + 1] == input.fields->Unnamed_0@.subrange(
                        1,
                        input.fields->Unnamed_0@.len() as int,
                    )[i]);
                }
            }
        }
    }
    Ok((input, g))
}

/// The attribute form's entry point: validates and emits, handing back the
/// completed declaration and the generated class, or the diagnostic to
/// attach to the invocation.
pub fn inherit_cs_ez_task_attr_impl(attr: &str, item: StructDecl) -> (r: Result<
    (StructDecl, GeneratedClass),
    DeclError,
>)
    requires
        forall|i: int| 0 <= i < item.ident@.len() ==> item.ident@[i] != '\u{0}',
    ensures
        r is Ok <==> spec_attr_accepts(attr@, item),
        r matches Result::Ok(p) ==> {
            &&& p.0.ident@ == item.ident@ + "Type"@
            &&& spec_repr_ok(p.0.attrs@)
            &&& spec_first_field_ok(p.0.fields)
            &&& p.1.decl_name == p.0.ident
            &&& p.1.wrapper_name@ == item.ident@
            &&& p.1.vtable_name@ == item.ident@ + "VTable"@
            &&& p.1.runtime_class.wf_named(item.ident@)
            &&& p.1.vtable == spec_generated_table(spec_arg_keys(attr@).contains("destructor"@))
        },
{
    inherit_cs_ez_task_attr_internal(attr, item)
}

/// The derive form's entry point: validates and emits, handing back either
/// the generated class or the diagnostic to attach to the declaration.
pub fn inherit_cs_ez_task_impl(input: &DeriveDecl) -> (r: Result<GeneratedClass, DeclError>)
    requires
        forall|i: int| 0 <= i < input.ident@.len() ==> input.ident@[i] != '\u{0}',
    ensures
        r is Ok <==> spec_derive_accepts(*input),
        r is Err ==> r->Err_0 == spec_derive_error(*input),
        r matches Result::Ok(g) ==> {
            &&& g.decl_name == input.ident
            &&& g.wrapper_name@ == input.ident@.subrange(0, input.ident@.len() - 4)
            &&& g.vtable_name@ == g.wrapper_name@ + "VTable"@
            &&& g.destructor_hook is None
            &&& g.vtable == spec_generated_table(false)
            &&& g.runtime_class.wf_named(g.wrapper_name@)
        },
{
    inherit_cs_ez_task_internal(input)
}

} // verus!
