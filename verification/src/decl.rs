//! Class declarations as the generator sees them, and the shape checks run
//! on them before anything is emitted. A declaration is rejected — never
//! silently accepted — when its name lacks the required suffix, its
//! field-layout marker is missing or wrong, its first field is not the
//! schedulable-task base field, or a configuration option is given twice.

use vstd::prelude::*;

verus! {

use crate::text::spec_ends_with;
use crate::text::spec_eq_ignore_ascii_case;
use crate::text::str_ends_with;
use crate::text::str_eq_ignore_ascii_case;
use vstd::string::StringExecFns;

/// One attribute of a declaration: its path and its parenthesized tokens,
/// both as written (`repr` and `(C)` for the layout marker).
#[derive(Debug)]
pub struct AttrDecl {
    pub path: String,
    pub tokens: String,
}

/// One named field: its name and the text of its type.
#[derive(Debug)]
pub struct NamedField {
    pub name: String,
    pub ty: String,
}

impl Clone for NamedField {
    /// An exact copy.
    fn clone(&self) -> (r: NamedField)
        ensures
            r == *self,
    {
        NamedField { name: self.name.clone(), ty: self.ty.clone() }
    }
}

/// The fields of a struct declaration: named, unnamed (types only), or none
/// at all.
pub enum FieldsDecl {
    Named(Vec<NamedField>),
    Unnamed(Vec<String>),
    Unit,
}

/// A struct item as the attribute form of the generator receives it.
pub struct StructDecl {
    pub ident: String,
    pub attrs: Vec<AttrDecl>,
    pub fields: FieldsDecl,
}

/// The data of a declaration handed to the derive form, which may name any
/// item kind.
pub enum DataDecl {
    Struct(FieldsDecl),
    Enum,
    Union,
}

/// A declaration as the derive form of the generator receives it.
pub struct DeriveDecl {
    pub ident: String,
    pub attrs: Vec<AttrDecl>,
    pub data: DataDecl,
}

/// Everything the generator rejects, one variant per diagnostic. There is
/// no runtime error path: every variant stops the build of the declaring
/// class.
#[derive(Debug)]
pub enum DeclError {
    /// The declared name does not end in `Type`.
    NotTypeSuffix,
    /// No layout-marker attribute was found.
    MissingReprAttr,
    /// A layout marker was found, but not the foreign-compatible one; the
    /// offending tokens are carried for the diagnostic.
    WrongReprAttr(String),
    /// The first field is not the schedulable-task base field.
    WrongFirstField,
    /// A declaration without fields cannot inherit the task base.
    UnitNotSupported,
    /// The derive form was used on something other than a struct.
    NotAStruct,
    /// A configuration option was given twice; the option's name is carried
    /// for the diagnostic.
    DuplicateOption(String),
}

/// The diagnostic text of an error, as attached to the offending source
/// location.
pub open spec fn spec_message(e: DeclError) -> Seq<char> {
    match e {
        DeclError::NotTypeSuffix => "Derive must be used on a type that ends with the word 'Type'"@,
        DeclError::MissingReprAttr => "Could not find `repr` attribute. Type must have `#[repr(C)]` attribute"@,
        DeclError::WrongReprAttr(t) => "Found `#[repr"@ + t@
            + "]` attribute. Type must have `#[repr(C)]` attribute"@,
        DeclError::WrongFirstField => "First field of a class that inherits `CSEzTask` MUST be of type `CSEzTaskType`. Additional fields can go AFTER this field."@,
        DeclError::UnitNotSupported => "Unit types are not supported."@,
        DeclError::NotAStruct => "Only structures are supported for inheriting `CSEzTask`."@,
        DeclError::DuplicateOption(k) => k@ + " specified twice. Can only be specified once!"@,
    }
}

impl DeclError {
    /// Renders the diagnostic text for this error.
    pub fn message(&self) -> (r: String)
        ensures
            r@ == spec_message(*self),
    {
        match self {
            DeclError::NotTypeSuffix => "Derive must be used on a type that ends with the word 'Type'".to_owned(),
            DeclError::MissingReprAttr => "Could not find `repr` attribute. Type must have `#[repr(C)]` attribute".to_owned(),
            DeclError::WrongReprAttr(t) => crate::text::concat3(
                "Found `#[repr",
                t.as_str(),
                "]` attribute. Type must have `#[repr(C)]` attribute",
            ),
            DeclError::WrongFirstField => "First field of a class that inherits `CSEzTask` MUST be of type `CSEzTaskType`. Additional fields can go AFTER this field.".to_owned(),
            DeclError::UnitNotSupported => "Unit types are not supported.".to_owned(),
            DeclError::NotAStruct => "Only structures are supported for inheriting `CSEzTask`.".to_owned(),
            DeclError::DuplicateOption(k) => crate::text::concat2(
                k.as_str(),
                " specified twice. Can only be specified once!",
            ),
        }
    }
}

/// The attribute is the layout marker: its path is `repr` up to ASCII case.
pub open spec fn spec_is_repr_path(p: Seq<char>) -> bool {
    spec_eq_ignore_ascii_case(p, "repr"@)
}

/// The marker tokens are the foreign-compatible layout, `(C)`, up to ASCII
/// case.
pub open spec fn spec_repr_c_tokens(t: Seq<char>) -> bool {
    spec_eq_ignore_ascii_case(t, "(C)"@)
}

/// Index of the first layout-marker attribute, or a negative value when
/// there is none.
pub open spec fn spec_find_repr(attrs: Seq<AttrDecl>) -> int
    decreases attrs.len(),
{
    if attrs.len() == 0 {
        -1
    } else if spec_is_repr_path(attrs[0].path@) {
        0
    } else {
        let r = spec_find_repr(attrs.drop_first());
        if r < 0 {
            -1
        } else {
            1 + r
        }
    }
}

/// What `spec_find_repr` finds: a negative result means no marker at all, a
/// non-negative one points at the first marker.
pub proof fn lemma_find_repr(attrs: Seq<AttrDecl>)
    ensures
        spec_find_repr(attrs) < 0 ==> forall|i: int|
            0 <= i < attrs.len() ==> !spec_is_repr_path(#[trigger] attrs[i].path@),
        spec_find_repr(attrs) >= 0 ==> {
            &&& spec_find_repr(attrs) < attrs.len()
            &&& spec_is_repr_path(attrs[spec_find_repr(attrs)].path@)
            &&& forall|i: int|
                0 <= i < spec_find_repr(attrs) ==> !spec_is_repr_path(#[trigger] attrs[i].path@)
        },
    decreases attrs.len(),
{
    if attrs.len() > 0 && !spec_is_repr_path(attrs[0].path@) {
        let rest = attrs.drop_first();
        lemma_find_repr(rest);
        assert(forall|i: int| 1 <= i < attrs.len() ==> attrs[i] == #[trigger] rest[i - 1]);
        let f = spec_find_repr(attrs);
        if spec_find_repr(rest) < 0 {
            assert(f == -1);
            assert forall|i: int| 0 <= i < attrs.len() implies !spec_is_repr_path(
                #[trigger] attrs[i].path@,
            ) by {
                if i >= 1 {
                    assert(attrs[i] == rest[i - 1]);
                    assert(!spec_is_repr_path(rest[i - 1].path@));
                }
            }
        } else {
            assert(f == 1 + spec_find_repr(rest));
            assert(attrs[f] == rest[f - 1]);
            assert forall|i: int| 0 <= i < f implies !spec_is_repr_path(
                #[trigger] attrs[i].path@,
            ) by {
                if i >= 1 {
                    assert(attrs[i] == rest[i - 1]);
                    assert(!spec_is_repr_path(rest[i - 1].path@));
                }
            }
        }
    }
}

/// The declaration carries a correct layout marker: a first marker exists
/// and reads `(C)`.
pub open spec fn spec_repr_ok(attrs: Seq<AttrDecl>) -> bool {
    &&& spec_find_repr(attrs) >= 0
    &&& spec_repr_c_tokens(attrs[spec_find_repr(attrs)].tokens@)
}

/// Checks the layout marker of a derive-form declaration: the first `repr`
/// attribute decides, and a missing marker is an error — the derive form
/// never inserts one.
pub fn has_repr_c_attr(input: &DeriveDecl) -> (r: Result<(), DeclError>)
    ensures
        r is Ok <==> spec_repr_ok(input.attrs@),
        spec_find_repr(input.attrs@) < 0 ==> r == Result::<(), DeclError>::Err(
            DeclError::MissingReprAttr,
        ),
        spec_find_repr(input.attrs@) >= 0 && !spec_repr_c_tokens(
            input.attrs@[spec_find_repr(input.attrs@)].tokens@,
        ) ==> r == Result::<(), DeclError>::Err(
            DeclError::WrongReprAttr(input.attrs@[spec_find_repr(input.attrs@)].tokens),
        ),
{
    proof {
        lemma_find_repr(input.attrs@);
    }
    let n = input.attrs.len();
    let mut i: usize = 0;
    while i < n
        invariant
            i <= n,
            n == input.attrs@.len(),
            forall|j: int| 0 <= j < i ==> !spec_is_repr_path(#[trigger] input.attrs@[j].path@),
            spec_find_repr(input.attrs@) < 0 || spec_find_repr(input.attrs@) >= i,
        decreases n - i,
    {
        let a = &input.attrs[i];
        if str_eq_ignore_ascii_case(a.path.as_str(), "repr") {
            proof {
                lemma_find_repr_prefix(input.attrs@, i as int);
            }
            if str_eq_ignore_ascii_case(a.tokens.as_str(), "(C)") {
                return Ok(());
            } else {
                return Err(DeclError::WrongReprAttr(a.tokens.clone()));
            }
        }
        proof {
            lemma_find_repr_prefix_miss(input.attrs@, i as int);
        }
        i = i + 1;
    }
    Err(DeclError::MissingReprAttr)
}

/// If nothing before `i` is a marker and `i` is one, then `i` is the first
/// marker.
proof fn lemma_find_repr_prefix(attrs: Seq<AttrDecl>, i: int)
    requires
        0 <= i < attrs.len(),
        spec_is_repr_path(attrs[i].path@),
        forall|j: int| 0 <= j < i ==> !spec_is_repr_path(#[trigger] attrs[j].path@),
    ensures
        spec_find_repr(attrs) == i,
    decreases i,
{
    if i == 0 {
    } else {
        lemma_find_repr_prefix(attrs.drop_first(), i - 1);
        assert(forall|j: int|
            1 <= j < attrs.len() ==> #[trigger] attrs.drop_first()[j - 1] == attrs[j]);
    }
}

/// If nothing up to and including `i` is a marker, the first marker — if
/// any — lies beyond `i`.
proof fn lemma_find_repr_prefix_miss(attrs: Seq<AttrDecl>, i: int)
    requires
        0 <= i < attrs.len(),
        forall|j: int| 0 <= j <= i ==> !spec_is_repr_path(#[trigger] attrs[j].path@),
    ensures
        spec_find_repr(attrs) < 0 || spec_find_repr(attrs) > i,
    decreases i,
{
    if spec_find_repr(attrs) >= 0 {
        lemma_find_repr(attrs);
    }
}

/// The derive-form layout check as the generator runs it; the empty result
/// stands in for the (empty) compile-time checks the build step appends.
pub fn is_repr_c(input: &DeriveDecl) -> (r: Result<(), DeclError>)
    ensures
        r is Ok <==> spec_repr_ok(input.attrs@),
        spec_find_repr(input.attrs@) < 0 ==> r == Result::<(), DeclError>::Err(
            DeclError::MissingReprAttr,
        ),
        spec_find_repr(input.attrs@) >= 0 && !spec_repr_c_tokens(
            input.attrs@[spec_find_repr(input.attrs@)].tokens@,
        ) ==> r == Result::<(), DeclError>::Err(
            DeclError::WrongReprAttr(input.attrs@[spec_find_repr(input.attrs@)].tokens),
        ),
{
    has_repr_c_attr(input)
}

/// Requires the declared name to end in `Type` and hands it back; any other
/// name is rejected before anything is emitted.
pub fn get_structure_name(input: &DeriveDecl) -> (r: Result<String, DeclError>)
    ensures
        r is Ok <==> spec_ends_with(input.ident@, "Type"@),
        r matches Result::Ok(s) ==> s == input.ident,
        r is Err ==> r == Result::<String, DeclError>::Err(DeclError::NotTypeSuffix),
{
    if str_ends_with(input.ident.as_str(), "Type") {
        Ok(input.ident.clone())
    } else {
        Err(DeclError::NotTypeSuffix)
    }
}

/// The first field's type names the schedulable-task base field.
pub fn check_field_name(first: &NamedField, name: &str) -> (r: bool)
    ensures
        r == spec_ends_with(first.ty@, name@),
{
    str_ends_with(first.ty.as_str(), name)
}

/// The fields have a first member whose type text ends in the
/// schedulable-task base type's name.
pub open spec fn spec_first_field_ok(fields: FieldsDecl) -> bool {
    match fields {
        FieldsDecl::Named(fs) => fs@.len() > 0 && spec_ends_with(fs@[0].ty@, "CSEzTaskType"@),
        FieldsDecl::Unnamed(tys) => tys@.len() > 0 && spec_ends_with(tys@[0]@, "CSEzTaskType"@),
        FieldsDecl::Unit => false,
    }
}

/// Checks the layout marker of an attribute-form declaration, inserting the
/// foreign-compatible marker when none is present: the attribute form may
/// supply the marker itself, but never accepts a wrong one.
pub fn enforce_repr_c_attr(input: &mut StructDecl) -> (r: Result<(), DeclError>)
    ensures
        r is Ok <==> (spec_find_repr(old(input).attrs@) < 0 || spec_repr_ok(old(input).attrs@)),
        spec_repr_ok(old(input).attrs@) ==> *final (input) == *old(input),
        spec_find_repr(old(input).attrs@) < 0 ==> {
            &&& final (input).ident == old(input).ident
            &&& final (input).fields == old(input).fields
            &&& final (input).attrs@.len() == old(input).attrs@.len() + 1
            &&& final (input).attrs@.subrange(0, old(input).attrs@.len() as int) == old(
                input,
            ).attrs@
            &&& final (input).attrs@.last().path@ == "repr"@
            &&& final (input).attrs@.last().tokens@ == "(C)"@
            &&& spec_repr_ok(final (input).attrs@)
        },
        (spec_find_repr(old(input).attrs@) >= 0 && !spec_repr_ok(old(input).attrs@)) ==> {
            &&& *final (input) == *old(input)
            &&& r == Result::<(), DeclError>::Err(
                DeclError::WrongReprAttr(
                    old(input).attrs@[spec_find_repr(old(input).attrs@)].tokens,
                ),
            )
        },
{
    proof {
        lemma_find_repr(input.attrs@);
    }
    let n = input.attrs.len();
    let mut i: usize = 0;
    while i < n
        invariant
            i <= n,
            n == input.attrs@.len(),
            *input == *old(input),
            forall|j: int| 0 <= j < i ==> !spec_is_repr_path(#[trigger] input.attrs@[j].path@),
        decreases n - i,
    {
        let a = &input.attrs[i];
        if str_eq_ignore_ascii_case(a.path.as_str(), "repr") {
            proof {
                lemma_find_repr_prefix(input.attrs@, i as int);
            }
            if str_eq_ignore_ascii_case(a.tokens.as_str(), "(C)") {
                return Ok(());
            } else {
                return Err(DeclError::WrongReprAttr(a.tokens.clone()));
            }
        }
        i = i + 1;
    }
    let marker = AttrDecl { path: "repr".to_owned(), tokens: "(C)".to_owned() };
    input.attrs.push(marker);
    proof {
        let attrs = input.attrs@;
        assert(attrs.subrange(0, old(input).attrs@.len() as int) =~= old(input).attrs@);
        assert(spec_is_repr_path(attrs.last().path@)) by {
            reveal_strlit("repr");
        }
        assert(spec_repr_c_tokens(attrs.last().tokens@)) by {
            reveal_strlit("(C)");
        }
        lemma_find_repr_prefix(attrs, attrs.len() - 1);
    }
    Ok(())
}

/// The attribute-form layout check as the generator runs it; the empty
/// result stands in for the (empty) compile-time checks the build step
/// appends.
pub fn enforce_repr_c(input: &mut StructDecl) -> (r: Result<(), DeclError>)
    ensures
        r is Ok <==> (spec_find_repr(old(input).attrs@) < 0 || spec_repr_ok(old(input).attrs@)),
        spec_repr_ok(old(input).attrs@) ==> *final (input) == *old(input),
        spec_find_repr(old(input).attrs@) < 0 ==> {
            &&& final (input).ident == old(input).ident
            &&& final (input).fields == old(input).fields
            &&& final (input).attrs@.len() == old(input).attrs@.len() + 1
            &&& final (input).attrs@.subrange(0, old(input).attrs@.len() as int) == old(
                input,
            ).attrs@
            &&& final (input).attrs@.last().path@ == "repr"@
            &&& final (input).attrs@.last().tokens@ == "(C)"@
            &&& spec_repr_ok(final (input).attrs@)
        },
        (spec_find_repr(old(input).attrs@) >= 0 && !spec_repr_ok(old(input).attrs@)) ==> {
            &&& *final (input) == *old(input)
            &&& r == Result::<(), DeclError>::Err(
                DeclError::WrongReprAttr(
                    old(input).attrs@[spec_find_repr(old(input).attrs@)].tokens,
                ),
            )
        },
{
    enforce_repr_c_attr(input)
}

/// The text of the schedulable-task base field's type, as the generator
/// writes it into a declaration that lacks the field.
pub open spec fn spec_task_field_ty() -> Seq<char> {
    "liber_rs::task::CSEzTaskType"@
}

/// Makes the first field the schedulable-task base field: a declaration
/// that already leads with one is kept as written, any other gains a field
/// named `task` of the base type in front (a unit declaration becomes a
/// one-field unnamed aggregate).
pub fn enforce_first_field(input: &mut StructDecl)
    ensures
        final (input).ident == old(input).ident,
        final (input).attrs == old(input).attrs,
        spec_first_field_ok(final (input).fields),
        spec_first_field_ok(old(input).fields) ==> final (input).fields == old(input).fields,
        (old(input).fields is Named && !spec_first_field_ok(old(input).fields)) ==> (final (input).fields matches FieldsDecl::Named(gs)
            && gs@.len() == old(input).fields->Named_0@.len() + 1
            && gs@.subrange(1, gs@.len() as int) == old(input).fields->Named_0@
            && gs@[0].name@ == "task"@
            && gs@[0].ty@ == spec_task_field_ty()),
        (old(input).fields is Unnamed && !spec_first_field_ok(old(input).fields)) ==> (final (input).fields matches FieldsDecl::Unnamed(us)
            && us@.len() == old(input).fields->Unnamed_0@.len() + 1
            && us@.subrange(1, us@.len() as int) == old(input).fields->Unnamed_0@
            && us@[0]@ == spec_task_field_ty()),
        (old(input).fields is Unit) ==> (final (input).fields matches FieldsDecl::Unnamed(us)
            && us@.len() == 1 && us@[0]@ == spec_task_field_ty()),
{
    proof {
        reveal_strlit("liber_rs::task::CSEzTaskType");
        reveal_strlit("CSEzTaskType");
        assert(spec_ends_with(spec_task_field_ty(), "CSEzTaskType"@)) by {
            assert(spec_task_field_ty().subrange(16, 28) =~= "CSEzTaskType"@);
        }
    }
    match &mut input.fields {
        FieldsDecl::Named(fs) => {
            let ok = fs.len() > 0 && str_ends_with(fs[0].ty.as_str(), "CSEzTaskType");
            if !ok {
                let field = NamedField {
                    name: "task".to_owned(),
                    ty: "liber_rs::task::CSEzTaskType".to_owned(),
                };
                fs.insert(0, field);
                proof {
                    assert(fs@.subrange(1, fs@.len() as int) =~= old(input).fields->Named_0@);
                }
            }
        },
        FieldsDecl::Unnamed(tys) => {
            let ok = tys.len() > 0 && str_ends_with(tys[0].as_str(), "CSEzTaskType");
            if !ok {
                tys.insert(0, "liber_rs::task::CSEzTaskType".to_owned());
                proof {
                    assert(tys@.subrange(1, tys@.len() as int) =~= old(input).fields->Unnamed_0@);
                }
            }
        },
        FieldsDecl::Unit => {
            let mut tys: Vec<String> = Vec::new();
            tys.push("liber_rs::task::CSEzTaskType".to_owned());
            input.fields = FieldsDecl::Unnamed(tys);
        },
    }
}

/// The constructor parameters read off a declaration: the names and typed
/// fields beyond the mandatory first field, and the first field's own name
/// where the fields are named.
pub struct Params {
    pub names: Vec<String>,
    pub field_types: Vec<NamedField>,
    pub task_field_name: Option<String>,
}

/// Reads the constructor parameters off the fields: everything after the
/// mandatory first field, in declaration order. Unnamed extra fields all
/// receive the same placeholder name — the generator does not support
/// unnamed aggregates with extra fields, and emits them under one name.
pub fn get_params(fields: &FieldsDecl) -> (r: Params)
    requires
        match *fields {
            FieldsDecl::Named(fs) => fs@.len() > 0,
            FieldsDecl::Unnamed(tys) => tys@.len() > 0,
            FieldsDecl::Unit => false,
        },
    ensures
        *fields matches FieldsDecl::Named(fs) ==> {
            &&& r.task_field_name matches Option::Some(t) && t == fs@[0].name
            &&& r.field_types@ == fs@.subrange(1, fs@.len() as int)
            &&& r.names@.len() == fs@.len() - 1
            &&& forall|i: int| 0 <= i < r.names@.len() ==> #[trigger] r.names@[i] == fs@[i + 1].name
        },
        *fields matches FieldsDecl::Unnamed(tys) ==> {
            &&& r.task_field_name is None
            &&& r.field_types@.len() == tys@.len() - 1
            &&& r.names@.len() == tys@.len() - 1
            &&& forall|i: int|
                0 <= i < r.field_types@.len() ==> (#[trigger] r.field_types@[i].name@ == "f1"@
                    && r.field_types@[i].ty == tys@[i + 1])
            &&& forall|i: int| 0 <= i < r.names@.len() ==> (#[trigger] r.names@[i])@ == "f1"@
        },
{
    match fields {
        FieldsDecl::Named(fs) => {
            let task_field_name = Some(fs[0].name.clone());
            let mut names: Vec<String> = Vec::new();
            let mut field_types: Vec<NamedField> = Vec::new();
            let n = fs.len();
            let mut i: usize = 1;
            while i < n
                invariant
                    1 <= i <= n,
                    n == fs@.len(),
                    field_types@ =~= fs@.subrange(1, i as int),
                    names@.len() == i - 1,
                    forall|j: int| 0 <= j < names@.len() ==> #[trigger] names@[j] == fs@[j + 1].name,
                decreases n - i,
            {
                field_types.push(fs[i].clone());
                names.push(fs[i].name.clone());
                proof {
                    assert(field_types@ =~= fs@.subrange(1, i + 1));
                }
                i = i + 1;
            }
            proof {
                assert(field_types@ =~= fs@.subrange(1, fs@.len() as int));
            }
            Params { names, field_types, task_field_name }
        },
        FieldsDecl::Unnamed(tys) => {
            let mut names: Vec<String> = Vec::new();
            let mut field_types: Vec<NamedField> = Vec::new();
            let n = tys.len();
            let mut i: usize = 1;
            while i < n
                invariant
                    1 <= i <= n,
                    n == tys@.len(),
                    field_types@.len() == i - 1,
                    names@.len() == i - 1,
                    forall|j: int|
                        0 <= j < field_types@.len() ==> (#[trigger] field_types@[j].name@ == "f1"@
                            && field_types@[j].ty == tys@[j + 1]),
                    forall|j: int| 0 <= j < names@.len() ==> (#[trigger] names@[j])@ == "f1"@,
                decreases n - i,
            {
                field_types.push(NamedField { name: "f1".to_owned(), ty: tys[i].clone() });
                names.push("f1".to_owned());
                i = i + 1;
            }
            Params { names, field_types, task_field_name: None }
        },
        FieldsDecl::Unit => vstd::pervasive::unreached(),
    }
}

/// Checks the shape of a derive-form declaration: it must be a struct, not
/// a unit type, and its first field must be the schedulable-task base field
/// — the derive form never inserts it.
pub fn check_and_get_fields<'a>(input: &'a DeriveDecl) -> (r: Result<&'a FieldsDecl, DeclError>)
    ensures
        r is Ok <==> (input.data matches DataDecl::Struct(f) && spec_first_field_ok(f)),
        r matches Result::Ok(f) ==> (input.data matches DataDecl::Struct(g) && *f == g),
        (input.data is Enum || input.data is Union) ==> r
            == Result::<&'a FieldsDecl, DeclError>::Err(DeclError::NotAStruct),
        (input.data matches DataDecl::Struct(f) && f is Unit) ==> r == Result::<
            &'a FieldsDecl,
            DeclError,
        >::Err(DeclError::UnitNotSupported),
        (input.data matches DataDecl::Struct(f) && !(f is Unit) && !spec_first_field_ok(f)) ==> r
            == Result::<&'a FieldsDecl, DeclError>::Err(DeclError::WrongFirstField),
{
    match &input.data {
        DataDecl::Struct(fields) => {
            match fields {
                FieldsDecl::Named(fs) => {
                    if fs.len() == 0 {
                        return Err(DeclError::WrongFirstField);
                    }
                    if !str_ends_with(fs[0].ty.as_str(), "CSEzTaskType") {
                        return Err(DeclError::WrongFirstField);
                    }
                    Ok(fields)
                },
                FieldsDecl::Unnamed(tys) => {
                    if tys.len() == 0 {
                        return Err(DeclError::WrongFirstField);
                    }
                    if !str_ends_with(tys[0].as_str(), "CSEzTaskType") {
                        return Err(DeclError::WrongFirstField);
                    }
                    Ok(fields)
                },
                FieldsDecl::Unit => Err(DeclError::UnitNotSupported),
            }
        },
        DataDecl::Enum => Err(DeclError::NotAStruct),
        DataDecl::Union => Err(DeclError::NotAStruct),
    }
}

} // verus!
