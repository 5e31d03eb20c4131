//! The reflection record. For every class the generator emits, the foreign
//! runtime's own reflection subsystem looks the class up by name through a
//! record holding a narrow and a wide nul-terminated copy of the class name,
//! itself a foreign object with a nine-slot dispatch table.

use vstd::prelude::*;

verus! {

use crate::CppClass;
use crate::VTable;
use crate::encoding::narrow_c_bytes;
use crate::encoding::spec_encode_utf16;
use crate::encoding::wide_c_units;
use crate::layout::PTR_SIZE;
use crate::layout::TypeLayout;
use crate::layout::spec_pointer_layout;
use crate::layout::spec_struct_size;
use crate::slots::Slot;
use crate::slots::SlotBinding;
use crate::slots::SlotKind;
use vstd::utf8::encode_utf8;

/// The reflection record as the foreign runtime sees it: a record object
/// whose data block is the two name pointers.
pub type DLRuntimeClass = CppClass<DLRuntimeClassType>;

/// Data block of a reflection record: the narrow and the wide nul-terminated
/// class-name strings (held by value here; the foreign ABI stores two
/// pointers, one word each).
pub struct DLRuntimeClassType {
    pub class_name: Vec<u8>,
    pub class_name_w: Vec<u16>,
}

impl DLRuntimeClassType {
    /// The record names `name`: both strings are the nul-terminated
    /// encodings of `name`.
    pub open spec fn wf_named(self, name: Seq<char>) -> bool {
        &&& self.class_name@ == encode_utf8(name).push(0u8)
        &&& self.class_name_w@ == spec_encode_utf16(name).push(0u16)
    }

    /// Builds the record data for a class named `class_name`. A name cannot
    /// contain a nul character: the ABI strings are nul-terminated.
    pub fn new(class_name: &str) -> (r: DLRuntimeClassType)
        requires
            forall|i: int| 0 <= i < class_name@.len() ==> class_name@[i] != '\u{0}',
        ensures
            r.wf_named(class_name@),
    {
        let narrow = narrow_c_bytes(class_name);
        let wide = wide_c_units(class_name);
        match wide {
            Some(w) => DLRuntimeClassType { class_name: narrow, class_name_w: w },
            None => vstd::pervasive::unreached(),
        }
    }
}

/// The nine virtual operations of a reflection record, with the behavior
/// each resolves to.
pub trait DLRuntimeClassTrait {
    /// The narrow name string the record exposes.
    spec fn spec_class_name(&self) -> Seq<u8>;

    /// The wide name string the record exposes.
    spec fn spec_class_name_w(&self) -> Seq<u16>;

    /// The byte size the record reports for itself.
    spec fn spec_class_size(&self) -> u64;

    /// Returns the narrow nul-terminated class-name string.
    fn class_name(&self) -> (r: &Vec<u8>)
        ensures
            r@ == self.spec_class_name(),
    ;

    /// Returns the wide nul-terminated class-name string.
    fn class_name_w(&self) -> (r: &Vec<u16>)
        ensures
            r@ == self.spec_class_name_w(),
    ;

    /// A reserved accessor, observed to always yield zero.
    fn ref_byte1(&self) -> (r: u8)
        ensures
            r == 0,
    ;

    /// A reserved accessor, observed to always yield zero.
    fn ref_byte2(&self) -> (r: u8)
        ensures
            r == 0,
    ;

    /// A reserved accessor, observed to always yield zero.
    fn ref_byte3(&self) -> (r: u8)
        ensures
            r == 0,
    ;

    /// A reserved accessor, observed to always yield zero.
    fn ref_byte4(&self) -> (r: u8)
        ensures
            r == 0,
    ;

    /// An operation observed to always return false.
    fn unk_always_false(&self) -> (r: bool)
        ensures
            r == false,
    ;

    /// Returns the byte size of the record object.
    fn class_size(&self) -> (r: u64)
        ensures
            r == self.spec_class_size(),
    ;
}

/// Dispatch table of a reflection record: nine slots, in the foreign
/// declaration order.
#[derive(Clone, Copy, Debug, PartialEq, Eq, Structural)]
pub struct DLRuntimeClassVTable {
    pub class_name: Slot,
    pub class_name_w: Slot,
    pub ref_byte1: Slot,
    pub ref_byte2: Slot,
    pub ref_byte3: Slot,
    pub ref_byte4: Slot,
    pub unk_always_false: Slot,
    pub free_base: Slot,
    pub class_size: Slot,
}

impl DLRuntimeClassVTable {
    /// The slots in table order.
    pub open spec fn slots(self) -> Seq<Slot> {
        seq![
            self.class_name,
            self.class_name_w,
            self.ref_byte1,
            self.ref_byte2,
            self.ref_byte3,
            self.ref_byte4,
            self.unk_always_false,
            self.free_base,
            self.class_size,
        ]
    }

    /// The one resolution of the nine slots: every reflection record behaves
    /// the same way, down to the release slot left as a fatal placeholder.
    pub open spec fn spec_table() -> DLRuntimeClassVTable {
        DLRuntimeClassVTable {
            class_name: Slot { kind: SlotKind::ClassName, binding: SlotBinding::NarrowNameGetter },
            class_name_w: Slot {
                kind: SlotKind::ClassNameW,
                binding: SlotBinding::WideNameGetter,
            },
            ref_byte1: Slot { kind: SlotKind::RefByte1, binding: SlotBinding::RefByteZero },
            ref_byte2: Slot { kind: SlotKind::RefByte2, binding: SlotBinding::RefByteZero },
            ref_byte3: Slot { kind: SlotKind::RefByte3, binding: SlotBinding::RefByteZero },
            ref_byte4: Slot { kind: SlotKind::RefByte4, binding: SlotBinding::RefByteZero },
            unk_always_false: Slot {
                kind: SlotKind::UnkAlwaysFalse,
                binding: SlotBinding::ConstFalse,
            },
            free_base: Slot { kind: SlotKind::FreeBase, binding: SlotBinding::FatalPlaceholder },
            class_size: Slot { kind: SlotKind::ClassSize, binding: SlotBinding::RecordSizeGetter },
        }
    }

    /// Builds the dispatch table for a class whose objects satisfy the
    /// reflection capability.
    pub fn new<C: VTable>() -> (r: DLRuntimeClassVTable) where CppClass<C>: DLRuntimeClassTrait
        ensures
            r == DLRuntimeClassVTable::spec_table(),
    {
        DLRuntimeClassVTable {
            class_name: Slot::new(SlotKind::ClassName, SlotBinding::NarrowNameGetter),
            class_name_w: Slot::new(SlotKind::ClassNameW, SlotBinding::WideNameGetter),
            ref_byte1: Slot::new(SlotKind::RefByte1, SlotBinding::RefByteZero),
            ref_byte2: Slot::new(SlotKind::RefByte2, SlotBinding::RefByteZero),
            ref_byte3: Slot::new(SlotKind::RefByte3, SlotBinding::RefByteZero),
            ref_byte4: Slot::new(SlotKind::RefByte4, SlotBinding::RefByteZero),
            unk_always_false: Slot::new(SlotKind::UnkAlwaysFalse, SlotBinding::ConstFalse),
            free_base: Slot::new(SlotKind::FreeBase, SlotBinding::FatalPlaceholder),
            class_size: Slot::new(SlotKind::ClassSize, SlotBinding::RecordSizeGetter),
        }
    }
}

impl VTable for DLRuntimeClassType {
    type Table = DLRuntimeClassVTable;

    open spec fn table_spec() -> DLRuntimeClassVTable {
        DLRuntimeClassVTable::spec_table()
    }

    fn table() -> (t: DLRuntimeClassVTable) {
        DLRuntimeClassVTable {
            class_name: Slot::new(SlotKind::ClassName, SlotBinding::NarrowNameGetter),
            class_name_w: Slot::new(SlotKind::ClassNameW, SlotBinding::WideNameGetter),
            ref_byte1: Slot::new(SlotKind::RefByte1, SlotBinding::RefByteZero),
            ref_byte2: Slot::new(SlotKind::RefByte2, SlotBinding::RefByteZero),
            ref_byte3: Slot::new(SlotKind::RefByte3, SlotBinding::RefByteZero),
            ref_byte4: Slot::new(SlotKind::RefByte4, SlotBinding::RefByteZero),
            unk_always_false: Slot::new(SlotKind::UnkAlwaysFalse, SlotBinding::ConstFalse),
            free_base: Slot::new(SlotKind::FreeBase, SlotBinding::FatalPlaceholder),
            class_size: Slot::new(SlotKind::ClassSize, SlotBinding::RecordSizeGetter),
        }
    }
}

/// The record data block as the foreign ABI lays it out: two name pointers.
pub open spec fn spec_record_data_fields() -> Seq<TypeLayout> {
    seq![spec_pointer_layout(), spec_pointer_layout()]
}

/// The reflection record's own sizes, asserted as the foreign ABI fixes
/// them: a sixteen-byte data block, a twenty-four-byte record object and a
/// seventy-two-byte (nine-slot) dispatch table.
pub proof fn lemma_record_layout()
    ensures
        spec_struct_size(spec_record_data_fields()) == 0x10,
        spec_struct_size(seq![spec_pointer_layout()].add(spec_record_data_fields())) == 0x18,
        DLRuntimeClassVTable::spec_table().slots().len() * crate::slots::SLOT_SIZE == 0x48,
{
    let p = spec_pointer_layout();
    let e = Seq::<TypeLayout>::empty();
    let fields = spec_record_data_fields();
    assert(fields =~= e.push(p).push(p));
    assert(crate::layout::spec_fields_end(e) == 0);
    assert(crate::layout::spec_struct_align(e) == 1);
    crate::layout::lemma_layout_push(e, p);
    crate::layout::lemma_layout_push(e.push(p), p);
    assert(p.align == 8 && p.size == 8);
    assert(crate::layout::spec_align_up(0, 8) == 0);
    assert(crate::layout::spec_fields_end(e.push(p)) == 8);
    assert(crate::layout::spec_struct_align(e.push(p)) == 8);
    assert(crate::layout::spec_align_up(8, 8) == 8);
    assert(crate::layout::spec_fields_end(e.push(p).push(p)) == 16);
    assert(crate::layout::spec_struct_align(e.push(p).push(p)) == 8);
    assert(spec_struct_size(e.push(p).push(p)) == 16);
    assert(spec_struct_size(fields) == 0x10);
    let w = seq![spec_pointer_layout()].add(spec_record_data_fields());
    assert(w =~= e.push(p).push(p).push(p));
    crate::layout::lemma_layout_push(e.push(p).push(p), p);
    assert(crate::layout::spec_align_up(16, 8) == 16);
    assert(crate::layout::spec_fields_end(e.push(p).push(p).push(p)) == 24);
    assert(crate::layout::spec_struct_align(e.push(p).push(p).push(p)) == 8);
    assert(crate::layout::spec_align_up(24, 8) == 24);
    assert(spec_struct_size(w) == 0x18);
}

/// Reflection lookup round trip: for a class declared with any name, the
/// record's narrow and wide strings both decode back to exactly that name —
/// each is the name's encoding plus the terminating nul and nothing else.
pub proof fn lemma_reflection_name_round_trip(rec: DLRuntimeClassType, name: Seq<char>)
    requires
        rec.wf_named(name),
    ensures
        vstd::utf8::decode_utf8(rec.class_name@.drop_last()) == name,
        crate::encoding::spec_decode_utf16(rec.class_name_w@.drop_last()) == name,
        rec.class_name@.last() == 0u8,
        rec.class_name_w@.last() == 0u16,
{
    assert(rec.class_name@.drop_last() =~= encode_utf8(name));
    vstd::utf8::encode_utf8_decode_utf8(name);
    assert(rec.class_name_w@.drop_last() =~= spec_encode_utf16(name));
    crate::encoding::lemma_encode_utf16_decode_utf16(name);
}

impl DLRuntimeClassTrait for DLRuntimeClass {
    open spec fn spec_class_name(&self) -> Seq<u8> {
        self.data.class_name@
    }

    open spec fn spec_class_name_w(&self) -> Seq<u16> {
        self.data.class_name_w@
    }

    open spec fn spec_class_size(&self) -> u64 {
        0x18
    }

    fn class_name(&self) -> (r: &Vec<u8>) {
        &self.data.class_name
    }

    fn class_name_w(&self) -> (r: &Vec<u16>) {
        &self.data.class_name_w
    }

    fn ref_byte1(&self) -> (r: u8) {
        0
    }

    fn ref_byte2(&self) -> (r: u8) {
        0
    }

    fn ref_byte3(&self) -> (r: u8) {
        0
    }

    fn ref_byte4(&self) -> (r: u8) {
        0
    }

    fn unk_always_false(&self) -> (r: bool) {
        false
    }

    fn class_size(&self) -> (r: u64) {
        0x18
    }
}

} // verus!
