//! Byte layout of foreign objects. The foreign object model is a C++
//! single-inheritance ABI on a 64-bit target: an object is a vtable pointer
//! followed by its data fields, each field placed at the next offset that
//! its alignment allows, and the total size rounded up to the struct's
//! alignment. Every generated type must match the foreign layout exactly,
//! so the layout computation is spelled out here and proved minimal: no
//! padding is inserted beyond what alignment forces.

use vstd::prelude::*;

verus! {

use vstd::arithmetic::div_mod::lemma_fundamental_div_mod;
use vstd::arithmetic::div_mod::lemma_fundamental_div_mod_converse_mod;
use vstd::arithmetic::div_mod::lemma_mod_bound;

/// Size in bytes of a pointer on the target ABI; a wrapper's dispatch-table
/// reference occupies exactly this much at offset zero.
pub const PTR_SIZE: u64 = 8;

/// Size and alignment of one field, as the target ABI sees it.
#[derive(Clone, Copy, Debug, PartialEq, Eq, Structural)]
pub struct TypeLayout {
    pub size: u64,
    pub align: u64,
}

impl TypeLayout {
    /// A layout the target ABI accepts: positive alignment, size a multiple
    /// of the alignment.
    pub open spec fn wf(self) -> bool {
        0 < self.align && self.size as int % self.align as int == 0
    }

    /// The layout of a pointer field.
    pub fn pointer() -> (r: TypeLayout)
        ensures
            r == spec_pointer_layout(),
    {
        TypeLayout { size: PTR_SIZE, align: PTR_SIZE }
    }
}

/// The layout of a pointer field.
pub open spec fn spec_pointer_layout() -> TypeLayout {
    TypeLayout { size: PTR_SIZE, align: PTR_SIZE }
}

/// The least value no smaller than `off` that is a multiple of `align`.
pub open spec fn spec_align_up(off: int, align: int) -> int
    recommends
        0 <= off,
        0 < align,
{
    if off % align == 0 {
        off
    } else {
        off + (align - off % align)
    }
}

/// `spec_align_up` is sound and minimal: it lands on a multiple of `align`,
/// moves forward less than one whole `align`, and no smaller value at or
/// after `off` is aligned. This is the sense in which the layouts computed
/// here carry zero padding beyond the minimum the ABI imposes.
pub proof fn lemma_align_up_minimal(off: int, align: int)
    requires
        0 <= off,
        0 < align,
    ensures
        off <= spec_align_up(off, align) < off + align,
        spec_align_up(off, align) % align == 0,
        forall|x: int| off <= x < spec_align_up(off, align) ==> #[trigger] (x % align) != 0,
{
    lemma_mod_bound(off, align);
    let r = off % align;
    if r != 0 {
        let q = off / align;
        lemma_fundamental_div_mod(off, align);
        assert(align * (q + 1) == align * q + align) by (nonlinear_arith);
        assert(off + (align - r) == align * (q + 1));
        lemma_fundamental_div_mod_converse_mod(align * (q + 1), align, q + 1, 0);
        assert forall|x: int| off <= x < spec_align_up(off, align) implies #[trigger] (x % align)
            != 0 by {
            assert(align * (q + 1) == align * q + align) by (nonlinear_arith);
            assert(0 < x - align * q < align);
            assert(x == q * align + (x - align * q)) by (nonlinear_arith);
            lemma_fundamental_div_mod_converse_mod(x, align, q, x - align * q);
        }
    }
}
/// Aligns `off` upward to `align`, or reports that the result does not fit
/// in a machine word.
pub fn align_up(off: u64, align: u64) -> (r: Option<u64>)
    requires
        0 < align,
    ensures
        r is Some <==> spec_align_up(off as int, align as int) <= u64::MAX,
        r is Some ==> r->Some_0 == spec_align_up(off as int, align as int),
{
    let rem = off % align;
    if rem == 0 {
        Some(off)
    } else {
        proof {
            lemma_mod_bound(off as int, align as int);
        }
        off.checked_add(align - rem)
    }
}

/// The offset just past the last field when the fields are placed in order,
/// each at the least offset its alignment allows.
pub open spec fn spec_fields_end(fields: Seq<TypeLayout>) -> int
    decreases fields.len(),
{
    if fields.len() == 0 {
        0
    } else {
        spec_align_up(spec_fields_end(fields.drop_last()), fields.last().align as int)
            + fields.last().size
    }
}

/// The alignment of a struct with these fields: the greatest field
/// alignment, or one for an empty struct.
pub open spec fn spec_struct_align(fields: Seq<TypeLayout>) -> int
    decreases fields.len(),
{
    if fields.len() == 0 {
        1
    } else {
        let rest = spec_struct_align(fields.drop_last());
        if fields.last().align as int > rest {
            fields.last().align as int
        } else {
            rest
        }
    }
}

/// The total byte size of a struct with these fields on the target ABI:
/// the end of the last field, rounded up to the struct's alignment.
pub open spec fn spec_struct_size(fields: Seq<TypeLayout>) -> int {
    spec_align_up(spec_fields_end(fields), spec_struct_align(fields))
}

/// The sum of the fields' own sizes, with no padding at all.
pub open spec fn spec_sum_sizes(fields: Seq<TypeLayout>) -> int
    decreases fields.len(),
{
    if fields.len() == 0 {
        0
    } else {
        spec_sum_sizes(fields.drop_last()) + fields.last().size
    }
}

/// One step of the layout computation, for walking a concrete field list
/// from the front.
pub proof fn lemma_layout_push(fields: Seq<TypeLayout>, f: TypeLayout)
    ensures
        spec_fields_end(fields.push(f)) == spec_align_up(spec_fields_end(fields), f.align as int)
            + f.size,
        spec_sum_sizes(fields.push(f)) == spec_sum_sizes(fields) + f.size,
        spec_struct_align(fields.push(f)) == if f.align as int > spec_struct_align(fields) {
            f.align as int
        } else {
            spec_struct_align(fields)
        },
{
    assert(fields.push(f).drop_last() =~= fields);
    assert(fields.push(f).last() == f);
}

/// Every well-formed field list ends at or after the bare sum of its field
/// sizes, never more than one alignment's worth of padding per boundary
/// away from it, and its end never decreases as fields are appended.
pub proof fn lemma_fields_end_bounds(fields: Seq<TypeLayout>)
    requires
        forall|i: int| 0 <= i < fields.len() ==> (#[trigger] fields[i]).wf(),
    ensures
        spec_sum_sizes(fields) <= spec_fields_end(fields),
        0 <= spec_fields_end(fields),
    decreases fields.len(),
{
    if fields.len() > 0 {
        lemma_fields_end_bounds(fields.drop_last());
        lemma_align_up_minimal(spec_fields_end(fields.drop_last()), fields.last().align as int);
    }
}

/// The struct alignment is positive.
pub proof fn lemma_struct_align_pos(fields: Seq<TypeLayout>)
    requires
        forall|i: int| 0 <= i < fields.len() ==> (#[trigger] fields[i]).wf(),
    ensures
        0 < spec_struct_align(fields),
    decreases fields.len(),
{
    if fields.len() > 0 {
        lemma_struct_align_pos(fields.drop_last());
    }
}

/// Field sizes sum piecewise.
pub proof fn lemma_sum_sizes_concat(a: Seq<TypeLayout>, b: Seq<TypeLayout>)
    ensures
        spec_sum_sizes(a + b) == spec_sum_sizes(a) + spec_sum_sizes(b),
    decreases b.len(),
{
    if b.len() == 0 {
        assert(a + b =~= a);
    } else {
        lemma_sum_sizes_concat(a, b.drop_last());
        assert((a + b).drop_last() =~= a + b.drop_last());
        assert((a + b).last() == b.last());
    }
}

/// A longer prefix of a well-formed field list never ends earlier.
pub proof fn lemma_fields_end_mono(fields: Seq<TypeLayout>, i: int, j: int)
    requires
        forall|k: int| 0 <= k < fields.len() ==> (#[trigger] fields[k]).wf(),
        0 <= i <= j <= fields.len(),
    ensures
        spec_fields_end(fields.subrange(0, i)) <= spec_fields_end(fields.subrange(0, j)),
    decreases j - i,
{
    if i < j {
        lemma_fields_end_mono(fields, i, j - 1);
        let prev = fields.subrange(0, j - 1);
        assert(fields.subrange(0, j).drop_last() =~= prev);
        assert(fields.subrange(0, j).last() == fields[j - 1]);
        lemma_fields_end_bounds_prefix(fields, j - 1);
        lemma_align_up_minimal(spec_fields_end(prev), fields[j - 1].align as int);
    }
}

/// A prefix of a well-formed field list ends at or after zero.
pub proof fn lemma_fields_end_bounds_prefix(fields: Seq<TypeLayout>, i: int)
    requires
        forall|k: int| 0 <= k < fields.len() ==> (#[trigger] fields[k]).wf(),
        0 <= i <= fields.len(),
    ensures
        0 <= spec_fields_end(fields.subrange(0, i)),
{
    let p = fields.subrange(0, i);
    assert(forall|k: int| 0 <= k < p.len() ==> (#[trigger] p[k]).wf());
    lemma_fields_end_bounds(p);
}

/// The struct size is never below the end of its fields.
pub proof fn lemma_struct_size_at_least_end(fields: Seq<TypeLayout>)
    requires
        forall|k: int| 0 <= k < fields.len() ==> (#[trigger] fields[k]).wf(),
    ensures
        spec_fields_end(fields) <= spec_struct_size(fields),
        spec_struct_size(fields) as int % spec_struct_align(fields) == 0,
{
    lemma_fields_end_bounds(fields);
    lemma_struct_align_pos(fields);
    lemma_align_up_minimal(spec_fields_end(fields), spec_struct_align(fields));
}

/// Computes the size and alignment of a struct with the given fields on the
/// target ABI, or reports that the size does not fit in a machine word.
pub fn struct_layout(fields: &Vec<TypeLayout>) -> (r: Option<TypeLayout>)
    requires
        forall|k: int| 0 <= k < fields@.len() ==> (#[trigger] fields@[k]).wf(),
    ensures
        r is Some <==> spec_struct_size(fields@) <= u64::MAX,
        r matches Option::Some(l) ==> {
            &&& l.size == spec_struct_size(fields@)
            &&& l.align == spec_struct_align(fields@)
            &&& l.wf()
        },
{
    let n = fields.len();
    let mut off: u64 = 0;
    let mut align: u64 = 1;
    let mut i: usize = 0;
    proof {
        assert(fields@.subrange(0, 0) =~= Seq::<TypeLayout>::empty());
    }
    while i < n
        invariant
            i <= n,
            n == fields@.len(),
            forall|k: int| 0 <= k < fields@.len() ==> (#[trigger] fields@[k]).wf(),
            off == spec_fields_end(fields@.subrange(0, i as int)),
            align == spec_struct_align(fields@.subrange(0, i as int)),
            align >= 1,
        decreases n - i,
    {
        let f = fields[i];
        proof {
            assert(fields@.subrange(0, i + 1) =~= fields@.subrange(0, i as int).push(fields@[
                i as int
            ]));
            lemma_layout_push(fields@.subrange(0, i as int), fields@[i as int]);
        }
        let stepped = align_up(off, f.align);
        let next = match stepped {
            Some(a) => a.checked_add(f.size),
            None => None,
        };
        match next {
            Some(o2) => {
                off = o2;
                if f.align > align {
                    align = f.align;
                }
            },
            None => {
                proof {
                    lemma_fields_end_bounds_prefix(fields@, i as int);
                    lemma_align_up_minimal(off as int, f.align as int);
                    assert(spec_fields_end(fields@.subrange(0, i + 1)) > u64::MAX);
                    lemma_fields_end_mono(fields@, i + 1, n as int);
                    assert(fields@.subrange(0, n as int) =~= fields@);
                    lemma_struct_size_at_least_end(fields@);
                }
                return None;
            },
        }
        i = i + 1;
    }
    proof {
        assert(fields@.subrange(0, n as int) =~= fields@);
        lemma_fields_end_bounds(fields@);
        lemma_struct_align_pos(fields@);
        lemma_align_up_minimal(off as int, align as int);
    }
    match align_up(off, align) {
        Some(size) => Some(TypeLayout { size, align }),
        None => None,
    }
}

/// When every field is word-sized-aligned and a multiple of the word in
/// size, the layout inserts no padding at all: the struct's size is exactly
/// the sum of its field sizes.
pub proof fn lemma_struct_size_no_padding(fields: Seq<TypeLayout>)
    requires
        fields.len() > 0,
        forall|i: int| 0 <= i < fields.len() ==> (#[trigger] fields[i]).align == PTR_SIZE,
        forall|i: int| 0 <= i < fields.len() ==> (#[trigger] fields[i]).size as int % (
        PTR_SIZE as int) == 0,
    ensures
        spec_struct_size(fields) == spec_sum_sizes(fields),
        spec_struct_align(fields) == PTR_SIZE,
        spec_fields_end(fields) as int % (PTR_SIZE as int) == 0,
    decreases fields.len(),
{
    let prev = fields.drop_last();
    assert(fields[fields.len() - 1].align == PTR_SIZE);
    assert(fields[fields.len() - 1].size as int % (PTR_SIZE as int) == 0);
    assert(fields.last() == fields[fields.len() - 1]);
    if prev.len() == 0 {
        assert(spec_fields_end(prev) == 0);
        assert(spec_align_up(0, PTR_SIZE as int) == 0);
        assert(spec_fields_end(fields) == fields.last().size);
    } else {
        lemma_struct_size_no_padding(prev);
        assert(spec_align_up(spec_fields_end(prev), PTR_SIZE as int) == spec_fields_end(prev));
    }
    assert((spec_fields_end(prev) + fields.last().size) as int % (PTR_SIZE as int) == 0) by {
        vstd::arithmetic::div_mod::lemma_add_mod_noop(
            spec_fields_end(prev),
            fields.last().size as int,
            PTR_SIZE as int,
        );
        assert(spec_fields_end(prev) % (PTR_SIZE as int) == 0);
        assert((fields.last().size as int) % (PTR_SIZE as int) == 0);
    }
    assert(spec_fields_end(fields) == spec_fields_end(prev) + fields.last().size);
    assert(spec_fields_end(fields) % (PTR_SIZE as int) == 0);
    assert(spec_struct_align(prev) <= PTR_SIZE);
    assert(spec_struct_align(fields) == PTR_SIZE);
    assert(spec_struct_size(fields) == spec_fields_end(fields));
    assert(spec_sum_sizes(fields) == spec_sum_sizes(prev) + fields.last().size);
    assert(spec_fields_end(prev) == spec_sum_sizes(prev));
}

} // verus!
