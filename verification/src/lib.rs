//! Binary-compatible subclassing for a closed, single-inheritance C++ object
//! model: a wrapper type that reproduces the vtable-pointer-plus-data layout,
//! a capability-interface chain that mirrors the foreign class hierarchy, and
//! a declaration-driven generator that emits the wrapper, dispatch table,
//! constructor, reflection record and validity checks for a user class.

pub mod slots;
pub mod layout;
pub mod text;
pub mod encoding;
pub mod reflection;
pub mod component;
pub mod fd4_task;
pub mod time;
pub mod task;
pub mod decl;
pub mod generate;
pub mod runtime;
pub mod symbols;

use vstd::prelude::*;

verus! {

/// The contract every concrete foreign-visible class satisfies: it names its
/// dispatch-table type and the one table value shared by all its instances.
/// The table is fixed per class — `table` always returns `table_spec`.
pub trait VTable: Sized {
    /// The class's dispatch-table type.
    type Table;

    /// The class's one dispatch-table value.
    spec fn table_spec() -> Self::Table;

    /// Builds the class's dispatch table.
    fn table() -> (t: Self::Table)
        ensures
            t == Self::table_spec(),
    ;
}

/// A foreign-visible object: its class's dispatch table reference first, the
/// concrete data block immediately after, exactly as the foreign ABI lays a
/// C++ object out.
pub struct CppClass<C: VTable> {
    pub vtable: C::Table,
    pub data: C,
}

impl<C: VTable> CppClass<C> {
    /// The object carries its class's one table.
    pub open spec fn wf(self) -> bool {
        self.vtable == C::table_spec()
    }

    /// Installs the class's dispatch-table reference alongside `data`.
    pub fn from_data(data: C) -> (r: Self)
        ensures
            r.wf(),
            r.data == data,
    {
        CppClass { vtable: C::table(), data }
    }

    /// Read access to the data block, mirroring the transparent accessor the
    /// foreign layout implies.
    pub fn get(&self) -> (r: &C)
        ensures
            r == self.data,
    {
        &self.data
    }
}

} // verus!
