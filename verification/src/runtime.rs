//! The startup registry: the runtime counterpart of the generator. Each
//! generated class is registered once, receiving the one dispatch-table
//! address all its instances share, and each instance is built by the
//! two-phase construction the foreign scheduler imposes — allocate the
//! proxy with a null back-pointer, allocate the owner embedding the proxy's
//! address, then patch the proxy's back-pointer to the owner. Addresses are
//! modelled as the values of a monotone allocator, so distinctness and the
//! owner/proxy link are proved, not assumed.

use vstd::prelude::*;

verus! {

use crate::generate::GeneratedClass;
use crate::layout::TypeLayout;
use crate::task::CSEzTaskProxyType;
use crate::task::CSEzTaskType;
use crate::task::CSTaskGroup;

/// Byte size of a proxy object.
pub const PROXY_OBJECT_SIZE: u64 = 0x20;

/// Byte size of a proxy dispatch table.
pub const PROXY_VTABLE_SIZE: u64 = 0x18;

/// Byte size of a generated class's dispatch table.
pub const GENERATED_VTABLE_SIZE: u64 = 0x30;

/// A class the registry knows: what the generator emitted, the byte layout
/// of the wrapper, and the address of the class's one dispatch table.
pub struct RegisteredClass {
    pub desc: GeneratedClass,
    pub layout: TypeLayout,
    pub vtable_addr: u64,
}

/// One constructed task instance.
pub struct TaskObject {
    /// The instance's own address: its identity toward the foreign runtime.
    pub addr: u64,
    /// Index of the instance's class in the registry.
    pub class: usize,
    /// The dispatch-table address the instance carries: its class's.
    pub vtable_addr: u64,
    /// The schedulable-task base data, holding the proxy's address.
    pub data: CSEzTaskType,
    /// The values of the extra fields, one per constructor parameter.
    pub extra: Vec<u64>,
}

/// One constructed proxy instance.
pub struct ProxyObject {
    pub addr: u64,
    pub vtable_addr: u64,
    /// The proxy data: the owner back-pointer and the task-group tag.
    pub data: CSEzTaskProxyType,
}

/// The registry of generated classes and their live instances.
pub struct Runtime {
    /// The next free address of the monotone allocator; addresses below it
    /// and above zero are taken.
    pub next_addr: u64,
    /// The address of the proxy class's shared dispatch table.
    pub proxy_vtable_addr: u64,
    pub classes: Vec<RegisteredClass>,
    pub tasks: Vec<TaskObject>,
    pub proxies: Vec<ProxyObject>,
}

impl Runtime {
    /// Everything the registry guarantees: addresses are nonzero, below the
    /// allocation frontier and pairwise distinct; every task carries its
    /// class's dispatch-table address; and task `i` and proxy `i` form one
    /// two-phase pair, each holding the other's address.
    pub open spec fn wf(self) -> bool {
        &&& 0 < self.next_addr
        &&& 0 < self.proxy_vtable_addr < self.next_addr
        &&& forall|i: int|
            0 <= i < self.classes@.len() ==> 0 < (#[trigger] self.classes@[i]).vtable_addr
                < self.next_addr
        &&& forall|i: int, j: int|
            0 <= i < j < self.classes@.len() ==> (#[trigger] self.classes@[i]).vtable_addr != (
            #[trigger] self.classes@[j]).vtable_addr
        &&& forall|i: int| 0 <= i < self.classes@.len() ==> 0 < (#[trigger] self.classes@[i]).layout.size
        &&& self.tasks@.len() == self.proxies@.len()
        &&& forall|i: int|
            0 <= i < self.tasks@.len() ==> 0 < (#[trigger] self.tasks@[i]).addr < self.next_addr
        &&& forall|i: int|
            0 <= i < self.proxies@.len() ==> 0 < (#[trigger] self.proxies@[i]).addr
                < self.next_addr
        &&& forall|i: int, j: int|
            0 <= i < j < self.tasks@.len() ==> (#[trigger] self.tasks@[i]).addr != (
            #[trigger] self.tasks@[j]).addr
        &&& forall|i: int, j: int|
            0 <= i < j < self.proxies@.len() ==> (#[trigger] self.proxies@[i]).addr != (
            #[trigger] self.proxies@[j]).addr
        &&& forall|i: int, j: int|
            0 <= i < self.tasks@.len() && 0 <= j < self.proxies@.len() ==> (
            #[trigger] self.tasks@[i]).addr != (#[trigger] self.proxies@[j]).addr
        &&& forall|i: int|
            0 <= i < self.tasks@.len() ==> (#[trigger] self.tasks@[i]).class
                < self.classes@.len()
        &&& forall|i: int|
            0 <= i < self.tasks@.len() ==> (#[trigger] self.tasks@[i]).vtable_addr
                == self.classes@[self.tasks@[i].class as int].vtable_addr
        &&& forall|i: int|
            0 <= i < self.tasks@.len() ==> (#[trigger] self.tasks@[i]).data.proxy
                == self.proxies@[i].addr
        &&& forall|i: int|
            0 <= i < self.proxies@.len() ==> (#[trigger] self.proxies@[i]).data.owner
                == self.tasks@[i].addr
        &&& forall|i: int|
            0 <= i < self.proxies@.len() ==> (#[trigger] self.proxies@[i]).vtable_addr
                == self.proxy_vtable_addr
    }

    /// A fresh registry: no classes, no instances, the proxy dispatch table
    /// placed at the bottom of the modelled address space.
    pub fn new() -> (r: Runtime)
        ensures
            r.wf(),
            r.classes@.len() == 0,
            r.tasks@.len() == 0,
            r.proxies@.len() == 0,
    {
        Runtime {
            next_addr: 1 + PROXY_VTABLE_SIZE,
            proxy_vtable_addr: 1,
            classes: Vec::new(),
            tasks: Vec::new(),
            proxies: Vec::new(),
        }
    }

    /// Takes the next `size` bytes of the address space, or reports that it
    /// is exhausted.
    fn take_addrs(&mut self, size: u64) -> (r: Option<u64>)
        requires
            0 < old(self).next_addr,
        ensures
            r is Some <==> old(self).next_addr + size <= u64::MAX,
            r matches Option::Some(a) ==> {
                &&& a == old(self).next_addr
                &&& final (self).next_addr == a + size
            },
            r is None ==> *final (self) == *old(self),
            final (self).classes == old(self).classes,
            final (self).tasks == old(self).tasks,
            final (self).proxies == old(self).proxies,
            final (self).proxy_vtable_addr == old(self).proxy_vtable_addr,
            old(self).next_addr <= final (self).next_addr,
    {
        let a = self.next_addr;
        match a.checked_add(size) {
            Some(n) => {
                self.next_addr = n;
                Some(a)
            },
            None => None,
        }
    }

    /// Registers a generated class: the registry allocates the class's one
    /// dispatch table and records the class under a fresh index. Fails only
    /// when the modelled address space is exhausted.
    pub fn register_class(&mut self, desc: GeneratedClass, layout: TypeLayout) -> (r: Option<
        usize,
    >)
        requires
            old(self).wf(),
            layout.wf(),
            0 < layout.size,
        ensures
            r is Some <==> old(self).next_addr + GENERATED_VTABLE_SIZE <= u64::MAX,
            r is None ==> *final (self) == *old(self),
            r matches Option::Some(id) ==> {
                &&& final (self).wf()
                &&& id == old(self).classes@.len()
                &&& final (self).classes@.len() == old(self).classes@.len() + 1
                &&& final (self).classes@.subrange(0, id as int) == old(self).classes@
                &&& final (self).classes@.last().desc == desc
                &&& final (self).classes@.last().layout == layout
                &&& final (self).tasks == old(self).tasks
                &&& final (self).proxies == old(self).proxies
                &&& forall|i: int|
                    0 <= i < id ==> final (self).classes@.last().vtable_addr != (
                    #[trigger] old(self).classes@[i]).vtable_addr
            },
    {
        let vtable_addr = match self.take_addrs(GENERATED_VTABLE_SIZE) {
            Some(a) => a,
            None => {
                return None;
            },
        };
        let id = self.classes.len();
        self.classes.push(RegisteredClass { desc, layout, vtable_addr });
        proof {
            assert(self.classes@.subrange(0, id as int) =~= old(self).classes@);
        }
        Some(id)
    }

    /// Builds one instance of a registered class by the two-phase
    /// construction: the proxy is allocated first, carrying the task group
    /// and a null owner; the owner is allocated embedding the proxy's
    /// address; and the proxy's back-pointer is then patched to the owner.
    /// For every task group, the sentinel included, the proxy's recorded
    /// owner address equals the address of the task that was constructed.
    /// Fails only when the modelled address space is exhausted.
    pub fn new_task(&mut self, class: usize, task_group: CSTaskGroup, extra: Vec<u64>) -> (r:
        Option<usize>)
        requires
            old(self).wf(),
            class < old(self).classes@.len(),
            extra@.len() == old(self).classes@[class as int].desc.ctor_params@.len(),
        ensures
            r is Some <==> old(self).next_addr + PROXY_OBJECT_SIZE + old(self).classes@[
                class as int
            ].layout.size <= u64::MAX,
            r is None ==> {
                &&& final (self).classes == old(self).classes
                &&& final (self).tasks == old(self).tasks
                &&& final (self).proxies == old(self).proxies
                &&& final (self).wf()
            },
            r matches Option::Some(t) ==> {
                &&& final (self).wf()
                &&& t == old(self).tasks@.len()
                &&& final (self).classes == old(self).classes
                &&& final (self).tasks@.len() == old(self).tasks@.len() + 1
                &&& final (self).proxies@.len() == old(self).proxies@.len() + 1
                &&& final (self).tasks@.subrange(0, t as int) == old(self).tasks@
                &&& final (self).proxies@.subrange(0, t as int) == old(self).proxies@
                &&& final (self).proxies@.last().data.owner == final (self).tasks@.last().addr
                &&& final (self).proxies@.last().data.task_group == task_group
                &&& final (self).tasks@.last().data.proxy == final (self).proxies@.last().addr
                &&& final (self).tasks@.last().class == class
                &&& final (self).tasks@.last().vtable_addr == old(self).classes@[
                    class as int
                ].vtable_addr
                &&& final (self).tasks@.last().extra == extra
                &&& final (self).tasks@.last().addr != final (self).proxies@.last().addr
            },
    {
        let proxy_addr = match self.take_addrs(PROXY_OBJECT_SIZE) {
            Some(a) => a,
            None => {
                return None;
            },
        };
        let size = self.classes[class].layout.size;
        let task_addr = match self.take_addrs(size) {
            Some(a) => a,
            None => {
                return None;
            },
        };
        let mut proxy_data = CSEzTaskProxyType::new(task_group);
        let task_data = CSEzTaskType::new(proxy_addr);
        proxy_data.set_owner(task_addr);
        let t = self.tasks.len();
        let vtable_addr = self.classes[class].vtable_addr;
        self.proxies.push(
            ProxyObject { addr: proxy_addr, vtable_addr: self.proxy_vtable_addr, data: proxy_data },
        );
        self.tasks.push(TaskObject { addr: task_addr, class, vtable_addr, data: task_data, extra });
        proof {
            assert(self.tasks@.subrange(0, t as int) =~= old(self).tasks@);
            assert(self.proxies@.subrange(0, t as int) =~= old(self).proxies@);
            assert forall|i: int| 0 <= i < self.tasks@.len() implies (
            #[trigger] self.tasks@[i]).data.proxy == self.proxies@[i].addr by {
                if i < t {
                    assert(self.tasks@[i] == old(self).tasks@[i]);
                    assert(self.proxies@[i] == old(self).proxies@[i]);
                }
            }
        }
        Some(t)
    }

    /// The task group an instance was constructed for, read through the
    /// instance's proxy as the foreign scheduler would.
    pub fn get_task_group(&self, task: usize) -> (r: CSTaskGroup)
        requires
            self.wf(),
            task < self.tasks@.len(),
        ensures
            r == self.proxies@[task as int].data.task_group,
    {
        self.proxies[task].data.task_group
    }

    /// The owner address an instance's proxy records.
    pub fn get_owner(&self, task: usize) -> (r: u64)
        requires
            self.wf(),
            task < self.tasks@.len(),
        ensures
            r == self.proxies@[task as int].data.owner,
            r == self.tasks@[task as int].addr,
    {
        self.proxies[task].data.owner
    }
}

/// Two instances are two objects: distinct addresses always; and when they
/// are instances of one class, they reference the identical shared
/// dispatch-table address.
pub proof fn lemma_instances_share_class_table(rt: Runtime, i: int, j: int)
    requires
        rt.wf(),
        0 <= i < j < rt.tasks@.len(),
    ensures
        rt.tasks@[i].addr != rt.tasks@[j].addr,
        rt.tasks@[i].class == rt.tasks@[j].class ==> rt.tasks@[i].vtable_addr == rt.tasks@[
            j
        ].vtable_addr,
{
}

} // verus!
