//! Guest memory of a virtual machine: allocations of host memory, and their
//! mappings into the guest physical address space.
//!
//! The native calls that create the virtual machine and map, unmap or
//! reprotect guest memory are made by the caller. The tracker checks each
//! request before that call, says what the call must be, and records its
//! effect once the native layer has answered with a status code.
use vstd::prelude::*;

use crate::err::{convert_hv_return, error_of, HypervisorError, HV_SUCCESS};
use crate::page_buffer::{
    page_buffer_as_mut_slice, page_buffer_as_slice, page_buffer_bytes, page_buffer_zeroed,
    PageBuffer,
};

verus! {

/// The size of a page.
pub const PAGE_SIZE: usize = 0x10000;

/// Native memory flag: the guest may read.
pub const HV_MEMORY_READ: u64 = 1;

/// Native memory flag: the guest may write.
pub const HV_MEMORY_WRITE: u64 = 2;

/// Native memory flag: the guest may execute.
pub const HV_MEMORY_EXEC: u64 = 4;

/// `size` rounded up to a whole number of pages.
pub open spec fn page_align_up(size: int) -> int {
    if size % (PAGE_SIZE as int) == 0 {
        size
    } else {
        size - size % (PAGE_SIZE as int) + PAGE_SIZE
    }
}

/// Three single-bit flags combine by `|` as by `+`, and each one can be read back by `&`.
proof fn lemma_disjoint_flags(a: u64, b: u64, c: u64)
    requires
        a == 0 || a == 1,
        b == 0 || b == 2,
        c == 0 || c == 4,
    ensures
        (a | b) | c == a + b + c,
        (0u64 | a) | b == a + b,
        0u64 | a == a,
        (0u64 | a) | c == a + c,
        0u64 | b == b,
        (0u64 | b) | c == b + c,
        0u64 | c == c,
        ((a + b + c) as u64) & 1 != 0 <==> a == 1,
        ((a + b + c) as u64) & 2 != 0 <==> b == 2,
        ((a + b + c) as u64) & 4 != 0 <==> c == 4,
{
    assert((a | b) | c == a + b + c) by (bit_vector)
        requires
            a == 0 || a == 1,
            b == 0 || b == 2,
            c == 0 || c == 4,
    ;
    assert(((a + b + c) as u64) & 1 != 0 <==> a == 1) by (bit_vector)
        requires
            a == 0 || a == 1,
            b == 0 || b == 2,
            c == 0 || c == 4,
    ;
    assert(((a + b + c) as u64) & 2 != 0 <==> b == 2) by (bit_vector)
        requires
            a == 0 || a == 1,
            b == 0 || b == 2,
            c == 0 || c == 4,
    ;
    assert(((a + b + c) as u64) & 4 != 0 <==> c == 4) by (bit_vector)
        requires
            a == 0 || a == 1,
            b == 0 || b == 2,
            c == 0 || c == 4,
    ;
    assert(0u64 | a == a && 0u64 | b == b && 0u64 | c == c) by (bit_vector);
    assert((0u64 | a) | b == a + b && (0u64 | a) | c == a + c && (0u64 | b) | c == b + c)
        by (bit_vector)
        requires
            a == 0 || a == 1,
            b == 0 || b == 2,
            c == 0 || c == 4,
    ;
}

/// Rounding up to whole pages gives the number of pages that hold `size`
/// bytes, times the page size.
pub proof fn lemma_page_align_up(size: int)
    requires
        size >= 0,
    ensures
        page_align_up(size) == (size + PAGE_SIZE - 1) / (PAGE_SIZE as int) * PAGE_SIZE,
        page_align_up(size) >= size,
        page_align_up(size) % (PAGE_SIZE as int) == 0,
{
    let p = PAGE_SIZE as int;
    let q = size / p;
    let r = size % p;
    assert(size == q * p + r && 0 <= r < p) by (nonlinear_arith)
        requires
            q == size / p,
            r == size % p,
            p > 0,
    ;
    if r == 0 {
        assert((size + p - 1) / p == q) by (nonlinear_arith)
            requires
                size == q * p,
                p > 0,
        ;
    } else {
        assert((size + p - 1) / p == q + 1) by (nonlinear_arith)
            requires
                size == q * p + r,
                0 < r < p,
        ;
    }
    assert(page_align_up(size) % p == 0) by (nonlinear_arith)
        requires
            page_align_up(size) == (size + p - 1) / p * p,
            p > 0,
    ;
}

/// A whole number of pages that fits in `isize` leaves room for a page less
/// one byte.
proof fn lemma_page_multiple_below_isize_max(n: int)
    requires
        0 <= n <= isize::MAX,
        n % (PAGE_SIZE as int) == 0,
    ensures
        n + PAGE_SIZE - 1 <= isize::MAX,
{
    let p = PAGE_SIZE as int;
    let m = isize::MAX as int + 1;
    assert(m == 0x8000_0000 || m == 0x8000_0000_0000_0000);
    assert(m % p == 0);
    assert(n + p <= m) by (nonlinear_arith)
        requires
            0 <= n < m,
            n % p == 0,
            m % p == 0,
            p > 0,
    ;
}

/// `n` zero bytes.
pub open spec fn zeros(n: int) -> Seq<u8> {
    Seq::new(n as nat, |i: int| 0u8)
}

/// Represent the configuration of a Virtual Machine.
///
/// The platform exposes no configuration yet: the native creation call always
/// receives an empty configuration.
#[derive(Debug)]
pub struct VirtualMachineConfiguration {}

impl VirtualMachineConfiguration {
    /// Create a new Virtual Machine configuration instance.
    pub fn new() -> (r: Result<Self, HypervisorError>)
        ensures
            r is Ok,
    {
        Ok(VirtualMachineConfiguration {  })
    }
}

/// Represent the permission of a memory region.
#[derive(Copy, Clone, Debug, PartialEq, Eq, Structural)]
pub struct MemoryPermission {
    /// Read.
    pub read: bool,
    /// Write.
    pub write: bool,
    /// Execute.
    pub execute: bool,
}

/// The native flag bitmask of a permission.
pub open spec fn memory_flags(p: MemoryPermission) -> u64 {
    ((if p.read { HV_MEMORY_READ } else { 0 }) + (if p.write { HV_MEMORY_WRITE } else { 0 }) + (
    if p.execute {
        HV_MEMORY_EXEC
    } else {
        0
    })) as u64
}

impl MemoryPermission {
    /// Read-only.
    pub fn read_only() -> (p: MemoryPermission)
        ensures
            p.read == true && p.write == false && p.execute == false,
    {
        MemoryPermission { read: true, write: false, execute: false }
    }

    /// Write-only.
    pub fn write_only() -> (p: MemoryPermission)
        ensures
            p.read == false && p.write == true && p.execute == false,
    {
        MemoryPermission { read: false, write: true, execute: false }
    }

    /// Execute-only.
    pub fn execute_only() -> (p: MemoryPermission)
        ensures
            p.read == false && p.write == false && p.execute == true,
    {
        MemoryPermission { read: false, write: false, execute: true }
    }

    /// Read Write.
    pub fn read_write() -> (p: MemoryPermission)
        ensures
            p.read == true && p.write == true && p.execute == false,
    {
        MemoryPermission { read: true, write: true, execute: false }
    }

    /// Read Execute.
    pub fn read_execute() -> (p: MemoryPermission)
        ensures
            p.read == true && p.write == false && p.execute == true,
    {
        MemoryPermission { read: true, write: false, execute: true }
    }

    /// Write Execute.
    pub fn write_execute() -> (p: MemoryPermission)
        ensures
            p.read == false && p.write == true && p.execute == true,
    {
        MemoryPermission { read: false, write: true, execute: true }
    }

    /// Read Write Execute.
    pub fn read_write_execute() -> (p: MemoryPermission)
        ensures
            p.read == true && p.write == true && p.execute == true,
    {
        MemoryPermission { read: true, write: true, execute: true }
    }

    /// Create a new memory permission instance.
    pub fn new(read: bool, write: bool, execute: bool) -> (r: Self)
        ensures
            r.read == read,
            r.write == write,
            r.execute == execute,
    {
        MemoryPermission { read, write, execute }
    }

    /// The native flag bitmask of this permission: one bit for each granted
    /// capability.
    pub fn to_memory_flags(self) -> (r: u64)
        ensures
            r == memory_flags(self),
            r & HV_MEMORY_READ != 0 <==> self.read,
            r & HV_MEMORY_WRITE != 0 <==> self.write,
            r & HV_MEMORY_EXEC != 0 <==> self.execute,
            r < 8,
    {
        let mut result: u64 = 0;
        if self.read {
            result = result | HV_MEMORY_READ;
        }
        if self.write {
            result = result | HV_MEMORY_WRITE;
        }
        if self.execute {
            result = result | HV_MEMORY_EXEC;
        }
        proof {
            let a: u64 = if self.read { 1 } else { 0 };
            let b: u64 = if self.write { 2 } else { 0 };
            let c: u64 = if self.execute { 4 } else { 0 };
            lemma_disjoint_flags(a, b, c);
        }
        result
    }
}

/// Represent a memory mapping of a Virtual Machine.
#[derive(Copy, Clone, Debug, PartialEq, Eq, Structural)]
pub struct VirtualMachineMapping {
    /// The allocation handle associated to this mapping.
    pub allocation_handle: AllocationHandle,
    /// The handle associated to this mapping.
    pub mapping_handle: MappingHandle,
    /// The guest address of the region.
    pub address: u64,
    /// The size of the region.
    pub size: usize,
    /// The memory permission associated with the region.
    pub permission: MemoryPermission,
}

/// Represent an handle to an allocation.
#[derive(Copy, Clone, Debug, PartialEq, Eq, Structural)]
pub struct AllocationHandle(pub u64);

/// Represent an handle to a mapping.
#[derive(Copy, Clone, Debug, PartialEq, Eq, Structural)]
pub struct MappingHandle(pub u64);

/// The native mapping call that a checked request to map an allocation needs:
/// the allocation's memory (see `VirtualMachine::get_allocation_slice`) goes
/// to `address` in the guest, over `size` bytes, with the flags `flags`.
#[derive(Copy, Clone, Debug, PartialEq, Eq, Structural)]
pub struct MapRequest {
    /// The guest address of the region.
    pub address: u64,
    /// The size of the region.
    pub size: usize,
    /// The native flag bitmask of the permission.
    pub flags: u64,
}

/// An utility to manipulate counters.
#[derive(Debug)]
struct Counter(u64);

impl Counter {
    /// The last value handed out (0 before the first one).
    pub closed spec fn value(&self) -> u64 {
        self.0
    }

    /// Gets the next value on the counter
    pub fn get_next_value(&mut self) -> (r: u64)
        requires
            old(self).value() < u64::MAX,
        ensures
            final(self).value() == old(self).value() + 1,
            r == final(self).value(),
    {
        self.0 = self.0 + 1;
        self.0
    }
}

/// Represent a Virtual Machine allocation.
#[derive(Debug)]
struct VirtualMachineAllocation {
    /// The zero-initialized, page-aligned memory, a whole number of pages.
    memory: PageBuffer,
    /// Associated handle.
    handle: AllocationHandle,
}

impl VirtualMachineAllocation {
    /// Create a new allocation of `size` bytes, rounded up to whole pages.
    fn new(size: usize) -> (r: Self)
        requires
            size + PAGE_SIZE - 1 <= isize::MAX,
        ensures
            page_buffer_bytes(r.memory) == zeros(page_align_up(size as int)),
            r.handle == AllocationHandle(0),
    {
        let rem: usize = size % PAGE_SIZE;
        let rounded: usize = if rem == 0 {
            size
        } else {
            size - rem + PAGE_SIZE
        };
        proof {
            lemma_page_align_up(size as int);
            lemma_page_multiple_below_isize_max(rounded as int);
        }
        let memory = page_buffer_zeroed(rounded);
        VirtualMachineAllocation { memory, handle: AllocationHandle(0) }
    }
}

/// Represent the instance of a Virtual Machine.
///
/// It owns the guest memory allocations and the record of their mappings.
/// There should be only one instance living in the same process.
#[derive(Debug)]
pub struct VirtualMachine {
    /// Counter used for allocation identifier.
    allocation_counter: Counter,
    /// Counter used for mapping identifier.
    mapping_counter: Counter,
    /// List of all allocations.
    allocation_list: Vec<VirtualMachineAllocation>,
    /// List of all mappings.
    mapping_list: Vec<VirtualMachineMapping>,
}

impl VirtualMachine {
    /// The allocations, in the order they were made: each one's handle and memory.
    pub closed spec fn allocations(&self) -> Seq<(AllocationHandle, Seq<u8>)> {
        self.allocation_list@.map_values(
            |a: VirtualMachineAllocation| (a.handle, page_buffer_bytes(a.memory)),
        )
    }

    /// The live mappings, in the order they were made.
    pub closed spec fn mappings(&self) -> Seq<VirtualMachineMapping> {
        self.mapping_list@
    }

    /// The last allocation handle issued (0 before the first one).
    pub closed spec fn last_allocation_handle(&self) -> u64 {
        self.allocation_counter.0
    }

    /// The last mapping handle issued (0 before the first one).
    pub closed spec fn last_mapping_handle(&self) -> u64 {
        self.mapping_counter.0
    }

    /// Whether an allocation with handle `h` exists.
    pub open spec fn has_allocation(&self, h: AllocationHandle) -> bool {
        exists|i: int| 0 <= i < self.allocations().len() && #[trigger] self.allocations()[i].0 == h
    }

    /// The position of the allocation with handle `h`.
    pub open spec fn allocation_index(&self, h: AllocationHandle) -> int {
        choose|i: int| 0 <= i < self.allocations().len() && #[trigger] self.allocations()[i].0 == h
    }

    /// The memory of the allocation with handle `h`.
    pub open spec fn allocation_bytes(&self, h: AllocationHandle) -> Seq<u8> {
        self.allocations()[self.allocation_index(h)].1
    }

    /// Whether some live mapping maps the allocation with handle `h`.
    pub open spec fn is_mapped(&self, h: AllocationHandle) -> bool {
        exists|i: int|
            0 <= i < self.mappings().len() && #[trigger] self.mappings()[i].allocation_handle == h
    }

    /// Whether a live mapping with handle `m` exists.
    pub open spec fn has_mapping(&self, m: MappingHandle) -> bool {
        exists|i: int| 0 <= i < self.mappings().len() && #[trigger] self.mappings()[i].mapping_handle == m
    }

    /// The position of the mapping with handle `m`.
    pub open spec fn mapping_index(&self, m: MappingHandle) -> int {
        choose|i: int| 0 <= i < self.mappings().len() && #[trigger] self.mappings()[i].mapping_handle == m
    }

    /// The record of the mapping with handle `m`.
    pub open spec fn mapping(&self, m: MappingHandle) -> VirtualMachineMapping {
        self.mappings()[self.mapping_index(m)]
    }

    /// No two allocations share a handle.
    pub open spec fn allocation_handles_unique(&self) -> bool {
        forall|i: int, j: int|
            0 <= i < self.allocations().len() && 0 <= j < self.allocations().len() && i != j
                ==> #[trigger] self.allocations()[i].0 != #[trigger] self.allocations()[j].0
    }

    /// No two live mappings share a handle.
    pub open spec fn mapping_handles_unique(&self) -> bool {
        forall|i: int, j: int|
            0 <= i < self.mappings().len() && 0 <= j < self.mappings().len() && i != j
                ==> #[trigger] self.mappings()[i].mapping_handle
                != #[trigger] self.mappings()[j].mapping_handle
    }

    /// Mapping `m` maps a live allocation, whole.
    pub open spec fn backs(&self, m: VirtualMachineMapping) -> bool {
        &&& self.has_allocation(m.allocation_handle)
        &&& self.allocation_bytes(m.allocation_handle).len() == m.size
    }

    /// The tracker's invariant: handles are unique and were all issued by the
    /// counters; each allocation is a whole number of pages; each mapping maps
    /// a live allocation, whole, at a page-aligned guest address.
    pub open spec fn wf(&self) -> bool {
        let allocs = self.allocations();
        let maps = self.mappings();
        &&& self.allocation_handles_unique()
        &&& forall|i: int|
            0 <= i < allocs.len() ==> 1 <= (#[trigger] allocs[i]).0.0 <= self.last_allocation_handle()
        &&& forall|i: int|
            0 <= i < allocs.len() ==> (#[trigger] allocs[i]).1.len() as int % (PAGE_SIZE as int) == 0
        &&& self.mapping_handles_unique()
        &&& forall|i: int|
            0 <= i < maps.len() ==> 1 <= (#[trigger] maps[i]).mapping_handle.0 <= self.last_mapping_handle()
        &&& forall|i: int| 0 <= i < maps.len() ==> (#[trigger] maps[i]).address % (PAGE_SIZE as u64) == 0
        &&& forall|i: int| 0 <= i < maps.len() ==> self.backs(#[trigger] maps[i])
    }

    /// With unique handles, the allocation at position `i` is the one that its
    /// handle finds.
    pub proof fn lemma_allocation_at(&self, i: int)
        requires
            self.allocation_handles_unique(),
            0 <= i < self.allocations().len(),
        ensures
            self.has_allocation(self.allocations()[i].0),
            self.allocation_index(self.allocations()[i].0) == i,
            self.allocation_bytes(self.allocations()[i].0) == self.allocations()[i].1,
    {
        let h = self.allocations()[i].0;
        assert(self.allocations()[i].0 == h);
        let j = self.allocation_index(h);
        if j != i {
            assert(self.allocations()[j].0 != self.allocations()[i].0);
        }
    }

    /// With unique handles, the mapping at position `i` is the one that its
    /// handle finds.
    pub proof fn lemma_mapping_at(&self, i: int)
        requires
            self.mapping_handles_unique(),
            0 <= i < self.mappings().len(),
        ensures
            self.has_mapping(self.mappings()[i].mapping_handle),
            self.mapping_index(self.mappings()[i].mapping_handle) == i,
            self.mapping(self.mappings()[i].mapping_handle) == self.mappings()[i],
    {
        let m = self.mappings()[i].mapping_handle;
        assert(self.mappings()[i].mapping_handle == m);
        let j = self.mapping_index(m);
        if j != i {
            assert(self.mappings()[j].mapping_handle != self.mappings()[i].mapping_handle);
        }
    }

    /// Where two trackers hold the same allocations, in the same order and of
    /// the same lengths, a mapping is backed in one exactly when in the other.
    proof fn lemma_backs_same_shape(&self, other: &VirtualMachine)
        requires
            self.allocation_handles_unique(),
            self.allocations().len() == other.allocations().len(),
            forall|i: int|
                0 <= i < self.allocations().len() ==> (#[trigger] self.allocations()[i]).0
                    == other.allocations()[i].0 && self.allocations()[i].1.len()
                    == other.allocations()[i].1.len(),
        ensures
            other.allocation_handles_unique(),
            forall|m: VirtualMachineMapping| self.backs(m) ==> #[trigger] other.backs(m),
    {
        assert forall|i: int, j: int|
            0 <= i < other.allocations().len() && 0 <= j < other.allocations().len() && i != j
                implies #[trigger] other.allocations()[i].0 != #[trigger] other.allocations()[j].0 by {
            assert(self.allocations()[i].0 != self.allocations()[j].0);
        }
        assert forall|m: VirtualMachineMapping| self.backs(m) implies #[trigger] other.backs(m) by {
            let k = self.allocation_index(m.allocation_handle);
            assert(self.allocations()[k].0 == m.allocation_handle);
            other.lemma_allocation_at(k);
        }
    }

    /// Rewriting the memory of allocations, without changing their lengths,
    /// keeps the invariant.
    pub proof fn lemma_same_shape_wf(&self, other: &VirtualMachine)
        requires
            self.wf(),
            self.allocations().len() == other.allocations().len(),
            forall|i: int|
                0 <= i < self.allocations().len() ==> (#[trigger] self.allocations()[i]).0
                    == other.allocations()[i].0 && self.allocations()[i].1.len()
                    == other.allocations()[i].1.len(),
            other.mappings() == self.mappings(),
            other.last_allocation_handle() == self.last_allocation_handle(),
            other.last_mapping_handle() == self.last_mapping_handle(),
        ensures
            other.wf(),
    {
        self.lemma_backs_same_shape(other);
        assert forall|i: int| 0 <= i < other.allocations().len() implies 1 <= (
        #[trigger] other.allocations()[i]).0.0 <= other.last_allocation_handle()
            && other.allocations()[i].1.len() as int % (PAGE_SIZE as int) == 0 by {
            assert(self.allocations()[i].0 == other.allocations()[i].0);
        }
        assert forall|i: int| 0 <= i < other.mappings().len() implies other.backs(
            #[trigger] other.mappings()[i],
        ) by {
            assert(self.backs(self.mappings()[i]));
        }
    }

    /// Builds the tracker of a virtual machine whose native creation call
    /// answered `create_status`: empty on success, the native error otherwise.
    pub fn new(create_status: i32) -> (r: Result<VirtualMachine, HypervisorError>)
        ensures
            create_status == HV_SUCCESS <==> r is Ok,
            create_status != HV_SUCCESS ==> r == Err::<VirtualMachine, HypervisorError>(error_of(create_status)),
            r matches Ok(vm) ==> {
                &&& vm.wf()
                &&& vm.allocations().len() == 0
                &&& vm.mappings().len() == 0
                &&& vm.last_allocation_handle() == 0
                &&& vm.last_mapping_handle() == 0
            },
    {
        match convert_hv_return(create_status) {
            Ok(()) => Ok(
                VirtualMachine {
                    allocation_counter: Counter(0),
                    mapping_counter: Counter(0),
                    allocation_list: Vec::new(),
                    mapping_list: Vec::new(),
                },
            ),
            Err(e) => Err(e),
        }
    }

    /// Find an allocation by handle.
    fn find_allocation_by_handle(&self, handle: AllocationHandle) -> (r: Result<
        usize,
        HypervisorError,
    >)
        requires
            self.wf(),
        ensures
            self.has_allocation(handle) <==> r is Ok,
            r matches Ok(i) ==> i < self.allocations().len() && i == self.allocation_index(handle)
                && self.allocations()[i as int].0 == handle,
            r is Err ==> r == Err::<usize, HypervisorError>(HypervisorError::InvalidHandle),
    {
        let mut index: usize = 0;
        while index < self.allocation_list.len()
            invariant
                self.wf(),
                index <= self.allocation_list@.len(),
                self.allocations().len() == self.allocation_list@.len(),
                forall|k: int| 0 <= k < index ==> self.allocations()[k].0 != handle,
            decreases self.allocation_list@.len() - index,
        {
            if self.allocation_list[index].handle == handle {
                proof {
                    self.lemma_allocation_at(index as int);
                }
                return Ok(index);
            }
            index = index + 1;
        }
        Err(HypervisorError::InvalidHandle)
    }

    /// Find a mapping by handle.
    fn find_mapping_by_handle(&self, handle: MappingHandle) -> (r: Result<
        usize,
        HypervisorError,
    >)
        requires
            self.wf(),
        ensures
            self.has_mapping(handle) <==> r is Ok,
            r matches Ok(i) ==> i < self.mappings().len() && i == self.mapping_index(handle)
                && self.mappings()[i as int].mapping_handle == handle,
            r is Err ==> r == Err::<usize, HypervisorError>(HypervisorError::InvalidHandle),
    {
        let mut index: usize = 0;
        while index < self.mapping_list.len()
            invariant
                self.wf(),
                index <= self.mapping_list@.len(),
                forall|k: int| 0 <= k < index ==> self.mappings()[k].mapping_handle != handle,
            decreases self.mapping_list@.len() - index,
        {
            if self.mapping_list[index].mapping_handle == handle {
                proof {
                    self.lemma_mapping_at(index as int);
                }
                return Ok(index);
            }
            index = index + 1;
        }
        Err(HypervisorError::InvalidHandle)
    }

    /// Check if the given allocation handle is mapped.
    pub fn is_allocation_mapped(&self, handle: AllocationHandle) -> (r: bool)
        ensures
            r == self.is_mapped(handle),
    {
        let mut index: usize = 0;
        while index < self.mapping_list.len()
            invariant
                index <= self.mapping_list@.len(),
                forall|k: int| 0 <= k < index ==> self.mappings()[k].allocation_handle != handle,
            decreases self.mapping_list@.len() - index,
        {
            if self.mapping_list[index].allocation_handle == handle {
                assert(self.mappings()[index as int].allocation_handle == handle);
                return true;
            }
            index = index + 1;
        }
        false
    }

    /// Create a new allocation that can be used in the Virtual Machine: `size`
    /// zero bytes, rounded up to whole pages.
    ///
    /// Fails with `NoResources` when the rounded size does not fit in memory
    /// or the allocation handles are exhausted.
    pub fn allocate(&mut self, size: usize) -> (r: Result<AllocationHandle, HypervisorError>)
        requires
            old(self).wf(),
        ensures
            final(self).wf(),
            r is Ok <==> size + PAGE_SIZE - 1 <= isize::MAX && old(self).last_allocation_handle()
                < u64::MAX,
            r matches Ok(h) ==> {
                &&& h.0 == old(self).last_allocation_handle() + 1
                &&& !old(self).has_allocation(h)
                &&& final(self).allocations() == old(self).allocations().push(
                    (h, zeros(page_align_up(size as int))),
                )
                &&& final(self).has_allocation(h)
                &&& final(self).allocation_bytes(h).len() == (size + PAGE_SIZE - 1) / (
                PAGE_SIZE as int) * PAGE_SIZE
                &&& forall|i: int|
                    0 <= i < final(self).allocation_bytes(h).len()
                        ==> #[trigger] final(self).allocation_bytes(h)[i] == 0u8
                &&& final(self).last_allocation_handle() == h.0
                &&& final(self).mappings() == old(self).mappings()
                &&& final(self).last_mapping_handle() == old(self).last_mapping_handle()
            },
            r is Err ==> r == Err::<AllocationHandle, HypervisorError>(HypervisorError::NoResources)
                && *final(self) == *old(self),
    {
        if size > (isize::MAX as usize) - (PAGE_SIZE - 1) || self.allocation_counter.0 == u64::MAX {
            return Err(HypervisorError::NoResources);
        }
        let mut allocation = VirtualMachineAllocation::new(size);
        let handle = AllocationHandle(self.allocation_counter.get_next_value());
        allocation.handle = handle;
        self.allocation_list.push(allocation);
        proof {
            assert(self.allocations() =~= old(self).allocations().push(
                (handle, zeros(page_align_up(size as int))),
            ));
            let n = old(self).allocations().len() as int;
            assert forall|i: int, j: int|
                0 <= i < self.allocations().len() && 0 <= j < self.allocations().len() && i != j
                    implies #[trigger] self.allocations()[i].0 != #[trigger] self.allocations()[j].0 by {
                if i < n && j < n {
                    assert(old(self).allocations()[i].0 != old(self).allocations()[j].0);
                } else if i < n {
                    assert(old(self).allocations()[i].0.0 <= old(self).last_allocation_handle());
                } else if j < n {
                    assert(old(self).allocations()[j].0.0 <= old(self).last_allocation_handle());
                }
            }
            assert forall|i: int| 0 <= i < self.mappings().len() implies self.backs(
                #[trigger] self.mappings()[i],
            ) by {
                let m = old(self).mappings()[i];
                assert(self.mappings()[i] == m);
                assert(old(self).backs(m));
                let k = old(self).allocation_index(m.allocation_handle);
                assert(self.allocations()[k] == old(self).allocations()[k]);
                self.lemma_allocation_at(k);
            }
            if old(self).has_allocation(handle) {
                let k = old(self).allocation_index(handle);
                assert(old(self).allocations()[k].0.0 <= old(self).last_allocation_handle());
            }
            self.lemma_allocation_at(n);
            lemma_page_align_up(size as int);
        }
        Ok(handle)
    }

    /// Create a new allocation from data that can be used in the Virtual
    /// Machine: `source` followed by zero bytes up to whole pages.
    pub fn allocate_from(&mut self, source: &[u8]) -> (r: Result<AllocationHandle, HypervisorError>)
        requires
            old(self).wf(),
        ensures
            final(self).wf(),
            r is Ok <==> source@.len() + PAGE_SIZE - 1 <= isize::MAX
                && old(self).last_allocation_handle() < u64::MAX,
            r matches Ok(h) ==> {
                &&& h.0 == old(self).last_allocation_handle() + 1
                &&& !old(self).has_allocation(h)
                &&& final(self).allocations() == old(self).allocations().push(
                    (
                        h,
                        source@ + zeros(page_align_up(source@.len() as int) - source@.len()),
                    ),
                )
                &&& final(self).has_allocation(h)
                &&& final(self).allocation_bytes(h) == source@ + zeros(
                    page_align_up(source@.len() as int) - source@.len(),
                )
                &&& final(self).last_allocation_handle() == h.0
                &&& final(self).mappings() == old(self).mappings()
                &&& final(self).last_mapping_handle() == old(self).last_mapping_handle()
            },
            r is Err ==> r == Err::<AllocationHandle, HypervisorError>(HypervisorError::NoResources)
                && *final(self) == *old(self),
    {
        let allocation_handle = match self.allocate(source.len()) {
            Ok(h) => h,
            Err(e) => {
                return Err(e);
            },
        };
        let ghost mid = *self;
        proof {
            mid.lemma_allocation_at(mid.allocations().len() - 1);
        }
        if let Ok(destination) = self.get_allocation_slice_mut(allocation_handle) {
            let mut i: usize = 0;
            while i < source.len()
                invariant
                    i <= source@.len(),
                    destination@.len() == page_align_up(source@.len() as int),
                    forall|k: int| 0 <= k < i ==> destination@[k] == source@[k],
                    forall|k: int| i <= k < destination@.len() ==> destination@[k] == 0u8,
                decreases source@.len() - i,
            {
                destination[i] = source[i];
                i = i + 1;
            }
            proof {
                assert(destination@ =~= source@ + zeros(
                    page_align_up(source@.len() as int) - source@.len(),
                ));
            }
            proof {
                let k = mid.allocations().len() - 1;
                assert forall|j: int| 0 <= j < mid.allocations().len() implies (
                #[trigger] mid.allocations()[j]).0 == self.allocations()[j].0
                    && mid.allocations()[j].1.len() == self.allocations()[j].1.len() by {
                    if j == k {
                        mid.lemma_allocation_at(k);
                    }
                }
                mid.lemma_same_shape_wf(&*self);
                self.lemma_allocation_at(k);
            }
            Ok(allocation_handle)
        } else {
            Err(HypervisorError::NoResources)
        }
    }

    /// Destroy an allocation from the Virtual Machine.
    ///
    /// Fails with `InvalidHandle` when no allocation has that handle, and with
    /// `AllocationStillMapped` while a mapping of it is live.
    pub fn deallocate(&mut self, allocation_handle: AllocationHandle) -> (r: Result<(), HypervisorError>)
        requires
            old(self).wf(),
        ensures
            final(self).wf(),
            !old(self).has_allocation(allocation_handle) ==> r == Err::<(), HypervisorError>(
                HypervisorError::InvalidHandle,
            ) && *final(self) == *old(self),
            old(self).has_allocation(allocation_handle) && old(self).is_mapped(allocation_handle) ==> r
                == Err::<(), HypervisorError>(HypervisorError::AllocationStillMapped) && *final(self)
                == *old(self),
            old(self).has_allocation(allocation_handle) && !old(self).is_mapped(allocation_handle) ==> {
                &&& r == Ok::<(), HypervisorError>(())
                &&& final(self).allocations() == old(self).allocations().remove(
                    old(self).allocation_index(allocation_handle),
                )
                &&& !final(self).has_allocation(allocation_handle)
                &&& final(self).mappings() == old(self).mappings()
                &&& final(self).last_allocation_handle() == old(self).last_allocation_handle()
                &&& final(self).last_mapping_handle() == old(self).last_mapping_handle()
            },
    {
        let index = match self.find_allocation_by_handle(allocation_handle) {
            Ok(index) => index,
            Err(e) => {
                return Err(e);
            },
        };
        // Ensure it's not in use.
        if self.is_allocation_mapped(allocation_handle) {
            return Err(HypervisorError::AllocationStillMapped);
        }
        let ghost old_vm = *self;
        self.allocation_list.remove(index);
        proof {
            let k = index as int;
            assert(self.allocations() =~= old_vm.allocations().remove(k));
            assert forall|i: int, j: int|
                0 <= i < self.allocations().len() && 0 <= j < self.allocations().len() && i != j
                    implies #[trigger] self.allocations()[i].0 != #[trigger] self.allocations()[j].0 by {
                let oi = if i < k { i } else { i + 1 };
                let oj = if j < k { j } else { j + 1 };
                assert(old_vm.allocations()[oi].0 != old_vm.allocations()[oj].0);
            }
            assert forall|i: int| 0 <= i < self.mappings().len() implies self.backs(
                #[trigger] self.mappings()[i],
            ) by {
                let m = old_vm.mappings()[i];
                assert(self.mappings()[i] == m);
                assert(old_vm.backs(m));
                assert(m.allocation_handle != allocation_handle);
                let j = old_vm.allocation_index(m.allocation_handle);
                let nj = if j < k { j } else { j - 1 };
                assert(self.allocations()[nj] == old_vm.allocations()[j]);
                self.lemma_allocation_at(nj);
            }
            if self.has_allocation(allocation_handle) {
                let j = self.allocation_index(allocation_handle);
                let oj = if j < k { j } else { j + 1 };
                assert(old_vm.allocations()[oj].0 == allocation_handle);
                assert(old_vm.allocations()[oj].0 != old_vm.allocations()[k].0);
            }
        }
        Ok(())
    }

    /// Gets a slice to an allocation with its handle.
    pub fn get_allocation_slice(&self, allocation_handle: AllocationHandle) -> (r: Result<
        &[u8],
        HypervisorError,
    >)
        requires
            self.wf(),
        ensures
            self.has_allocation(allocation_handle) <==> r is Ok,
            r matches Ok(s) ==> s@ == self.allocation_bytes(allocation_handle),
            r matches Err(e) ==> e == HypervisorError::InvalidHandle,
    {
        let index = match self.find_allocation_by_handle(allocation_handle) {
            Ok(index) => index,
            Err(e) => {
                return Err(e);
            },
        };
        Ok(page_buffer_as_slice(&self.allocation_list[index].memory))
    }

    /// Gets a mutable slice to an allocation with its handle.
    ///
    /// The guest may read the memory of a mapped allocation while it runs: the
    /// caller must not write it then. Writing through the slice keeps the
    /// invariant (see `lemma_same_shape_wf`).
    pub fn get_allocation_slice_mut(&mut self, allocation_handle: AllocationHandle) -> (r: Result<
        &mut [u8],
        HypervisorError,
    >)
        requires
            old(self).wf(),
        ensures
            old(self).has_allocation(allocation_handle) <==> r is Ok,
            r matches Ok(s) ==> s@ == old(self).allocation_bytes(allocation_handle),
            r matches Ok(s) ==> final(self).allocations() == old(self).allocations().update(
                old(self).allocation_index(allocation_handle),
                (allocation_handle, final(s)@),
            ),
            r is Ok ==> final(self).mappings() == old(self).mappings(),
            r is Ok ==> final(self).last_allocation_handle() == old(self).last_allocation_handle(),
            r is Ok ==> final(self).last_mapping_handle() == old(self).last_mapping_handle(),
            r matches Err(e) ==> e == HypervisorError::InvalidHandle && *final(self) == *old(self),
    {
        let index = match self.find_allocation_by_handle(allocation_handle) {
            Ok(index) => index,
            Err(e) => {
                return Err(e);
            },
        };
        let s = page_buffer_as_mut_slice(&mut self.allocation_list[index].memory);
        Ok(s)
    }

    /// Gets the information about a mapping from its handle.
    pub fn get_mapping_info(&self, mapping_handle: MappingHandle) -> (r: Result<
        VirtualMachineMapping,
        HypervisorError,
    >)
        requires
            self.wf(),
        ensures
            self.has_mapping(mapping_handle) ==> r == Ok::<VirtualMachineMapping, HypervisorError>(
                self.mapping(mapping_handle),
            ),
            !self.has_mapping(mapping_handle) ==> r == Err::<VirtualMachineMapping, HypervisorError>(
                HypervisorError::InvalidHandle,
            ),
    {
        match self.find_mapping_by_handle(mapping_handle) {
            Ok(index) => Ok(self.mapping_list[index]),
            Err(e) => Err(e),
        }
    }

    /// Get a list of all mapping informations, in the order they were made.
    pub fn get_all_mapping_infos(&self) -> (r: Vec<VirtualMachineMapping>)
        ensures
            r@ == self.mappings(),
    {
        let mut result: Vec<VirtualMachineMapping> = Vec::new();
        let mut index: usize = 0;
        while index < self.mapping_list.len()
            invariant
                index <= self.mapping_list@.len(),
                result@ == self.mappings().subrange(0, index as int),
            decreases self.mapping_list@.len() - index,
        {
            result.push(self.mapping_list[index]);
            index = index + 1;
            assert(result@ =~= self.mappings().subrange(0, index as int));
        }
        assert(result@ =~= self.mappings());
        result
    }

    /// Why a request to map allocation `h` at `guest_address` is refused
    /// before any native call, if it is.
    pub open spec fn map_refusal(&self, h: AllocationHandle, guest_address: u64) -> Option<
        HypervisorError,
    > {
        if !self.has_allocation(h) {
            Some(HypervisorError::InvalidHandle)
        } else if guest_address % (PAGE_SIZE as u64) != 0 {
            Some(HypervisorError::MisalignedAddress)
        } else if self.last_mapping_handle() == u64::MAX {
            Some(HypervisorError::NoResources)
        } else {
            None
        }
    }

    /// Checks a request to map an allocation at a guest address, and says
    /// which native mapping call it needs: the allocation's whole memory, at
    /// that address, with the permission's flags.
    ///
    /// Fails with `InvalidHandle` when no allocation has that handle, with
    /// `MisalignedAddress` when the address is not a multiple of the page
    /// size, and with `NoResources` when the mapping handles are exhausted.
    pub fn map_request(
        &self,
        allocation_handle: AllocationHandle,
        guest_address: u64,
        permission: MemoryPermission,
    ) -> (r: Result<MapRequest, HypervisorError>)
        requires
            self.wf(),
        ensures
            self.map_refusal(allocation_handle, guest_address) matches Some(e) ==> r
                == Err::<MapRequest, HypervisorError>(e),
            self.map_refusal(allocation_handle, guest_address) is None ==> r == Ok::<
                MapRequest,
                HypervisorError,
            >(
                (MapRequest {
                    address: guest_address,
                    size: self.allocation_bytes(allocation_handle).len() as usize,
                    flags: memory_flags(permission),
                }),
            ),
    {
        let index = match self.find_allocation_by_handle(allocation_handle) {
            Ok(index) => index,
            Err(e) => {
                return Err(e);
            },
        };
        let allocation_size = page_buffer_as_slice(&self.allocation_list[index].memory).len();
        if guest_address % (PAGE_SIZE as u64) != 0 {
            return Err(HypervisorError::MisalignedAddress);
        }
        if self.mapping_counter.0 == u64::MAX {
            return Err(HypervisorError::NoResources);
        }
        Ok(
            MapRequest {
                address: guest_address,
                size: allocation_size,
                flags: permission.to_memory_flags(),
            },
        )
    }

    /// Map an allocation in the Virtual Machine, once the native mapping call
    /// that `map_request` described has answered `status`.
    ///
    /// The request is checked again, and refused as `map_request` refuses it.
    /// A failing status is returned as its error and records nothing; on
    /// success the mapping is recorded under a fresh handle.
    pub fn map(
        &mut self,
        allocation_handle: AllocationHandle,
        guest_address: u64,
        permission: MemoryPermission,
        status: i32,
    ) -> (r: Result<MappingHandle, HypervisorError>)
        requires
            old(self).wf(),
        ensures
            final(self).wf(),
            old(self).map_refusal(allocation_handle, guest_address) matches Some(e) ==> r
                == Err::<MappingHandle, HypervisorError>(e) && *final(self) == *old(self),
            old(self).map_refusal(allocation_handle, guest_address) is None && status != HV_SUCCESS
                ==> r == Err::<MappingHandle, HypervisorError>(error_of(status)) && *final(self)
                == *old(self),
            old(self).map_refusal(allocation_handle, guest_address) is None && status == HV_SUCCESS
                ==> {
                &&& r == Ok::<MappingHandle, HypervisorError>(
                    MappingHandle((old(self).last_mapping_handle() + 1) as u64),
                )
                &&& !old(self).has_mapping(MappingHandle((old(self).last_mapping_handle() + 1) as u64))
                &&& final(self).mappings() == old(self).mappings().push(
                    VirtualMachineMapping {
                        allocation_handle,
                        mapping_handle: MappingHandle((old(self).last_mapping_handle() + 1) as u64),
                        address: guest_address,
                        size: old(self).allocation_bytes(allocation_handle).len() as usize,
                        permission,
                    },
                )
                &&& final(self).has_mapping(
                    MappingHandle((old(self).last_mapping_handle() + 1) as u64),
                )
                &&& final(self).mapping(MappingHandle((old(self).last_mapping_handle() + 1) as u64))
                    == final(self).mappings().last()
                &&& final(self).is_mapped(allocation_handle)
                &&& final(self).last_mapping_handle() == old(self).last_mapping_handle() + 1
                &&& final(self).allocations() == old(self).allocations()
                &&& final(self).last_allocation_handle() == old(self).last_allocation_handle()
            },
    {
        let index = match self.find_allocation_by_handle(allocation_handle) {
            Ok(index) => index,
            Err(e) => {
                return Err(e);
            },
        };
        let allocation_size = page_buffer_as_slice(&self.allocation_list[index].memory).len();
        if guest_address % (PAGE_SIZE as u64) != 0 {
            return Err(HypervisorError::MisalignedAddress);
        }
        if self.mapping_counter.0 == u64::MAX {
            return Err(HypervisorError::NoResources);
        }
        // Ensure no error got reported
        match convert_hv_return(status) {
            Ok(()) => {},
            Err(e) => {
                return Err(e);
            },
        }
        let mapping_handle = MappingHandle(self.mapping_counter.get_next_value());
        let virtual_mapping = VirtualMachineMapping {
            allocation_handle,
            mapping_handle,
            address: guest_address,
            size: allocation_size,
            permission,
        };
        self.mapping_list.push(virtual_mapping);
        proof {
            let n = old(self).mappings().len() as int;
            assert(self.mappings() =~= old(self).mappings().push(virtual_mapping));
            old(self).lemma_allocation_at(index as int);
            assert forall|i: int, j: int|
                0 <= i < self.mappings().len() && 0 <= j < self.mappings().len() && i != j
                    implies #[trigger] self.mappings()[i].mapping_handle
                    != #[trigger] self.mappings()[j].mapping_handle by {
                if i < n && j < n {
                    assert(old(self).mappings()[i].mapping_handle != old(self).mappings()[j].mapping_handle);
                } else if i < n {
                    assert(old(self).mappings()[i].mapping_handle.0 <= old(self).last_mapping_handle());
                } else if j < n {
                    assert(old(self).mappings()[j].mapping_handle.0 <= old(self).last_mapping_handle());
                }
            }
            assert forall|i: int| 0 <= i < self.mappings().len() implies self.backs(
                #[trigger] self.mappings()[i],
            ) by {
                assert(self.allocations() == old(self).allocations());
                if i < n {
                    assert(old(self).backs(old(self).mappings()[i]));
                } else {
                    assert(self.allocations()[index as int].1.len() == allocation_size);
                }
            }
            if old(self).has_mapping(mapping_handle) {
                let k = old(self).mapping_index(mapping_handle);
                assert(old(self).mappings()[k].mapping_handle.0 <= old(self).last_mapping_handle());
            }
            self.lemma_mapping_at(n);
            assert(self.mappings()[n].allocation_handle == allocation_handle);
        }
        Ok(mapping_handle)
    }

    /// Unmap a given mapping in the Virtual Machine, once the native unmap
    /// call over the mapping's address and size (see `get_mapping_info`) has
    /// answered `status`.
    ///
    /// Fails with `InvalidHandle` when no live mapping has that handle: no
    /// native call is due then. A failing status is returned as its error and
    /// keeps the record; on success the record is removed.
    pub fn unmap(&mut self, mapping_handle: MappingHandle, status: i32) -> (r: Result<
        (),
        HypervisorError,
    >)
        requires
            old(self).wf(),
        ensures
            final(self).wf(),
            !old(self).has_mapping(mapping_handle) ==> r == Err::<(), HypervisorError>(
                HypervisorError::InvalidHandle,
            ) && *final(self) == *old(self),
            old(self).has_mapping(mapping_handle) && status != HV_SUCCESS ==> r == Err::<
                (),
                HypervisorError,
            >(error_of(status)) && *final(self) == *old(self),
            old(self).has_mapping(mapping_handle) && status == HV_SUCCESS ==> {
                &&& r == Ok::<(), HypervisorError>(())
                &&& final(self).mappings() == old(self).mappings().remove(
                    old(self).mapping_index(mapping_handle),
                )
                &&& !final(self).has_mapping(mapping_handle)
                &&& final(self).allocations() == old(self).allocations()
                &&& final(self).last_allocation_handle() == old(self).last_allocation_handle()
                &&& final(self).last_mapping_handle() == old(self).last_mapping_handle()
            },
    {
        let index = match self.find_mapping_by_handle(mapping_handle) {
            Ok(index) => index,
            Err(e) => {
                return Err(e);
            },
        };
        // Ensure no error got reported
        match convert_hv_return(status) {
            Ok(()) => {},
            Err(e) => {
                return Err(e);
            },
        }
        let ghost old_vm = *self;
        self.mapping_list.remove(index);
        proof {
            let k = index as int;
            assert(self.mappings() =~= old_vm.mappings().remove(k));
            assert forall|i: int, j: int|
                0 <= i < self.mappings().len() && 0 <= j < self.mappings().len() && i != j
                    implies #[trigger] self.mappings()[i].mapping_handle
                    != #[trigger] self.mappings()[j].mapping_handle by {
                let oi = if i < k { i } else { i + 1 };
                let oj = if j < k { j } else { j + 1 };
                assert(old_vm.mappings()[oi].mapping_handle != old_vm.mappings()[oj].mapping_handle);
            }
            assert forall|i: int| 0 <= i < self.mappings().len() implies self.backs(
                #[trigger] self.mappings()[i],
            ) by {
                let oi = if i < k { i } else { i + 1 };
                assert(self.allocations() == old_vm.allocations());
                assert(old_vm.backs(old_vm.mappings()[oi]));
            }
            if self.has_mapping(mapping_handle) {
                let j = self.mapping_index(mapping_handle);
                let oj = if j < k { j } else { j + 1 };
                assert(old_vm.mappings()[oj].mapping_handle == mapping_handle);
                assert(old_vm.mappings()[oj].mapping_handle != old_vm.mappings()[k].mapping_handle);
            }
        }
        Ok(())
    }

    /// Change memory permissions of a given mapping in the Virtual Machine,
    /// once the native protect call over the mapping's address and size, with
    /// the new permission's flags, has answered `status`.
    ///
    /// Fails with `InvalidHandle` when no live mapping has that handle: no
    /// native call is due then. A failing status is returned as its error and
    /// keeps the record; on success only the recorded permission changes.
    pub fn reprotect(&mut self, mapping_handle: MappingHandle, permission: MemoryPermission, status: i32) -> (r: Result<
        (),
        HypervisorError,
    >)
        requires
            old(self).wf(),
        ensures
            final(self).wf(),
            !old(self).has_mapping(mapping_handle) ==> r == Err::<(), HypervisorError>(
                HypervisorError::InvalidHandle,
            ) && *final(self) == *old(self),
            old(self).has_mapping(mapping_handle) && status != HV_SUCCESS ==> r == Err::<
                (),
                HypervisorError,
            >(error_of(status)) && *final(self) == *old(self),
            old(self).has_mapping(mapping_handle) && status == HV_SUCCESS ==> {
                &&& r == Ok::<(), HypervisorError>(())
                &&& final(self).mappings() == old(self).mappings().update(
                    old(self).mapping_index(mapping_handle),
                    VirtualMachineMapping { permission, ..old(self).mapping(mapping_handle) },
                )
                &&& final(self).has_mapping(mapping_handle)
                &&& final(self).mapping(mapping_handle) == (VirtualMachineMapping {
                    permission,
                    ..old(self).mapping(mapping_handle)
                })
                &&& final(self).allocations() == old(self).allocations()
                &&& final(self).last_allocation_handle() == old(self).last_allocation_handle()
                &&& final(self).last_mapping_handle() == old(self).last_mapping_handle()
            },
    {
        let index = match self.find_mapping_by_handle(mapping_handle) {
            Ok(index) => index,
            Err(e) => {
                return Err(e);
            },
        };
        // Ensure no error got reported
        match convert_hv_return(status) {
            Ok(()) => {},
            Err(e) => {
                return Err(e);
            },
        }
        let ghost old_vm = *self;
        let mut mapping = self.mapping_list[index];
        mapping.permission = permission;
        self.mapping_list.set(index, mapping);
        proof {
            let k = index as int;
            assert(self.mappings() =~= old_vm.mappings().update(k, mapping));
            assert forall|i: int, j: int|
                0 <= i < self.mappings().len() && 0 <= j < self.mappings().len() && i != j
                    implies #[trigger] self.mappings()[i].mapping_handle
                    != #[trigger] self.mappings()[j].mapping_handle by {
                assert(old_vm.mappings()[i].mapping_handle != old_vm.mappings()[j].mapping_handle);
            }
            assert forall|i: int| 0 <= i < self.mappings().len() implies self.backs(
                #[trigger] self.mappings()[i],
            ) by {
                assert(self.allocations() == old_vm.allocations());
                assert(old_vm.backs(old_vm.mappings()[i]));
            }
            self.lemma_mapping_at(k);
        }
        Ok(())
    }
}

/// A request to map a live allocation at a guest address that is not a
/// multiple of the page size is refused as misaligned, whatever the
/// permission: `map_request` and `map` then fail with `MisalignedAddress`
/// and change nothing.
pub proof fn law_misaligned_map_refused(
    vm: VirtualMachine,
    allocation_handle: AllocationHandle,
    guest_address: u64,
)
    requires
        vm.wf(),
        vm.has_allocation(allocation_handle),
        guest_address % (PAGE_SIZE as u64) != 0,
    ensures
        vm.map_refusal(allocation_handle, guest_address) == Some(HypervisorError::MisalignedAddress),
{
}

/// Once a mapping is unmapped, no recorded mapping carries its handle: the
/// list of mappings does not show it, and unmapping it again fails with
/// `InvalidHandle`.
pub proof fn law_unmapped_handle_is_gone(
    before: VirtualMachine,
    after: VirtualMachine,
    mapping_handle: MappingHandle,
)
    requires
        before.wf(),
        before.has_mapping(mapping_handle),
        after.mappings() == before.mappings().remove(before.mapping_index(mapping_handle)),
    ensures
        forall|i: int|
            0 <= i < after.mappings().len() ==> (#[trigger] after.mappings()[i]).mapping_handle
                != mapping_handle,
        !after.has_mapping(mapping_handle),
{
    let k = before.mapping_index(mapping_handle);
    assert forall|i: int| 0 <= i < after.mappings().len() implies (
    #[trigger] after.mappings()[i]).mapping_handle != mapping_handle by {
        let oi = if i < k { i } else { i + 1 };
        assert(after.mappings()[i] == before.mappings()[oi]);
        assert(before.mappings()[oi].mapping_handle != before.mappings()[k].mapping_handle);
    }
}

/// Mapping an allocation and then unmapping the new mapping leaves the list
/// of mappings as it was.
pub proof fn law_map_then_unmap(
    before: VirtualMachine,
    mapped: VirtualMachine,
    after: VirtualMachine,
    record: VirtualMachineMapping,
)
    requires
        before.wf(),
        mapped.wf(),
        !before.has_mapping(record.mapping_handle),
        mapped.mappings() == before.mappings().push(record),
        after.mappings() == mapped.mappings().remove(mapped.mapping_index(record.mapping_handle)),
    ensures
        after.mappings() == before.mappings(),
        !after.has_mapping(record.mapping_handle),
{
    let n = before.mappings().len() as int;
    mapped.lemma_mapping_at(n);
    assert(after.mappings() =~= before.mappings());
    assert(!after.has_mapping(record.mapping_handle));
}

/// Reprotecting a live mapping changes its recorded permission and nothing
/// else: it keeps its handle, allocation, address and size, and every other
/// mapping is found as before.
pub proof fn law_reprotect_changes_only_permission(
    before: VirtualMachine,
    after: VirtualMachine,
    mapping_handle: MappingHandle,
    permission: MemoryPermission,
)
    requires
        before.wf(),
        before.has_mapping(mapping_handle),
        after.mappings() == before.mappings().update(
            before.mapping_index(mapping_handle),
            VirtualMachineMapping { permission, ..before.mapping(mapping_handle) },
        ),
    ensures
        after.has_mapping(mapping_handle),
        after.mapping(mapping_handle) == (VirtualMachineMapping {
            permission,
            ..before.mapping(mapping_handle)
        }),
        after.mapping(mapping_handle).allocation_handle == before.mapping(
            mapping_handle,
        ).allocation_handle,
        after.mapping(mapping_handle).address == before.mapping(mapping_handle).address,
        after.mapping(mapping_handle).size == before.mapping(mapping_handle).size,
        forall|other: MappingHandle|
            other != mapping_handle ==> #[trigger] after.has_mapping(other) == before.has_mapping(
                other,
            ),
        forall|other: MappingHandle|
            other != mapping_handle && before.has_mapping(other) ==> #[trigger] after.mapping(other)
                == before.mapping(other),
{
    let k = before.mapping_index(mapping_handle);
    assert forall|i: int, j: int|
        0 <= i < after.mappings().len() && 0 <= j < after.mappings().len() && i != j
            implies #[trigger] after.mappings()[i].mapping_handle
            != #[trigger] after.mappings()[j].mapping_handle by {
        assert(before.mappings()[i].mapping_handle != before.mappings()[j].mapping_handle);
    }
    after.lemma_mapping_at(k);
    assert forall|other: MappingHandle| other != mapping_handle implies #[trigger] after.has_mapping(
        other,
    ) == before.has_mapping(other) && (before.has_mapping(other) ==> after.mapping(other)
        == before.mapping(other)) by {
        if before.has_mapping(other) {
            let j = before.mapping_index(other);
            assert(before.mappings()[j].mapping_handle == other);
            assert(j != k);
            assert(after.mappings()[j] == before.mappings()[j]);
            after.lemma_mapping_at(j);
        }
        if after.has_mapping(other) {
            let j = after.mapping_index(other);
            assert(after.mappings()[j].mapping_handle == other);
            assert(j != k);
            assert(before.mappings()[j] == after.mappings()[j]);
            assert(before.has_mapping(other));
        }
    }
    assert forall|other: MappingHandle|
        other != mapping_handle && before.has_mapping(other) implies #[trigger] after.mapping(other)
            == before.mapping(other) by {
        assert(after.has_mapping(other) == before.has_mapping(other));
    }
}

} // verus!
