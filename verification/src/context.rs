//! The per-call execution context: the bridge a host function sees. It
//! combines the guest allocator, the live linear memory, the optional
//! indirect-call table and the nested sandbox store, and exposes the
//! bounds-checked capability surface host functions call into.

use vstd::prelude::*;
use crate::allocator::{AllocError, GuestAllocator};
use crate::memory::{spec_write_bytes, LinearMemory};
use crate::module_info::GlobalInfo;
use crate::sandbox::{
    SandboxInstance, SandboxStore, ERR_EXECUTION, ERR_MODULE, ERR_OK, ERR_OUT_OF_BOUNDS,
};
use crate::values::{Pointer, Value};
use crate::wire::{
    decode_env_def, decode_value_list, encode_return_value, spec_decode_value_list,
    spec_encode_return_value, GuestEntity, ReturnValue,
};

verus! {

/// A failure of a host call. Unlike the sandbox status codes, which guest
/// code receives and may recover from, one of these aborts the host call.
#[derive(Copy, Clone, PartialEq, Eq, Structural, Debug)]
pub enum HostError {
    /// A memory access fell outside the guest memory.
    OutOfBounds,
    /// The guest allocator refused the operation.
    Allocation(AllocError),
    /// The module has no indirect-call table, so the sandbox is
    /// unavailable.
    NoTable,
    /// The dispatch thunk index lies outside the table.
    ThunkOutOfBounds,
    /// The dispatch thunk index points at an empty table entry.
    ThunkMissing,
    /// The dispatch thunk yielded something other than a single 64-bit
    /// value.
    UnexpectedThunkResult,
    /// Serialized boundary arguments did not decode.
    BadArguments,
    /// No live sandbox instance has the given id.
    UnknownInstance,
    /// No live sandbox memory has the given id.
    UnknownMemory,
    /// The return value does not fit the guest-provided buffer.
    ReturnValueTooLarge,
    /// The guest-provided return buffer lies outside the guest memory.
    ReturnBufferOutOfBounds,
    /// No host function is registered at the dispatched index.
    UnknownHostFunction,
    /// The guest trapped.
    Trap,
}

/// The guest trapped during a nested execution.
#[derive(Copy, Clone, PartialEq, Eq, Structural, Debug)]
pub struct GuestTrap;

/// Why a child instantiation failed.
#[derive(Copy, Clone, PartialEq, Eq, Structural, Debug)]
pub enum ChildInstantiationError {
    /// The child's start-up code trapped.
    StartTrapped,
    /// The child module was malformed or could not be linked.
    Rejected,
}

/// The engine's executor of guest code, implemented by the embedder over
/// the interpreter primitive. Every method runs guest code synchronously
/// on the caller's stack and may re-enter the context it is handed.
pub trait SandboxRunner: Sized {
    /// Run the start-up code of the child instance just registered under
    /// `instance_id`, whose module bytes are `wasm`.
    fn instantiate_child(
        &mut self,
        ctx: &mut ExecutionContext,
        instance_id: u32,
        wasm: &[u8],
        state: u32,
    ) -> (r: Result<(), ChildInstantiationError>)
        requires
            old(ctx).wf(),
        ensures
            final(ctx).wf(),
            final(ctx).spec_memory().spec_max_pages() == old(ctx).spec_memory().spec_max_pages(),
            final(ctx).spec_store().spec_instances().len() >= old(
                ctx,
            ).spec_store().spec_instances().len(),
    ;

    /// Invoke the export named `export_name` of the child instance
    /// `instance_id` with the given arguments.
    fn invoke_child(
        &mut self,
        ctx: &mut ExecutionContext,
        instance_id: u32,
        export_name: &[u8],
        args: &Vec<Value>,
        state: u32,
    ) -> (r: Result<Option<Value>, GuestTrap>)
        requires
            old(ctx).wf(),
        ensures
            final(ctx).wf(),
            final(ctx).spec_memory().spec_max_pages() == old(ctx).spec_memory().spec_max_pages(),
    ;

    /// Call the outer module's function `thunk_func` — taken from its
    /// indirect-call table — with the fixed four-argument dispatch-thunk
    /// convention.
    fn invoke_thunk(
        &mut self,
        ctx: &mut ExecutionContext,
        thunk_func: u32,
        invoke_args_ptr: Pointer<u8>,
        invoke_args_len: u32,
        state: u32,
        func_idx: u32,
    ) -> (r: Result<Option<Value>, GuestTrap>)
        requires
            old(ctx).wf(),
        ensures
            final(ctx).wf(),
            final(ctx).spec_memory().spec_max_pages() == old(ctx).spec_memory().spec_max_pages(),
    ;

    /// Invoke the export named `method` of the top-level instance with the
    /// given arguments, updating the modeled globals to what the guest
    /// leaves behind. Guest execution can change the values of mutable
    /// globals only: the count, order, mutability and immutable values of
    /// the globals survive every call.
    fn invoke_export(
        &mut self,
        ctx: &mut ExecutionContext,
        globals: &mut Vec<GlobalInfo>,
        method: &[u8],
        args: &Vec<Value>,
    ) -> (r: Result<Option<Value>, GuestTrap>)
        requires
            old(ctx).wf(),
        ensures
            final(ctx).wf(),
            final(ctx).spec_memory().spec_max_pages() == old(ctx).spec_memory().spec_max_pages(),
            final(globals)@.len() == old(globals)@.len(),
            forall|i: int|
                0 <= i < old(globals)@.len() ==> (#[trigger] final(globals)@[i]).mutable == old(
                    globals,
                )@[i].mutable && (!old(globals)@[i].mutable ==> final(globals)@[i].value == old(
                    globals,
                )@[i].value),
    ;
}

/// The dispatch thunk must yield exactly one 64-bit value; any other
/// returned shape is a fatal error for the host call.
pub fn expect_i64_result(r: Result<Option<Value>, GuestTrap>) -> (out: Result<i64, HostError>)
    ensures
        out is Ok <==> r matches Ok(Some(Value::I64(_))),
        out is Ok ==> r == Ok::<Option<Value>, GuestTrap>(Some(Value::I64(out->Ok_0))),
        r is Err ==> out == Err::<i64, HostError>(HostError::Trap),
        (r is Ok && !(r matches Ok(Some(Value::I64(_))))) ==> out == Err::<i64, HostError>(
            HostError::UnexpectedThunkResult,
        ),
{
    match r {
        Ok(Some(Value::I64(v))) => Ok(v),
        Ok(_) => Err(HostError::UnexpectedThunkResult),
        Err(GuestTrap) => Err(HostError::Trap),
    }
}

/// What the first import-map entry named (`module`, `field`) binds, if
/// any entry carries that name.
pub open spec fn spec_find_env_entity(
    env: Seq<crate::wire::EnvEntry>,
    module: Seq<u8>,
    field: Seq<u8>,
) -> Option<GuestEntity>
    decreases env.len(),
{
    if env.len() == 0 {
        None
    } else if env[0].module@ == module && env[0].field@ == field {
        Some(env[0].entity)
    } else {
        spec_find_env_entity(env.drop_first(), module, field)
    }
}

/// Look an import up in the import map by exact module and field name; the
/// first entry with the names wins.
pub fn find_env_entity(
    env: &Vec<crate::wire::EnvEntry>,
    module: &[u8],
    field: &[u8],
) -> (r: Option<GuestEntity>)
    ensures
        r == spec_find_env_entity(env@, module@, field@),
{
    let n = env.len();
    proof {
        assert(env@.subrange(0, n as int) =~= env@);
    }
    let mut i: usize = 0;
    while i < n
        invariant
            n == env@.len(),
            i <= n,
            spec_find_env_entity(env@, module@, field@) == spec_find_env_entity(
                env@.subrange(i as int, n as int),
                module@,
                field@,
            ),
        decreases n - i,
    {
        let entry = &env[i];
        proof {
            assert(env@.subrange(i as int, n as int)[0] == env@[i as int]);
            assert(env@.subrange(i as int, n as int).drop_first() =~= env@.subrange(
                i + 1,
                n as int,
            ));
        }
        if crate::module_info::bytes_eq(entry.module.as_slice(), module)
            && crate::module_info::bytes_eq(entry.field.as_slice(), field) {
            return Some(entry.entity);
        }
        i = i + 1;
    }
    proof {
        assert(env@.subrange(n as int, n as int) =~= Seq::<crate::wire::EnvEntry>::empty());
    }
    None
}

/// The per-call execution context.
pub struct ExecutionContext {
    heap: GuestAllocator,
    memory: LinearMemory,
    table: Option<Vec<Option<u32>>>,
    store: SandboxStore,
}

impl ExecutionContext {
    /// The guest allocator.
    pub closed spec fn spec_heap(&self) -> GuestAllocator {
        self.heap
    }

    /// The live linear memory.
    pub closed spec fn spec_memory(&self) -> LinearMemory {
        self.memory
    }

    /// The outer module's indirect-call table, if it has one.
    pub closed spec fn spec_table(&self) -> Option<Vec<Option<u32>>> {
        self.table
    }

    /// The nested sandbox store.
    pub closed spec fn spec_store(&self) -> SandboxStore {
        self.store
    }

    /// The bytes of the live linear memory.
    pub open spec fn spec_memory_bytes(&self) -> Seq<u8> {
        self.spec_memory()@
    }

    /// Structural invariant: every component is well-formed and the
    /// allocator never reaches past the memory.
    pub open spec fn wf(&self) -> bool {
        &&& self.spec_heap().wf()
        &&& self.spec_memory().wf()
        &&& self.spec_store().wf()
        &&& self.spec_heap().spec_bump() <= self.spec_memory()@.len()
    }

    /// Build a context over the given memory, allocating above
    /// `heap_base`, which must lie within the memory.
    pub fn new(heap_base: u32, memory: LinearMemory, table: Option<Vec<Option<u32>>>) -> (r:
        ExecutionContext)
        requires
            memory.wf(),
            (if heap_base >= 8 {
                heap_base
            } else {
                8u32
            }) <= memory@.len(),
        ensures
            r.wf(),
            r.spec_memory() == memory,
            r.spec_table() == table,
            r.spec_heap().spec_base() == crate::allocator::spec_effective_base(heap_base),
            r.spec_heap().spec_bump() == r.spec_heap().spec_base(),
            r.spec_heap().spec_records() == Seq::<crate::allocator::AllocRecord>::empty(),
            forall|a: u32| !r.spec_heap().spec_is_live(a),
            r.spec_store().spec_memories().len() == 0,
            r.spec_store().spec_instances().len() == 0,
    {
        let heap = GuestAllocator::new(heap_base);
        ExecutionContext { heap, memory, table, store: SandboxStore::new() }
    }

    /// Take the context apart, handing its memory back.
    pub fn into_memory(self) -> (r: LinearMemory)
        ensures
            r == self.spec_memory(),
    {
        self.memory
    }

    /// The current guest memory size, in bytes.
    pub fn memory_len(&self) -> (r: u32)
        requires
            self.wf(),
        ensures
            r == self.spec_memory_bytes().len(),
    {
        self.memory.byte_len()
    }

    /// Read `size` bytes of guest memory at `address`; fails exactly when
    /// the range exceeds the memory.
    pub fn read_memory(&self, address: Pointer<u8>, size: u32) -> (r: Result<Vec<u8>, HostError>)
        requires
            self.wf(),
        ensures
            r is Ok <==> address.addr() + size <= self.spec_memory_bytes().len(),
            r is Ok ==> r->Ok_0@ == self.spec_memory_bytes().subrange(
                address.addr() as int,
                address.addr() + size,
            ),
            r is Err ==> r->Err_0 == HostError::OutOfBounds,
    {
        match self.memory.read(address.raw(), size) {
            Ok(v) => Ok(v),
            Err(_) => Err(HostError::OutOfBounds),
        }
    }

    /// Write `data` into guest memory at `address`; fails exactly when the
    /// range exceeds the memory, and then changes nothing.
    pub fn write_memory(&mut self, address: Pointer<u8>, data: &[u8]) -> (r: Result<
        (),
        HostError,
    >)
        requires
            old(self).wf(),
        ensures
            final(self).wf(),
            final(self).spec_heap() == old(self).spec_heap(),
            final(self).spec_table() == old(self).spec_table(),
            final(self).spec_store() == old(self).spec_store(),
            final(self).spec_memory_bytes().len() == old(self).spec_memory_bytes().len(),
            r is Ok <==> address.addr() + data@.len() <= old(self).spec_memory_bytes().len(),
            r is Ok ==> final(self).spec_memory_bytes() == spec_write_bytes(
                old(self).spec_memory_bytes(),
                address.addr() as int,
                data@,
            ),
            r is Err ==> final(self).spec_memory_bytes() == old(self).spec_memory_bytes()
                && r->Err_0 == HostError::OutOfBounds,
    {
        match self.memory.write(address.raw(), data) {
            Ok(()) => Ok(()),
            Err(_) => Err(HostError::OutOfBounds),
        }
    }

    /// Allocate `size` bytes of guest memory through the guest allocator.
    ///
    /// Succeeds exactly when the request is within the size limit and a
    /// freed block of its class exists or a fresh block fits below the
    /// memory's page limit. On success the block is fresh, live, exactly
    /// one size class wide, disjoint from every other live allocation, and
    /// lies inside the memory; existing memory contents are untouched.
    /// Fails only with `OutOfMemory`, changing nothing.
    pub fn allocate_memory(&mut self, size: u32) -> (r: Result<Pointer<u8>, HostError>)
        requires
            old(self).wf(),
        ensures
            final(self).wf(),
            final(self).spec_table() == old(self).spec_table(),
            final(self).spec_store() == old(self).spec_store(),
            final(self).spec_memory_bytes().len() >= old(self).spec_memory_bytes().len(),
            final(self).spec_memory().spec_max_pages() == old(self).spec_memory().spec_max_pages(),
            forall|k: int|
                0 <= k < old(self).spec_memory_bytes().len() ==> final(self).spec_memory_bytes()[k]
                    == old(self).spec_memory_bytes()[k],
            r is Ok <==> size <= crate::allocator::MAX_ALLOCATION
                && (crate::allocator::spec_has_free_block(
                old(self).spec_heap().spec_records(),
                crate::allocator::spec_block_size(size),
            ) || old(self).spec_heap().spec_bump() + crate::allocator::spec_block_size(size)
                <= old(self).spec_memory().spec_max_pages() * crate::memory::PAGE_SIZE),
            r is Ok ==> {
                &&& r->Ok_0.addr() != 0
                &&& !old(self).spec_heap().spec_is_live(r->Ok_0.addr())
                &&& final(self).spec_heap().spec_is_live(r->Ok_0.addr())
                &&& r->Ok_0.addr() + size <= final(self).spec_memory_bytes().len()
                &&& exists|k: int|
                    0 <= k < final(self).spec_heap().spec_records().len() && (
                    #[trigger] final(self).spec_heap().spec_records()[k]).ptr == r->Ok_0.addr()
                        && final(self).spec_heap().spec_records()[k].size
                        == crate::allocator::spec_block_size(size) && final(self).spec_heap().spec_records()[k].live
            },
            (r is Ok && crate::allocator::spec_has_free_block(
                old(self).spec_heap().spec_records(),
                crate::allocator::spec_block_size(size),
            )) ==> {
                &&& final(self).spec_heap().spec_bump() == old(self).spec_heap().spec_bump()
                &&& final(self).spec_heap().spec_records().len() == old(
                    self,
                ).spec_heap().spec_records().len()
                &&& final(self).spec_memory_bytes() == old(self).spec_memory_bytes()
            },
            r is Err ==> {
                &&& final(self).spec_memory_bytes() == old(self).spec_memory_bytes()
                &&& final(self).spec_heap().spec_records() == old(self).spec_heap().spec_records()
                &&& final(self).spec_heap().spec_bump() == old(self).spec_heap().spec_bump()
                &&& r->Err_0 == HostError::Allocation(AllocError::OutOfMemory)
            },
    {
        match self.heap.allocate(&mut self.memory, size) {
            Ok(p) => Ok(p),
            Err(e) => Err(HostError::Allocation(e)),
        }
    }

    /// Free the guest allocation at `ptr`; a null, never-allocated or
    /// already-freed pointer is an explicit error that changes nothing and
    /// leaves every other allocation intact.
    pub fn deallocate_memory(&mut self, ptr: Pointer<u8>) -> (r: Result<(), HostError>)
        requires
            old(self).wf(),
        ensures
            final(self).wf(),
            final(self).spec_table() == old(self).spec_table(),
            final(self).spec_store() == old(self).spec_store(),
            final(self).spec_memory_bytes() == old(self).spec_memory_bytes(),
            r is Ok <==> old(self).spec_heap().spec_is_live(ptr.addr()),
            r is Ok ==> !final(self).spec_heap().spec_is_live(ptr.addr()),
            forall|a: u32|
                a != ptr.addr() ==> final(self).spec_heap().spec_is_live(a) == old(self).spec_heap().spec_is_live(a),
            r is Err ==> r->Err_0 == HostError::Allocation(
                if ptr.addr() != 0 && crate::allocator::spec_contains_ptr(
                    old(self).spec_heap().spec_records(),
                    ptr.addr(),
                ) {
                    AllocError::DoubleFree
                } else {
                    AllocError::InvalidPointer
                },
            ),
    {
        match self.heap.deallocate(ptr) {
            Ok(()) => Ok(()),
            Err(e) => Err(HostError::Allocation(e)),
        }
    }

    /// Create a new sandbox child memory of `initial` pages, growable to
    /// `maximum` pages, and return its id; succeeds exactly when the store
    /// has room for another child and the sizes are admissible.
    pub fn memory_new(&mut self, initial: u32, maximum: u32) -> (r: Result<u32, HostError>)
        requires
            old(self).wf(),
        ensures
            final(self).wf(),
            final(self).spec_heap() == old(self).spec_heap(),
            final(self).spec_table() == old(self).spec_table(),
            final(self).spec_memory_bytes() == old(self).spec_memory_bytes(),
            r is Ok <==> old(self).spec_store().spec_memories().len()
                < crate::sandbox::MAX_SANDBOX_IDS - 1 && initial <= maximum
                <= crate::memory::MAX_MEMORY_PAGES,
            r is Ok ==> final(self).spec_store().spec_memory_live(r->Ok_0) && !old(self).spec_store().spec_memory_live(r->Ok_0),
    {
        match self.store.new_memory(initial, maximum) {
            Ok(id) => Ok(id),
            Err(_) => Err(HostError::Allocation(AllocError::OutOfMemory)),
        }
    }

    /// Tear down the sandbox child memory `id`; its id becomes invalid.
    pub fn memory_teardown(&mut self, memory_id: u32) -> (r: Result<(), HostError>)
        requires
            old(self).wf(),
        ensures
            final(self).wf(),
            final(self).spec_heap() == old(self).spec_heap(),
            final(self).spec_table() == old(self).spec_table(),
            final(self).spec_memory_bytes() == old(self).spec_memory_bytes(),
            r is Ok <==> old(self).spec_store().spec_memory_live(memory_id),
            r is Ok ==> !final(self).spec_store().spec_memory_live(memory_id),
            r is Err ==> r->Err_0 == HostError::UnknownMemory && final(self).spec_store().spec_memories() == old(self).spec_store().spec_memories() && final(self).spec_store().spec_instances() == old(self).spec_store().spec_instances(),
    {
        match self.store.memory_teardown(memory_id) {
            Ok(()) => Ok(()),
            Err(_) => Err(HostError::UnknownMemory),
        }
    }

    /// Copy `buf_len` bytes out of the child memory `memory_id` at
    /// `offset` into guest memory at `buf_ptr`.
    ///
    /// Fails the host call exactly when the id names no live child memory.
    /// Returns the out-of-bounds status — modifying neither memory — when
    /// the source range exceeds the child or the destination range exceeds
    /// the guest memory; otherwise returns the success status having
    /// copied the bytes exactly.
    pub fn memory_get(
        &mut self,
        memory_id: u32,
        offset: u32,
        buf_ptr: Pointer<u8>,
        buf_len: u32,
    ) -> (r: Result<u32, HostError>)
        requires
            old(self).wf(),
        ensures
            final(self).wf(),
            final(self).spec_heap() == old(self).spec_heap(),
            final(self).spec_table() == old(self).spec_table(),
            r is Err <==> !old(self).spec_store().spec_memory_live(memory_id),
            r is Err ==> final(self).spec_memory_bytes() == old(self).spec_memory_bytes() && final(self).spec_store() == old(self).spec_store() && r->Err_0 == HostError::UnknownMemory,
            r is Ok ==> {
                &&& final(self).spec_store() == old(self).spec_store()
                &&& final(self).spec_store().spec_memory_live(memory_id)
                &&& (r->Ok_0 == ERR_OK || r->Ok_0 == ERR_OUT_OF_BOUNDS)
                &&& (r->Ok_0 == ERR_OUT_OF_BOUNDS <==> (offset + buf_len > old(self).spec_store().spec_memory_bytes(memory_id).len() || buf_ptr.addr() + buf_len
                    > old(self).spec_memory_bytes().len()))
                &&& (r->Ok_0 == ERR_OUT_OF_BOUNDS ==> final(self).spec_memory_bytes() == old(self).spec_memory_bytes())
                &&& (r->Ok_0 == ERR_OK ==> final(self).spec_memory_bytes() == spec_write_bytes(
                    old(self).spec_memory_bytes(),
                    buf_ptr.addr() as int,
                    old(self).spec_store().spec_memory_bytes(memory_id).subrange(
                        offset as int,
                        offset + buf_len,
                    ),
                ))
            },
    {
        let child_len = match self.store.memory_len(memory_id) {
            Ok(n) => n,
            Err(_) => {
                return Err(HostError::UnknownMemory);
            },
        };
        let parent_len = self.memory.byte_len();
        if (offset as u64) + (buf_len as u64) > (child_len as u64) || (buf_ptr.raw() as u64) + (
        buf_len as u64) > (parent_len as u64) {
            return Ok(ERR_OUT_OF_BOUNDS);
        }
        let data = match self.store.read_memory_region(memory_id, offset, buf_len) {
            Ok(d) => d,
            Err(_) => {
                return Err(HostError::UnknownMemory);
            },
        };
        match self.memory.write(buf_ptr.raw(), data.as_slice()) {
            Ok(()) => Ok(ERR_OK),
            Err(_) => Err(HostError::OutOfBounds),
        }
    }

    /// Copy `val_len` bytes of guest memory at `val_ptr` into the child
    /// memory `memory_id` at `offset`.
    ///
    /// Fails the host call exactly when the id names no live child memory.
    /// Returns the out-of-bounds status — modifying neither memory — when
    /// the source range exceeds the guest memory or the destination range
    /// exceeds the child; otherwise returns the success status having
    /// copied the bytes exactly.
    pub fn memory_set(
        &mut self,
        memory_id: u32,
        offset: u32,
        val_ptr: Pointer<u8>,
        val_len: u32,
    ) -> (r: Result<u32, HostError>)
        requires
            old(self).wf(),
        ensures
            final(self).wf(),
            final(self).spec_heap() == old(self).spec_heap(),
            final(self).spec_table() == old(self).spec_table(),
            final(self).spec_memory_bytes() == old(self).spec_memory_bytes(),
            r is Err <==> !old(self).spec_store().spec_memory_live(memory_id),
            r is Err ==> final(self).spec_store() == old(self).spec_store() && r->Err_0
                == HostError::UnknownMemory,
            r is Ok ==> {
                &&& final(self).spec_store().spec_memory_live(memory_id)
                &&& (r->Ok_0 == ERR_OK || r->Ok_0 == ERR_OUT_OF_BOUNDS)
                &&& (r->Ok_0 == ERR_OUT_OF_BOUNDS <==> (val_ptr.addr() + val_len > old(self).spec_memory_bytes().len() || offset + val_len > old(self).spec_store().spec_memory_bytes(memory_id).len()))
                &&& (r->Ok_0 == ERR_OUT_OF_BOUNDS ==> final(self).spec_store().spec_memory_bytes(
                    memory_id,
                ) == old(self).spec_store().spec_memory_bytes(memory_id))
                &&& (r->Ok_0 == ERR_OK ==> final(self).spec_store().spec_memory_bytes(memory_id)
                    == spec_write_bytes(
                    old(self).spec_store().spec_memory_bytes(memory_id),
                    offset as int,
                    old(self).spec_memory_bytes().subrange(val_ptr.addr() as int, val_ptr.addr() + val_len),
                ))
                &&& forall|k: u32|
                    #![all_triggers]
                    k != memory_id ==> final(self).spec_store().spec_memory_live(k) == old(self).spec_store().spec_memory_live(k) && (old(self).spec_store().spec_memory_live(
                        k,
                    ) ==> final(self).spec_store().spec_memory_bytes(k) == old(self).spec_store().spec_memory_bytes(k))
            },
    {
        let child_len = match self.store.memory_len(memory_id) {
            Ok(n) => n,
            Err(_) => {
                return Err(HostError::UnknownMemory);
            },
        };
        let parent_len = self.memory.byte_len();
        if (val_ptr.raw() as u64) + (val_len as u64) > (parent_len as u64) || (offset as u64) + (
        val_len as u64) > (child_len as u64) {
            return Ok(ERR_OUT_OF_BOUNDS);
        }
        let data = match self.memory.read(val_ptr.raw(), val_len) {
            Ok(d) => d,
            Err(_) => {
                return Err(HostError::OutOfBounds);
            },
        };
        match self.store.write_memory_region(memory_id, offset, data.as_slice()) {
            Ok(()) => Ok(ERR_OK),
            Err(_) => Err(HostError::UnknownMemory),
        }
    }

    /// Tear down the sandbox child instance `id`; its id becomes invalid.
    pub fn instance_teardown(&mut self, instance_id: u32) -> (r: Result<(), HostError>)
        requires
            old(self).wf(),
        ensures
            final(self).wf(),
            final(self).spec_heap() == old(self).spec_heap(),
            final(self).spec_table() == old(self).spec_table(),
            final(self).spec_memory_bytes() == old(self).spec_memory_bytes(),
            r is Ok <==> old(self).spec_store().spec_instance_live(instance_id),
            r is Ok ==> !final(self).spec_store().spec_instance_live(instance_id),
            r is Err ==> r->Err_0 == HostError::UnknownInstance && final(self).spec_store().spec_memories() == old(self).spec_store().spec_memories() && final(self).spec_store().spec_instances() == old(self).spec_store().spec_instances(),
    {
        match self.store.instance_teardown(instance_id) {
            Ok(()) => Ok(()),
            Err(_) => Err(HostError::UnknownInstance),
        }
    }

    /// The dispatch-thunk callable at `index` of the outer module's
    /// indirect-call table.
    ///
    /// Fails exactly when the module has no table, the index lies outside
    /// it, or the slot is empty — each a distinct error.
    pub fn dispatch_thunk_at(&self, index: u32) -> (r: Result<u32, HostError>)
        ensures
            r is Err ==> r->Err_0 == match self.spec_table() {
                None => HostError::NoTable,
                Some(t) => if index >= t@.len() {
                    HostError::ThunkOutOfBounds
                } else {
                    HostError::ThunkMissing
                },
            },
            r is Ok <==> match self.spec_table() {
                None => false,
                Some(t) => index < t@.len() && t@[index as int] is Some,
            },
            r is Ok ==> r->Ok_0 == self.spec_table()->Some_0@[index as int]->Some_0,
    {
        match &self.table {
            None => Err(HostError::NoTable),
            Some(t) => {
                if (index as usize) >= t.len() {
                    Err(HostError::ThunkOutOfBounds)
                } else {
                    match t[index as usize] {
                        Some(f) => Ok(f),
                        None => Err(HostError::ThunkMissing),
                    }
                }
            },
        }
    }

    /// Invoke the dispatch thunk through the runner and require of the
    /// outcome the fixed shape: one 64-bit value. A trap, or any other
    /// shape, fails the host call.
    pub fn invoke_dispatch_thunk<R: SandboxRunner>(
        &mut self,
        runner: &mut R,
        thunk_func: u32,
        invoke_args_ptr: Pointer<u8>,
        invoke_args_len: u32,
        state: u32,
        func_idx: u32,
    ) -> (r: Result<i64, HostError>)
        requires
            old(self).wf(),
        ensures
            final(self).wf(),
    {
        let outcome = runner.invoke_thunk(
            self,
            thunk_func,
            invoke_args_ptr,
            invoke_args_len,
            state,
            func_idx,
        );
        expect_i64_result(outcome)
    }

    /// Create a new sandboxed child instance from `wasm`, binding its
    /// imports through the serialized import map `raw_env_def`, capturing
    /// the dispatch thunk at `dispatch_thunk_id` of the outer table, and
    /// running its start-up code.
    ///
    /// The host call fails exactly when the dispatch thunk cannot be
    /// resolved — a missing table, an out-of-range index or an empty slot,
    /// each a distinct error that changes nothing. A malformed import map,
    /// a malformed child module, an unsatisfiable import or a rejected
    /// link yield the module status code; start-up code that traps yields
    /// the execution status code. Otherwise the new child's id is
    /// returned, registered in the store.
    pub fn instance_new<R: SandboxRunner>(
        &mut self,
        runner: &mut R,
        dispatch_thunk_id: u32,
        wasm: &[u8],
        raw_env_def: &[u8],
        state: u32,
    ) -> (r: Result<u32, HostError>)
        requires
            old(self).wf(),
        ensures
            final(self).wf(),
            r is Err <==> match old(self).spec_table() {
                None => true,
                Some(t) => dispatch_thunk_id >= t@.len() || t@[dispatch_thunk_id as int] is None,
            },
            r is Err ==> {
                &&& r->Err_0 == match old(self).spec_table() {
                    None => HostError::NoTable,
                    Some(t) => if dispatch_thunk_id >= t@.len() {
                        HostError::ThunkOutOfBounds
                    } else {
                        HostError::ThunkMissing
                    },
                }
                &&& final(self).spec_store() == old(self).spec_store()
                &&& final(self).spec_memory_bytes() == old(self).spec_memory_bytes()
                &&& final(self).spec_heap() == old(self).spec_heap()
            },
            (r is Ok && (wasm@.len() > u32::MAX || raw_env_def@.len() > u32::MAX
                || !crate::wire::spec_env_def_wellformed(raw_env_def@)
                || !crate::decode::wasm_decodable(wasm@))) ==> r == Ok::<u32, HostError>(
                ERR_MODULE,
            ),
            r is Ok ==> (r->Ok_0 == ERR_MODULE || r->Ok_0 == ERR_EXECUTION || r->Ok_0
                < crate::sandbox::MAX_SANDBOX_IDS),
            (r is Ok && r->Ok_0 < crate::sandbox::MAX_SANDBOX_IDS) ==> r->Ok_0 < final(self).spec_store().spec_instances().len(),
    {
        let thunk_func = match self.dispatch_thunk_at(dispatch_thunk_id) {
            Ok(f) => f,
            Err(e) => {
                return Err(e);
            },
        };
        if wasm.len() > u32::MAX as usize || raw_env_def.len() > u32::MAX as usize {
            return Ok(ERR_MODULE);
        }
        let env = match decode_env_def(raw_env_def) {
            Ok(env) => env,
            Err(_) => {
                return Ok(ERR_MODULE);
            },
        };
        let module = match crate::decode::decode_module(wasm) {
            Ok(m) => m,
            Err(_) => {
                return Ok(ERR_MODULE);
            },
        };
        // Bind every child import through the import map: functions to
        // outer guest function indices, memories to live child memories.
        let mut function_map: Vec<u32> = Vec::new();
        let mut memory_map: Vec<u32> = Vec::new();
        let n_imports = module.imports.len();
        let mut i: usize = 0;
        while i < n_imports
            invariant
                self.wf(),
                self == old(self),
                i <= n_imports,
                n_imports == module.imports@.len(),
                match old(self).spec_table() {
                    None => false,
                    Some(t) => dispatch_thunk_id < t@.len() && t@[dispatch_thunk_id as int]
                        is Some,
                },
            decreases n_imports - i,
        {
            let import = &module.imports[i];
            let entity = match find_env_entity(&env, import.module.as_slice(), import.field.as_slice()) {
                Some(e) => e,
                None => {
                    return Ok(ERR_MODULE);
                },
            };
            match (&import.kind, entity) {
                (crate::module_info::ImportKind::Func(_), GuestEntity::Function(idx)) => {
                    function_map.push(idx);
                },
                (crate::module_info::ImportKind::Other, GuestEntity::Memory(id)) => {
                    if !self.store.has_memory(id) {
                        return Ok(ERR_MODULE);
                    }
                    memory_map.push(id);
                },
                _ => {
                    return Ok(ERR_MODULE);
                },
            }
            i = i + 1;
        }
        let instance = SandboxInstance { dispatch_thunk: thunk_func, function_map, memory_map };
        let instance_id = match self.store.register_instance(instance) {
            Ok(id) => id,
            Err(_) => {
                return Ok(ERR_MODULE);
            },
        };
        match runner.instantiate_child(self, instance_id, wasm, state) {
            Ok(()) => Ok(instance_id),
            Err(ChildInstantiationError::StartTrapped) => {
                let _ = self.store.instance_teardown(instance_id);
                Ok(ERR_EXECUTION)
            },
            Err(ChildInstantiationError::Rejected) => {
                let _ = self.store.instance_teardown(instance_id);
                Ok(ERR_MODULE)
            },
        }
    }

    /// Encode a sandboxed call's return value and write it into the
    /// guest-provided return buffer.
    ///
    /// Fails exactly when the encoding is longer than the stated buffer
    /// length, or the buffer lies outside the guest memory — each a
    /// distinct error that leaves the memory unchanged.
    pub fn write_return_value(
        &mut self,
        val: ReturnValue,
        return_val: Pointer<u8>,
        return_val_len: u32,
    ) -> (r: Result<(), HostError>)
        requires
            old(self).wf(),
        ensures
            final(self).wf(),
            final(self).spec_heap() == old(self).spec_heap(),
            final(self).spec_table() == old(self).spec_table(),
            final(self).spec_store() == old(self).spec_store(),
            r is Ok <==> spec_encode_return_value(val).len() <= return_val_len && return_val.addr()
                + spec_encode_return_value(val).len() <= old(self).spec_memory_bytes().len(),
            r is Ok ==> final(self).spec_memory_bytes() == spec_write_bytes(
                old(self).spec_memory_bytes(),
                return_val.addr() as int,
                spec_encode_return_value(val),
            ),
            r is Err ==> final(self).spec_memory_bytes() == old(self).spec_memory_bytes(),
            r is Err ==> r->Err_0 == if spec_encode_return_value(val).len() > return_val_len {
                HostError::ReturnValueTooLarge
            } else {
                HostError::ReturnBufferOutOfBounds
            },
    {
        let encoded = encode_return_value(val);
        if encoded.len() > return_val_len as usize {
            return Err(HostError::ReturnValueTooLarge);
        }
        match self.memory.write(return_val.raw(), encoded.as_slice()) {
            Ok(()) => Ok(()),
            Err(_) => Err(HostError::ReturnBufferOutOfBounds),
        }
    }

    /// Invoke the export named `export_name` of the sandboxed child
    /// `instance_id` with the serialized arguments `args`, writing a
    /// returned value back through the guest-provided buffer.
    ///
    /// Undecodable arguments, an unknown instance, or a return buffer that
    /// is too small or out of bounds each fail the host call with a
    /// distinct error. A trap in the child yields the execution status
    /// code; otherwise the success status is returned.
    pub fn invoke<R: SandboxRunner>(
        &mut self,
        runner: &mut R,
        instance_id: u32,
        export_name: &[u8],
        args: &[u8],
        return_val: Pointer<u8>,
        return_val_len: u32,
        state: u32,
    ) -> (r: Result<u32, HostError>)
        requires
            old(self).wf(),
        ensures
            final(self).wf(),
            r == Err::<u32, HostError>(HostError::BadArguments) <==> (args@.len() > u32::MAX
                || spec_decode_value_list(args@) is None),
            r == Err::<u32, HostError>(HostError::UnknownInstance) <==> (args@.len() <= u32::MAX
                && spec_decode_value_list(args@) is Some && !old(
                self,
            ).spec_store().spec_instance_live(instance_id)),
            r is Ok ==> (r->Ok_0 == ERR_OK || r->Ok_0 == ERR_EXECUTION),
    {
        if args.len() > u32::MAX as usize {
            return Err(HostError::BadArguments);
        }
        let parsed_args = match decode_value_list(args) {
            Ok(vs) => vs,
            Err(_) => {
                return Err(HostError::BadArguments);
            },
        };
        if !self.store.has_instance(instance_id) {
            return Err(HostError::UnknownInstance);
        }
        let outcome = runner.invoke_child(self, instance_id, export_name, &parsed_args, state);
        match outcome {
            Ok(None) => Ok(ERR_OK),
            Ok(Some(val)) => {
                match self.write_return_value(ReturnValue::Value(val), return_val, return_val_len) {
                    Ok(()) => Ok(ERR_OK),
                    Err(e) => Err(e),
                }
            },
            Err(GuestTrap) => Ok(ERR_EXECUTION),
        }
    }
}

} // verus!
