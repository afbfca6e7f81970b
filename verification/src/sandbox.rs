//! The nested sandbox store: child guest memories and child guest
//! instances created by guest code at runtime, owned exclusively here and
//! addressed only by opaque integer ids.

use vstd::prelude::*;
use crate::memory::{spec_write_bytes, LinearMemory};

verus! {

/// Status code: the sandbox operation succeeded.
pub const ERR_OK: u32 = 0;

/// Status code: a sandbox memory transfer fell out of bounds. Guest
/// recoverable: it never fails the enclosing host call.
pub const ERR_OUT_OF_BOUNDS: u32 = 0xffff_ffff;

/// Status code: the sandboxed call, or the child's start-up code, trapped.
pub const ERR_EXECUTION: u32 = 0xffff_fffe;

/// Status code: the child module was malformed or its imports could not be
/// satisfied.
pub const ERR_MODULE: u32 = 0xffff_fffd;

/// Ids handed out by the store stay below every status code.
pub const MAX_SANDBOX_IDS: u32 = 0xf000_0000;

/// An error from a sandbox-store operation. These are failures of the
/// enclosing host call, unlike the guest-recoverable status codes.
#[derive(Copy, Clone, PartialEq, Eq, Structural, Debug)]
pub enum SandboxError {
    /// No live child memory has the given id.
    UnknownMemory,
    /// No live child instance has the given id.
    UnknownInstance,
    /// An access to a child memory fell out of its bounds.
    OutOfBounds,
    /// The store cannot hold another child.
    TooManyChildren,
    /// A child memory could not be created with the given sizes.
    BadMemorySizes,
}

/// A child guest instance: the dispatch thunk captured at its creation —
/// an index into the outer module's indirect-call table — and the outer
/// guest function index bound to each of the child's function imports.
pub struct SandboxInstance {
    /// Index into the outer module's indirect-call table of the callable
    /// the child re-enters host-mediated guest logic through.
    pub dispatch_thunk: u32,
    /// For each function import of the child, in import order, the outer
    /// guest function index it is bound to.
    pub function_map: Vec<u32>,
    /// For each memory import of the child, in import order, the sandbox
    /// memory id it is bound to.
    pub memory_map: Vec<u32>,
}

/// Owns every child memory and child instance created by guest code,
/// addressed by integer id; torn down explicitly or with the enclosing
/// call.
pub struct SandboxStore {
    memories: Vec<Option<LinearMemory>>,
    instances: Vec<Option<SandboxInstance>>,
}

impl SandboxStore {
    /// The memory slots, dead ones included.
    pub closed spec fn spec_memories(&self) -> Seq<Option<LinearMemory>> {
        self.memories@
    }

    /// The instance slots, dead ones included.
    pub closed spec fn spec_instances(&self) -> Seq<Option<SandboxInstance>> {
        self.instances@
    }

    /// Structural invariant: every live child memory is well-formed.
    pub open spec fn wf(&self) -> bool {
        &&& forall|i: int|
            0 <= i < self.spec_memories().len() && (#[trigger] self.spec_memories()[i]) is Some
                ==> self.spec_memories()[i]->Some_0.wf()
        &&& self.spec_memories().len() <= MAX_SANDBOX_IDS
        &&& self.spec_instances().len() <= MAX_SANDBOX_IDS
    }

    /// Whether `id` names a live child memory.
    pub open spec fn spec_memory_live(&self, id: u32) -> bool {
        id < self.spec_memories().len() && self.spec_memories()[id as int] is Some
    }

    /// The bytes of the live child memory `id`.
    pub open spec fn spec_memory_bytes(&self, id: u32) -> Seq<u8> {
        self.spec_memories()[id as int]->Some_0@
    }

    /// Whether `id` names a live child instance.
    pub open spec fn spec_instance_live(&self, id: u32) -> bool {
        id < self.spec_instances().len() && self.spec_instances()[id as int] is Some
    }

    /// Create an empty store.
    pub fn new() -> (r: SandboxStore)
        ensures
            r.wf(),
            r.spec_memories().len() == 0,
            r.spec_instances().len() == 0,
    {
        SandboxStore { memories: Vec::new(), instances: Vec::new() }
    }

    /// Create a new child memory of `initial` pages that may grow to
    /// `maximum` pages, and return its id; succeeds exactly when the store
    /// has room for another child and the sizes are admissible.
    pub fn new_memory(&mut self, initial: u32, maximum: u32) -> (r: Result<u32, SandboxError>)
        requires
            old(self).wf(),
        ensures
            final(self).wf(),
            final(self).spec_instances() == old(self).spec_instances(),
            r is Ok <==> old(self).spec_memories().len() < MAX_SANDBOX_IDS - 1 && initial
                <= maximum <= crate::memory::MAX_MEMORY_PAGES,
            r is Ok ==> {
                &&& final(self).spec_memories().len() == old(self).spec_memories().len() + 1
                &&& r->Ok_0 == old(self).spec_memories().len()
                &&& final(self).spec_memory_live(r->Ok_0)
                &&& final(self).spec_memory_bytes(r->Ok_0).len() == initial
                    * crate::memory::PAGE_SIZE
                &&& forall|k: int|
                    0 <= k < old(self).spec_memories().len()
                        ==> final(self).spec_memories()[k] == old(self).spec_memories()[k]
            },
            r is Err ==> final(self).spec_memories() == old(self).spec_memories(),
    {
        if self.memories.len() >= (MAX_SANDBOX_IDS - 1) as usize {
            return Err(SandboxError::TooManyChildren);
        }
        let mem = match LinearMemory::new(initial, maximum) {
            Ok(m) => m,
            Err(_) => {
                return Err(SandboxError::BadMemorySizes);
            },
        };
        let id = self.memories.len() as u32;
        self.memories.push(Some(mem));
        Ok(id)
    }

    /// Tear down the child memory `id`; its id becomes invalid.
    pub fn memory_teardown(&mut self, id: u32) -> (r: Result<(), SandboxError>)
        requires
            old(self).wf(),
        ensures
            final(self).wf(),
            final(self).spec_instances() == old(self).spec_instances(),
            r is Ok <==> old(self).spec_memory_live(id),
            r is Ok ==> {
                &&& !final(self).spec_memory_live(id)
                &&& final(self).spec_memories().len() == old(self).spec_memories().len()
                &&& forall|k: int|
                    0 <= k < old(self).spec_memories().len() && k != id
                        ==> final(self).spec_memories()[k] == old(self).spec_memories()[k]
            },
            r is Err ==> final(self).spec_memories() == old(self).spec_memories(),
    {
        if (id as usize) < self.memories.len() {
            let live = self.memories[id as usize].is_some();
            if live {
                self.memories[id as usize] = None;
                return Ok(());
            }
        }
        Err(SandboxError::UnknownMemory)
    }

    /// The current byte size of the child memory `id`.
    pub fn memory_len(&self, id: u32) -> (r: Result<u32, SandboxError>)
        requires
            self.wf(),
        ensures
            r is Ok <==> self.spec_memory_live(id),
            r is Ok ==> r->Ok_0 == self.spec_memory_bytes(id).len(),
            r is Err ==> r->Err_0 == SandboxError::UnknownMemory,
    {
        if (id as usize) < self.memories.len() {
            match &self.memories[id as usize] {
                Some(m) => Ok(m.byte_len()),
                None => Err(SandboxError::UnknownMemory),
            }
        } else {
            Err(SandboxError::UnknownMemory)
        }
    }

    /// Read `len` bytes at `offset` from the child memory `id`.
    pub fn read_memory_region(&self, id: u32, offset: u32, len: u32) -> (r: Result<
        Vec<u8>,
        SandboxError,
    >)
        requires
            self.wf(),
        ensures
            r is Ok <==> self.spec_memory_live(id) && offset + len <= self.spec_memory_bytes(
                id,
            ).len(),
            r is Ok ==> r->Ok_0@ == self.spec_memory_bytes(id).subrange(
                offset as int,
                offset + len,
            ),
    {
        if (id as usize) < self.memories.len() {
            match &self.memories[id as usize] {
                Some(m) => match m.read(offset, len) {
                    Ok(v) => Ok(v),
                    Err(_) => Err(SandboxError::OutOfBounds),
                },
                None => Err(SandboxError::UnknownMemory),
            }
        } else {
            Err(SandboxError::UnknownMemory)
        }
    }

    /// Write `bytes` at `offset` into the child memory `id`; out of bounds
    /// or an unknown id changes nothing.
    pub fn write_memory_region(&mut self, id: u32, offset: u32, bytes: &[u8]) -> (r: Result<
        (),
        SandboxError,
    >)
        requires
            old(self).wf(),
        ensures
            final(self).wf(),
            final(self).spec_instances() == old(self).spec_instances(),
            final(self).spec_memories().len() == old(self).spec_memories().len(),
            r is Ok <==> old(self).spec_memory_live(id) && offset + bytes@.len() <= old(
                self,
            ).spec_memory_bytes(id).len(),
            r is Ok ==> {
                &&& final(self).spec_memory_live(id)
                &&& final(self).spec_memory_bytes(id) == spec_write_bytes(
                    old(self).spec_memory_bytes(id),
                    offset as int,
                    bytes@,
                )
            },
            forall|k: u32|
                #![all_triggers]
                k != id ==> final(self).spec_memory_live(k) == old(self).spec_memory_live(k) && (
                old(self).spec_memory_live(k) ==> final(self).spec_memory_bytes(k) == old(
                    self,
                ).spec_memory_bytes(k)),
            r is Err ==> final(self).spec_memory_live(id) == old(self).spec_memory_live(id) && (
            old(self).spec_memory_live(id) ==> final(self).spec_memory_bytes(id) == old(
                self,
            ).spec_memory_bytes(id)),
    {
        if (id as usize) < self.memories.len() {
            match &mut self.memories[id as usize] {
                Some(m) => {
                    let res = m.write(offset, bytes);
                    match res {
                        Ok(()) => Ok(()),
                        Err(_) => Err(SandboxError::OutOfBounds),
                    }
                },
                None => Err(SandboxError::UnknownMemory),
            }
        } else {
            Err(SandboxError::UnknownMemory)
        }
    }

    /// Register a new child instance and return its id; succeeds exactly
    /// when the store has room for another child.
    pub fn register_instance(&mut self, instance: SandboxInstance) -> (r: Result<
        u32,
        SandboxError,
    >)
        requires
            old(self).wf(),
        ensures
            final(self).wf(),
            final(self).spec_memories() == old(self).spec_memories(),
            r is Ok <==> old(self).spec_instances().len() < MAX_SANDBOX_IDS - 1,
            r is Ok ==> {
                &&& r->Ok_0 == old(self).spec_instances().len()
                &&& final(self).spec_instance_live(r->Ok_0)
                &&& final(self).spec_instances().len() == old(self).spec_instances().len() + 1
            },
            r is Err ==> final(self).spec_instances() == old(self).spec_instances(),
    {
        if self.instances.len() >= (MAX_SANDBOX_IDS - 1) as usize {
            return Err(SandboxError::TooManyChildren);
        }
        let id = self.instances.len() as u32;
        self.instances.push(Some(instance));
        Ok(id)
    }

    /// Tear down the child instance `id`; its id becomes invalid.
    pub fn instance_teardown(&mut self, id: u32) -> (r: Result<(), SandboxError>)
        requires
            old(self).wf(),
        ensures
            final(self).wf(),
            final(self).spec_memories() == old(self).spec_memories(),
            r is Ok <==> old(self).spec_instance_live(id),
            r is Ok ==> !final(self).spec_instance_live(id),
            r is Ok ==> forall|k: int|
                0 <= k < old(self).spec_instances().len() && k != id
                    ==> final(self).spec_instances()[k] == old(self).spec_instances()[k],
            r is Err ==> final(self).spec_instances() == old(self).spec_instances(),
    {
        if (id as usize) < self.instances.len() {
            let live = self.instances[id as usize].is_some();
            if live {
                self.instances[id as usize] = None;
                return Ok(());
            }
        }
        Err(SandboxError::UnknownInstance)
    }

    /// Whether `id` names a live child memory.
    pub fn has_memory(&self, id: u32) -> (r: bool)
        ensures
            r == self.spec_memory_live(id),
    {
        (id as usize) < self.memories.len() && self.memories[id as usize].is_some()
    }

    /// Whether `id` names a live child instance.
    pub fn has_instance(&self, id: u32) -> (r: bool)
        ensures
            r == self.spec_instance_live(id),
    {
        (id as usize) < self.instances.len() && self.instances[id as usize].is_some()
    }

    /// The dispatch thunk the child instance `id` was created with.
    pub fn instance_dispatch_thunk(&self, id: u32) -> (r: Result<u32, SandboxError>)
        ensures
            r is Ok <==> self.spec_instance_live(id),
            r is Ok ==> r->Ok_0 == self.spec_instances()[id as int]->Some_0.dispatch_thunk,
    {
        if (id as usize) < self.instances.len() {
            match &self.instances[id as usize] {
                Some(inst) => Ok(inst.dispatch_thunk),
                None => Err(SandboxError::UnknownInstance),
            }
        } else {
            Err(SandboxError::UnknownInstance)
        }
    }
}

} // verus!
