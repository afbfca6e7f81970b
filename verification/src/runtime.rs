//! The runtime façade: load, validate and instantiate a guest module,
//! capture its state snapshot, and drive calls — each call restoring the
//! snapshot, marshaling its arguments through the allocator, invoking the
//! export, and decoding the packed result.

use vstd::prelude::*;
use crate::context::{ExecutionContext, GuestTrap, SandboxRunner};
use crate::decode::decode_module;
use crate::allocator::{spec_block_size, spec_effective_base, MAX_ALLOCATION};
use crate::memory::{LinearMemory, MAX_MEMORY_PAGES, PAGE_SIZE};
use crate::module_info::{
    GlobalInfo, ImportInfo, ImportKind, InstanceState, LoadError, ModuleInfo,
};
use crate::registry::{resolve_import, spec_first_named, HostFunctionDecl};
use crate::snapshot::{
    spec_mut_count, spec_restored_globals, spec_restored_memory, StateSnapshot,
};
use crate::values::Value;

verus! {

/// A per-call failure. It aborts only that call: the instance is unharmed
/// for the next call, whose snapshot restore starts from scratch.
#[derive(Copy, Clone, PartialEq, Eq, Structural, Debug)]
pub enum CallError {
    /// The snapshot did not fit the instance — a structural violation the
    /// instance invariant rules out, so `call` provably never returns it;
    /// kept as the fatal classification of that violation.
    ApplySnapshotFailed,
    /// The argument block could not be allocated in guest memory.
    OutOfMemory,
    /// The arguments cannot be addressed by a 32-bit guest pointer.
    ArgumentsTooLarge,
    /// The guest trapped.
    Trap,
    /// The export returned something other than a single 64-bit packed
    /// result.
    InvalidReturn,
    /// The packed result points outside the guest memory.
    OutputOutOfBounds,
}

/// The bytes of the single host import namespace, `env`.
pub open spec fn spec_env_name() -> Seq<u8> {
    seq![101u8, 110u8, 118u8]
}

/// The registry positions a module's imports resolve to, in import order:
/// every import must be a function in the `env` namespace whose name and
/// exact signature match a registry entry, or resolution fails with the
/// first import's distinct error.
pub open spec fn spec_resolve_imports(
    imports: Seq<ImportInfo>,
    funcs: Seq<HostFunctionDecl>,
) -> Result<Seq<int>, LoadError>
    decreases imports.len(),
{
    if imports.len() == 0 {
        Ok(Seq::<int>::empty())
    } else {
        match imports[0].kind {
            ImportKind::Other => Err(LoadError::UnsupportedImport),
            ImportKind::Func(sig) => {
                if imports[0].module@ != spec_env_name() {
                    Err(LoadError::UnresolvedImport)
                } else {
                    match spec_first_named(funcs, imports[0].field@) {
                        None => Err(LoadError::UnresolvedImport),
                        Some(i) => {
                            if funcs[i].signature.spec_matches(&sig) {
                                match spec_resolve_imports(imports.drop_first(), funcs) {
                                    Ok(rest) => Ok(seq![i] + rest),
                                    Err(e) => Err(e),
                                }
                            } else {
                                Err(LoadError::ImportSignatureMismatch)
                            }
                        },
                    }
                }
            },
        }
    }
}

/// Resolve every import of a module against the registry.
fn resolve_imports(
    imports: &Vec<ImportInfo>,
    functions: &Vec<HostFunctionDecl>,
) -> (r: Result<Vec<usize>, LoadError>)
    ensures
        match spec_resolve_imports(imports@, functions@) {
            Ok(bs) => r is Ok && r->Ok_0@.map_values(|b: usize| b as int) == bs,
            Err(e) => r == Err::<Vec<usize>, LoadError>(e),
        },
{
    let n = imports.len();
    let mut bindings: Vec<usize> = Vec::new();
    let mut i: usize = 0;
    proof {
        assert(imports@.subrange(0, n as int) =~= imports@);
    }
    while i < n
        invariant
            n == imports@.len(),
            i <= n,
            bindings@.len() == i,
            spec_resolve_imports(imports@, functions@) == match spec_resolve_imports(
                imports@.subrange(i as int, n as int),
                functions@,
            ) {
                Ok(rest) => Ok::<Seq<int>, LoadError>(
                    bindings@.map_values(|b: usize| b as int) + rest,
                ),
                Err(e) => Err::<Seq<int>, LoadError>(e),
            },
        decreases n - i,
    {
        let ghost sub = imports@.subrange(i as int, n as int);
        proof {
            assert(sub[0] == imports@[i as int]);
            assert(sub.drop_first() =~= imports@.subrange(i + 1, n as int));
        }
        let import = &imports[i];
        let sig = match &import.kind {
            ImportKind::Other => {
                return Err(LoadError::UnsupportedImport);
            },
            ImportKind::Func(sig) => sig,
        };
        let env_name: [u8; 3] = [101u8, 110u8, 118u8];
        proof {
            assert(env_name@ =~= spec_env_name());
        }
        if !crate::module_info::bytes_eq(import.module.as_slice(), env_name.as_slice()) {
            return Err(LoadError::UnresolvedImport);
        }
        let idx = match resolve_import(functions, import.field.as_slice(), sig) {
            Ok(idx) => idx,
            Err(e) => {
                return Err(e);
            },
        };
        let ghost before = bindings@;
        bindings.push(idx);
        proof {
            let f = |b: usize| b as int;
            assert(bindings@.map_values(f) =~= before.map_values(f).push(idx as int));
            let rest = spec_resolve_imports(
                imports@.subrange(i + 1, n as int),
                functions@,
            );
            assert(sub[0] == imports@[i as int]);
            assert(imports@[i as int].kind == ImportKind::Func(*sig));
            assert(sub[0].module@ == spec_env_name());
            crate::registry::lemma_first_named_range(functions@, sub[0].field@);
            assert(import.field@ == sub[0].field@);
            vstd::std_specs::vec::axiom_spec_len(functions);
            let found = spec_first_named(functions@, sub[0].field@);
            match found {
                None => {
                    assert(false);
                },
                Some(i2) => {
                    assert(0 <= i2 < functions@.len());
                    if functions@[i2].signature.spec_matches(sig) {
                        assert(idx == i2 as usize);
                        assert(i2 == idx as int);
                    } else {
                        assert(false);
                    }
                },
            }
            assert(spec_first_named(functions@, sub[0].field@) == Some(idx as int));
            assert(functions@[idx as int].signature.spec_matches(sig));
            assert(spec_resolve_imports(sub, functions@) == match rest {
                Ok(bs) => Ok::<Seq<int>, LoadError>(seq![idx as int] + bs),
                Err(e) => Err::<Seq<int>, LoadError>(e),
            });
            match rest {
                Ok(bs) => {
                    assert(before.map_values(f) + (seq![idx as int] + bs) =~= bindings@.map_values(
                        f,
                    ) + bs);
                },
                Err(_) => {},
            }
        }
        i = i + 1;
    }
    proof {
        assert(imports@.subrange(n as int, n as int) =~= Seq::<ImportInfo>::empty());
        assert(bindings@.map_values(|b: usize| b as int) + Seq::<int>::empty()
            =~= bindings@.map_values(|b: usize| b as int));
    }
    Ok(bindings)
}

/// An import-resolution failure is always one of the three import errors.
proof fn lemma_resolve_imports_error_kind(imports: Seq<ImportInfo>, funcs: Seq<HostFunctionDecl>)
    ensures
        spec_resolve_imports(imports, funcs) matches Err(e) ==> (e == LoadError::UnsupportedImport
            || e == LoadError::UnresolvedImport || e == LoadError::ImportSignatureMismatch),
    decreases imports.len(),
{
    if imports.len() > 0 {
        lemma_resolve_imports_error_kind(imports.drop_first(), funcs);
    }
}

/// Law: import bindings are repeatable — resolving the same module's
/// imports against the same registry yields the same registry positions,
/// load after load.
pub proof fn lemma_import_bindings_repeatable(
    imports: Seq<ImportInfo>,
    funcs: Seq<HostFunctionDecl>,
    b1: Seq<int>,
    b2: Seq<int>,
)
    requires
        spec_resolve_imports(imports, funcs) == Ok::<Seq<int>, LoadError>(b1),
        spec_resolve_imports(imports, funcs) == Ok::<Seq<int>, LoadError>(b2),
    ensures
        b1 == b2,
{
}

/// Whether the module declares a memory and exports it under `memory`.
pub open spec fn spec_has_memory_export(module: &ModuleInfo) -> bool {
    module.memory is Some && match crate::module_info::spec_find_export(
        module.exports@,
        crate::module_info::spec_memory_name(),
    ) {
        Some(crate::module_info::ExportKind::Memory(_)) => true,
        _ => false,
    }
}

/// Whether the module exports a resolvable 32-bit heap base.
pub open spec fn spec_has_heap_base(module: &ModuleInfo) -> bool {
    match crate::module_info::spec_find_export(
        module.exports@,
        crate::module_info::spec_heap_base_name(),
    ) {
        Some(crate::module_info::ExportKind::Global(idx)) => idx < module.globals@.len()
            && module.globals@[idx as int].value is I32,
        _ => false,
    }
}

/// The structural defect an otherwise-loaded module is rejected for, in
/// the order the engine checks: a declared start function, a missing
/// `memory` export, a missing or invalid `__heap_base` export.
pub open spec fn spec_structural_error(module: &ModuleInfo) -> Option<LoadError> {
    if module.has_start {
        Some(LoadError::RuntimeHasStartFn)
    } else if !spec_has_memory_export(module) {
        Some(LoadError::InvalidMemoryReference)
    } else if !spec_has_heap_base(module) {
        Some(LoadError::HeapBaseNotFoundOrInvalid)
    } else {
        None
    }
}

/// The page limit the instance memory is created with: the module's
/// declared maximum, capped at the engine-wide limit.
pub open spec fn spec_effective_max_pages(decl: crate::module_info::MemoryDecl) -> u32 {
    match decl.maximum_pages {
        Some(m) => if m < MAX_MEMORY_PAGES {
            m
        } else {
            MAX_MEMORY_PAGES
        },
        None => MAX_MEMORY_PAGES,
    }
}

/// The value of the module's heap-base export, for modules that have one.
pub open spec fn spec_heap_base_value(module: &ModuleInfo) -> u32 {
    match crate::module_info::spec_find_export(
        module.exports@,
        crate::module_info::spec_heap_base_name(),
    ) {
        Some(crate::module_info::ExportKind::Global(idx)) => module.globals@[idx as int].value->I32_0
            as u32,
        _ => 0,
    }
}

/// Every resolved data segment lies within a memory of `mem_len` bytes.
pub open spec fn spec_resolved_segments_in_bounds(
    segs: Seq<(u32, Seq<u8>)>,
    mem_len: int,
) -> bool {
    forall|i: int| 0 <= i < segs.len() ==> (#[trigger] segs[i]).0 + segs[i].1.len() <= mem_len
}

/// Whether a structurally sound module can be instantiated with
/// `heap_pages` requested heap pages: the declared memory and the
/// requested growth fit the effective page limit, the heap base lies
/// inside the grown memory, every data segment's offset resolves against
/// the initial globals, and every resolved segment lies in bounds.
pub open spec fn spec_load_admissible(module: &ModuleInfo, heap_pages: u64) -> bool {
    match module.memory {
        Some(decl) => {
            let max = spec_effective_max_pages(decl);
            let total = decl.initial_pages + heap_pages;
            &&& decl.initial_pages <= max
            &&& heap_pages <= u32::MAX
            &&& total <= max
            &&& spec_effective_base(spec_heap_base_value(module)) <= total * PAGE_SIZE
            &&& forall|i: int|
                0 <= i < module.segments@.len() ==> crate::snapshot::spec_resolve_offset(
                    (#[trigger] module.segments@[i]).offset,
                    module.globals@,
                ) is Some
            &&& spec_resolved_segments_in_bounds(
                crate::snapshot::spec_take_segments(module.segments@, module.globals@),
                total * PAGE_SIZE,
            )
        },
        None => false,
    }
}

/// Bounds of a recorded-segment list transfer to its resolved view.
proof fn lemma_segment_bounds_map(segs: Seq<(u32, Vec<u8>)>, mem_len: int)
    ensures
        crate::snapshot::spec_segments_in_bounds(segs, mem_len)
            == spec_resolved_segments_in_bounds(
            segs.map_values(|p: (u32, Vec<u8>)| (p.0, p.1@)),
            mem_len,
        ),
{
    let mapped = segs.map_values(|p: (u32, Vec<u8>)| (p.0, p.1@));
    if crate::snapshot::spec_segments_in_bounds(segs, mem_len) {
        assert forall|i: int| 0 <= i < mapped.len() implies (#[trigger] mapped[i]).0
            + mapped[i].1.len() <= mem_len by {
            assert(mapped[i] == (segs[i].0, segs[i].1@));
            assert(segs[i].0 + segs[i].1@.len() <= mem_len);
        }
    }
    if spec_resolved_segments_in_bounds(mapped, mem_len) {
        assert forall|i: int| 0 <= i < segs.len() implies (#[trigger] segs[i]).0 + segs[i].1@.len()
            <= mem_len by {
            assert(mapped[i] == (segs[i].0, segs[i].1@));
            assert(mapped[i].0 + mapped[i].1.len() <= mem_len);
        }
    }
}

/// A runtime instance: exactly one instantiated module — its model, its
/// live state, its import bindings — plus the state snapshot captured at
/// instantiation, reapplied before every call.
pub struct RuntimeInstance {
    module: ModuleInfo,
    state: InstanceState,
    snapshot: StateSnapshot,
    heap_base: u32,
    bindings: Vec<usize>,
}

impl RuntimeInstance {
    /// The module model this instance runs.
    pub closed spec fn spec_module(&self) -> ModuleInfo {
        self.module
    }

    /// The instance's live state.
    pub closed spec fn spec_state(&self) -> InstanceState {
        self.state
    }

    /// The snapshot captured at instantiation.
    pub closed spec fn spec_snapshot(&self) -> StateSnapshot {
        self.snapshot
    }

    /// The heap base the allocator serves above.
    pub closed spec fn spec_heap_base(&self) -> u32 {
        self.heap_base
    }

    /// The registry position each function import is bound to.
    pub closed spec fn spec_bindings(&self) -> Seq<usize> {
        self.bindings@
    }

    /// Structural invariant: the snapshot always fits the instance, so the
    /// pre-call restore cannot fail, and the heap base lies inside the
    /// restored memory.
    pub open spec fn wf(&self) -> bool {
        &&& self.spec_state().memory.wf()
        &&& self.spec_snapshot().memory_pages <= self.spec_state().memory.spec_max_pages()
        &&& crate::snapshot::spec_segments_in_bounds(
            self.spec_snapshot().data_segments@,
            self.spec_snapshot().memory_pages * PAGE_SIZE,
        )
        &&& self.spec_snapshot().global_mut_values@.len() == spec_mut_count(
            self.spec_state().globals@,
            self.spec_state().globals@.len() as int,
        )
        &&& (if self.spec_heap_base() >= 8 {
            self.spec_heap_base()
        } else {
            8u32
        }) <= self.spec_snapshot().memory_pages * PAGE_SIZE
    }

    /// The registry position each of the module's function imports was
    /// bound to, in import order: dispatch goes by these positions, never
    /// by name.
    pub fn import_bindings(&self) -> (r: &Vec<usize>)
        ensures
            r@ == self.spec_bindings(),
    {
        &self.bindings
    }

    /// Report whether `heap_pages` matches the configured page count.
    /// Resizing would require re-instantiation, which this handle does not
    /// do.
    pub fn update_heap_pages(&mut self, heap_pages: u64) -> (r: bool)
        ensures
            *final(self) == *old(self),
            r == (heap_pages == old(self).spec_snapshot().heap_pages),
    {
        self.snapshot.heap_pages == heap_pages
    }

    /// Drive one call: restore the snapshot, build a fresh execution
    /// context seeded at the heap base, allocate and write `data` into
    /// guest memory, invoke the export named `method` with its (pointer,
    /// length), decode the packed 64-bit result and copy that region out.
    ///
    /// Any failure aborts only this call: the snapshot is unconditionally
    /// reapplied at the start of the next one, so the state the next call
    /// observes equals the state captured at instantiation no matter what
    /// this call mutated.
    pub fn call<R: SandboxRunner>(&mut self, runner: &mut R, method: &str, data: &[u8]) -> (r:
        Result<Vec<u8>, CallError>)
        requires
            old(self).wf(),
        ensures
            final(self).wf(),
            final(self).spec_module() == old(self).spec_module(),
            final(self).spec_snapshot() == old(self).spec_snapshot(),
            final(self).spec_heap_base() == old(self).spec_heap_base(),
            final(self).spec_bindings() == old(self).spec_bindings(),
            final(self).spec_state().globals@.len() == old(self).spec_state().globals@.len(),
            forall|i: int|
                0 <= i < old(self).spec_state().globals@.len() ==> (#[trigger] final(self).spec_state().globals@[i]).mutable == old(self).spec_state().globals@[i].mutable
                    && (!old(self).spec_state().globals@[i].mutable ==> final(self).spec_state().globals@[i].value == old(self).spec_state().globals@[i].value),
            r == Err::<Vec<u8>, CallError>(CallError::ArgumentsTooLarge) <==> data@.len()
                > u32::MAX,
            r != Err::<Vec<u8>, CallError>(CallError::ApplySnapshotFailed),
            r == Err::<Vec<u8>, CallError>(CallError::OutOfMemory) <==> (data@.len() <= u32::MAX
                && (data@.len() > MAX_ALLOCATION || spec_effective_base(
                old(self).spec_heap_base(),
            ) + spec_block_size(data@.len() as u32) > old(self).spec_state().memory.spec_max_pages() * PAGE_SIZE)),
    {
        if data.len() > u32::MAX as usize {
            return Err(CallError::ArgumentsTooLarge);
        }
        // Restore the captured state; the invariant makes the restore
        // total, so the fatal snapshot error can never come out of here.
        match self.snapshot.apply(&mut self.state) {
            Ok(()) => {},
            Err(_) => {
                return vstd::pervasive::unreached();
            },
        }
        proof {
            crate::memory::lemma_page_bytes_bound(self.snapshot.memory_pages);
        }
        // Move the live memory into a fresh per-call context.
        let mut memory = new_empty_memory();
        core::mem::swap(&mut memory, &mut self.state.memory);
        let table = clone_table(&self.module.table);
        let mut ctx = ExecutionContext::new(self.heap_base, memory, table);
        // Stage the arguments in guest memory through the allocator.
        let len = data.len() as u32;
        let ptr = match ctx.allocate_memory(len) {
            Ok(p) => p,
            Err(_) => {
                self.state.memory = ctx.into_memory();
                proof {
                    lemma_globals_count_restored(old(self).spec_state().globals@, self.snapshot);
                }
                return Err(CallError::OutOfMemory);
            },
        };
        proof {
            assert(!crate::allocator::spec_has_free_block(
                Seq::<crate::allocator::AllocRecord>::empty(),
                spec_block_size(len),
            ));
        }
        match ctx.write_memory(ptr, data) {
            Ok(()) => {},
            Err(_) => {
                return vstd::pervasive::unreached();
            },
        }
        let args: Vec<Value> = vec![
            Value::I32(ptr.raw() as i32),
            Value::I32(len as i32),
        ];
        // Run the export; the guest may re-enter through host functions.
        let ghost restored = spec_restored_globals(
            old(self).spec_state().globals@,
            self.snapshot.global_mut_values@,
        );
        let outcome = runner.invoke_export(&mut ctx, &mut self.state.globals, method.as_bytes(), &args);
        let result = match outcome {
            Ok(res) => decode_call_result(&ctx, res),
            Err(GuestTrap) => Err(CallError::Trap),
        };
        self.state.memory = ctx.into_memory();
        proof {
            lemma_globals_count_restored(old(self).spec_state().globals@, self.snapshot);
            crate::snapshot::lemma_mut_count_equal(
                self.state.globals@,
                restored,
                restored.len() as int,
            );
        }
        result
    }
}

/// A guest call's result decoded against the packed-result convention: the
/// call must yield a single 64-bit value packing (pointer, length), and
/// that region of guest memory, copied out, is the call's output.
pub fn decode_call_result(ctx: &ExecutionContext, res: Option<Value>) -> (r: Result<
    Vec<u8>,
    CallError,
>)
    requires
        ctx.wf(),
    ensures
        r is Ok <==> (res matches Some(Value::I64(v)) && ((v as u64) & 0xffff_ffff) + ((v as u64)
            >> 32) <= ctx.spec_memory_bytes().len()),
        r is Ok ==> {
            let packed = res->Some_0->I64_0 as u64;
            r->Ok_0@ == ctx.spec_memory_bytes().subrange(
                (packed & 0xffff_ffff) as int,
                (packed & 0xffff_ffff) + (packed >> 32),
            )
        },
        r is Err ==> r->Err_0 == if res matches Some(Value::I64(_)) {
            CallError::OutputOutOfBounds
        } else {
            CallError::InvalidReturn
        },
{
    match res {
        Some(Value::I64(v)) => {
            let (out_ptr, out_len) = crate::values::decode_packed_result(v as u64);
            match ctx.read_memory(crate::values::Pointer::<u8>::new(out_ptr), out_len) {
                Ok(bytes) => Ok(bytes),
                Err(_) => Err(CallError::OutputOutOfBounds),
            }
        },
        _ => Err(CallError::InvalidReturn),
    }
}

/// Restoring the snapshot keeps the mutable-global count it was captured
/// with.
proof fn lemma_globals_count_restored(gs_old: Seq<GlobalInfo>, snap: StateSnapshot)
    requires
        snap.global_mut_values@.len() == spec_mut_count(gs_old, gs_old.len() as int),
    ensures
        spec_mut_count(
            spec_restored_globals(gs_old, snap.global_mut_values@),
            spec_restored_globals(gs_old, snap.global_mut_values@).len() as int,
        ) == snap.global_mut_values@.len(),
{
    let restored = spec_restored_globals(gs_old, snap.global_mut_values@);
    assert forall|i: int| 0 <= i < gs_old.len() implies (#[trigger] restored[i]).mutable
        == gs_old[i].mutable by {}
    crate::snapshot::lemma_mut_count_equal(restored, gs_old, gs_old.len() as int);
}

/// An empty placeholder memory, swapped in while a call borrows the live
/// one.
fn new_empty_memory() -> (r: LinearMemory)
    ensures
        r.wf(),
{
    match LinearMemory::new(0, 0) {
        Ok(m) => m,
        Err(_) => vstd::pervasive::unreached(),
    }
}

/// Copy an indirect-call table.
fn clone_table(t: &Option<Vec<Option<u32>>>) -> (r: Option<Vec<Option<u32>>>)
    ensures
        match t {
            Some(v) => r is Some && r->Some_0@ == v@,
            None => r is None,
        },
{
    match t {
        Some(v) => Some(vstd::slice::slice_to_vec(v.as_slice())),
        None => None,
    }
}

/// Copy a global list.
fn copy_globals(gs: &Vec<GlobalInfo>) -> (r: Vec<GlobalInfo>)
    ensures
        r@ == gs@,
{
    vstd::slice::slice_to_vec(gs.as_slice())
}

/// Instantiate a decoded module against the host registry: reject a
/// declared start function outright, require the `memory` and 32-bit
/// `__heap_base` exports, bind every import by exact name and signature,
/// build the instance memory grown by the requested heap pages, capture
/// the state snapshot, and restore it once so the live state equals the
/// captured state.
///
/// Rejection is total: on any failure no partial instance exists. A start
/// function is rejected with its own error before anything else — and
/// since no executor is ever consulted here, it is never executed.
pub fn instantiate_module(
    module: ModuleInfo,
    heap_pages: u64,
    functions: &Vec<HostFunctionDecl>,
) -> (r: Result<RuntimeInstance, LoadError>)
    ensures
        module.has_start <==> r == Err::<RuntimeInstance, LoadError>(
            LoadError::RuntimeHasStartFn,
        ),
        spec_structural_error(&module) matches Some(e) ==> r == Err::<RuntimeInstance, LoadError>(
            e,
        ),
        spec_structural_error(&module) is None ==> (spec_resolve_imports(
            module.imports@,
            functions@,
        ) matches Err(e) ==> r == Err::<RuntimeInstance, LoadError>(e)),
        r is Ok <==> spec_structural_error(&module) is None && spec_resolve_imports(
            module.imports@,
            functions@,
        ) is Ok && spec_load_admissible(&module, heap_pages),
        r is Ok ==> {
            &&& r->Ok_0.wf()
            &&& spec_structural_error(&module) is None
            &&& spec_resolve_imports(module.imports@, functions@) matches Ok(bs)
                && r->Ok_0.spec_bindings().map_values(|b: usize| b as int) == bs
            &&& r->Ok_0.spec_snapshot().heap_pages == heap_pages
            &&& r->Ok_0.spec_state().memory@ == spec_restored_memory(&r->Ok_0.spec_snapshot())
            &&& r->Ok_0.spec_state().globals@ == spec_restored_globals(
                module.globals@,
                r->Ok_0.spec_snapshot().global_mut_values@,
            )
            &&& r->Ok_0.spec_module() == module
        },
{
    // A start function is rejected before anything else; it never runs.
    if module.has_start {
        return Err(LoadError::RuntimeHasStartFn);
    }
    // The module must declare its memory and export it under `memory`.
    if !module.has_memory_export() {
        return Err(LoadError::InvalidMemoryReference);
    }
    // The module must export a resolvable 32-bit `__heap_base` global.
    let heap_base = match module.heap_base(&module.globals) {
        Ok(hb) => hb,
        Err(e) => {
            return Err(e);
        },
    };
    // Bind every import to its registry position.
    proof {
        lemma_resolve_imports_error_kind(module.imports@, functions@);
    }
    let bindings = match resolve_imports(&module.imports, functions) {
        Ok(bs) => bs,
        Err(e) => {
            return Err(e);
        },
    };
    // Build the instance memory and grow it by the requested heap pages.
    let decl = match &module.memory {
        Some(d) => *d,
        None => {
            return Err(LoadError::InvalidMemoryReference);
        },
    };
    let max_pages = match decl.maximum_pages {
        Some(m) => if m < MAX_MEMORY_PAGES {
            m
        } else {
            MAX_MEMORY_PAGES
        },
        None => MAX_MEMORY_PAGES,
    };
    proof {
        assert(max_pages == spec_effective_max_pages(decl));
        assert(heap_base == spec_heap_base_value(&module));
    }
    let mut memory = match LinearMemory::new(decl.initial_pages, max_pages) {
        Ok(m) => m,
        Err(_) => {
            return Err(LoadError::InvalidModule);
        },
    };
    if heap_pages > u32::MAX as u64 {
        return Err(LoadError::MemoryGrowRefused);
    }
    match memory.grow(heap_pages as u32) {
        Ok(()) => {},
        Err(_) => {
            return Err(LoadError::MemoryGrowRefused);
        },
    }
    proof {
        crate::memory::lemma_page_bytes_bound(memory.spec_pages());
    }
    // The heap base must lie inside the instance memory.
    let effective_base: u32 = if heap_base >= 8 {
        heap_base
    } else {
        8
    };
    if (effective_base as u64) > (memory.byte_len() as u64) {
        return Err(LoadError::HeapBaseNotFoundOrInvalid);
    }
    let mut state = InstanceState { memory, globals: copy_globals(&module.globals) };
    // Capture the snapshot of the pristine instance, then restore it once:
    // the live state now equals the captured state by construction.
    let snapshot = match StateSnapshot::take(&module, &state, heap_pages) {
        Some(s) => s,
        None => {
            return Err(LoadError::BadDataSegment);
        },
    };
    proof {
        crate::snapshot::lemma_mut_values_len(state.globals@);
        lemma_segment_bounds_map(
            snapshot.data_segments@,
            snapshot.memory_pages * PAGE_SIZE,
        );
    }
    match snapshot.apply(&mut state) {
        Ok(()) => {},
        Err(_) => {
            return Err(LoadError::BadDataSegment);
        },
    }
    proof {
        lemma_globals_count_restored(module.globals@, snapshot);
    }
    Ok(RuntimeInstance { module, state, snapshot, heap_base, bindings })
}

/// Load raw module bytes and instantiate them: deserialize and validate
/// the bytes, then instantiate exactly as [`instantiate_module`] says —
/// the snapshot is captured before anything could run, since loading
/// consults no executor at all. Load failures abort the whole load; no
/// partial instance is ever returned.
pub fn create_instance(
    code: &[u8],
    heap_pages: u64,
    functions: &Vec<HostFunctionDecl>,
) -> (r: Result<RuntimeInstance, LoadError>)
    ensures
        !crate::decode::wasm_decodable(code@) ==> r == Err::<RuntimeInstance, LoadError>(
            LoadError::InvalidModule,
        ),
        r is Ok ==> {
            &&& crate::decode::wasm_decodable(code@)
            &&& r->Ok_0.wf()
            &&& spec_structural_error(&r->Ok_0.spec_module()) is None
            &&& spec_load_admissible(&r->Ok_0.spec_module(), heap_pages)
            &&& spec_resolve_imports(r->Ok_0.spec_module().imports@, functions@) matches Ok(bs)
                && r->Ok_0.spec_bindings().map_values(|b: usize| b as int) == bs
            &&& r->Ok_0.spec_snapshot().heap_pages == heap_pages
            &&& r->Ok_0.spec_state().memory@ == spec_restored_memory(&r->Ok_0.spec_snapshot())
            &&& r->Ok_0.spec_state().globals@ == spec_restored_globals(
                r->Ok_0.spec_module().globals@,
                r->Ok_0.spec_snapshot().global_mut_values@,
            )
        },
{
    let module = match decode_module(code) {
        Ok(m) => m,
        Err(e) => {
            return Err(e);
        },
    };
    match instantiate_module(module, heap_pages, functions) {
        Ok(instance) => Ok(instance),
        Err(e) => Err(e),
    }
}

} // verus!
