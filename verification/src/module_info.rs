//! The engine's own model of a loaded guest module: what the structural
//! logic reads of it — imports, exports, globals, data segments, memory
//! declaration, indirect-call table and start function — held as plain
//! values, independent of any decoder.

use vstd::prelude::*;
use crate::memory::LinearMemory;
use crate::values::{Signature, Value};

verus! {

/// A load or instantiation failure. Fatal for the whole load: no partial
/// instance is ever returned.
#[derive(Copy, Clone, PartialEq, Eq, Structural, Debug)]
pub enum LoadError {
    /// The module bytes did not deserialize.
    InvalidModule,
    /// An imported name matched no host-registry entry.
    UnresolvedImport,
    /// An imported name matched an entry whose signature differs.
    ImportSignatureMismatch,
    /// An import other than a function was requested.
    UnsupportedImport,
    /// The module does not export its linear memory under `memory`.
    InvalidMemoryReference,
    /// The module does not export a 32-bit global under `__heap_base`.
    HeapBaseNotFoundOrInvalid,
    /// The module declares a start function.
    RuntimeHasStartFn,
    /// Growing the memory by the requested heap pages was refused.
    MemoryGrowRefused,
    /// A data segment's load offset could not be resolved.
    BadDataSegment,
}

/// What an export names inside the module.
#[derive(Copy, Clone, PartialEq, Eq, Structural, Debug)]
pub enum ExportKind {
    /// A function, by function index.
    Func(u32),
    /// A table, by table index.
    Table(u32),
    /// A linear memory, by memory index.
    Memory(u32),
    /// A global, by global index.
    Global(u32),
}

/// One export: its name and what it names.
pub struct ExportInfo {
    /// The exported name.
    pub name: Vec<u8>,
    /// What the name refers to.
    pub kind: ExportKind,
}

/// Where a data segment is loaded: at a constant offset, at the value of
/// the referenced global, or nowhere (a passive segment).
#[derive(Copy, Clone, PartialEq, Eq, Structural, Debug)]
pub enum SegmentOffset {
    /// A literal constant offset.
    Constant(u32),
    /// The current value of the global with this index.
    GlobalRef(u32),
    /// No offset: the segment is passive and is never loaded eagerly.
    Passive,
}

/// One data segment: its load offset and its bytes.
pub struct SegmentInfo {
    /// Where the segment is loaded.
    pub offset: SegmentOffset,
    /// The segment's bytes.
    pub data: Vec<u8>,
}

/// One global: whether it is mutable, and its value — the declared initial
/// value in a module, the current value in an instance.
#[derive(Copy, Clone, PartialEq, Eq, Structural, Debug)]
pub struct GlobalInfo {
    /// Whether the global is mutable.
    pub mutable: bool,
    /// The global's value.
    pub value: Value,
}

/// What an import requests.
pub enum ImportKind {
    /// A function with this signature.
    Func(Signature),
    /// Anything else — a table, memory or global — which this engine's
    /// import namespace does not offer.
    Other,
}

/// One import request: the module and field name, and what is requested.
pub struct ImportInfo {
    /// The requested module namespace.
    pub module: Vec<u8>,
    /// The requested field name.
    pub field: Vec<u8>,
    /// What is requested under that name.
    pub kind: ImportKind,
}

/// The module's linear memory declaration, in pages.
#[derive(Copy, Clone, PartialEq, Eq, Structural, Debug)]
pub struct MemoryDecl {
    /// The initial size, in pages.
    pub initial_pages: u32,
    /// The declared maximum size, in pages, if any.
    pub maximum_pages: Option<u32>,
}

/// The engine's model of a guest module.
pub struct ModuleInfo {
    /// The module's import requests, in declaration order.
    pub imports: Vec<ImportInfo>,
    /// The module's exports, in declaration order.
    pub exports: Vec<ExportInfo>,
    /// The module's globals with their initial values, in declaration
    /// order.
    pub globals: Vec<GlobalInfo>,
    /// The module's data segments, in declaration order.
    pub segments: Vec<SegmentInfo>,
    /// The module's linear memory declaration, if it has one.
    pub memory: Option<MemoryDecl>,
    /// The module's indirect-call table: per slot, the function index it
    /// holds, if any.
    pub table: Option<Vec<Option<u32>>>,
    /// Whether the module declares a start function.
    pub has_start: bool,
}

/// The live state of an instantiated module: its linear memory and the
/// current values of its globals.
pub struct InstanceState {
    /// The instance's linear memory.
    pub memory: LinearMemory,
    /// The instance's globals, in declaration order.
    pub globals: Vec<GlobalInfo>,
}

/// Whether two byte strings hold the same bytes.
pub fn bytes_eq(a: &[u8], b: &[u8]) -> (r: bool)
    ensures
        r == (a@ == b@),
{
    if a.len() != b.len() {
        proof {
            assert(a@.len() != b@.len());
        }
        return false;
    }
    let n = a.len();
    let mut i: usize = 0;
    while i < n
        invariant
            n == a@.len() == b@.len(),
            i <= n,
            forall|j: int| 0 <= j < i ==> a@[j] == b@[j],
        decreases n - i,
    {
        if *vstd::slice::slice_index_get(a, i) != *vstd::slice::slice_index_get(b, i) {
            return false;
        }
        i = i + 1;
    }
    proof {
        assert(a@ =~= b@);
    }
    true
}

/// The kind of the first export named `name`, if any export has that name.
pub open spec fn spec_find_export(exports: Seq<ExportInfo>, name: Seq<u8>) -> Option<ExportKind>
    decreases exports.len(),
{
    if exports.len() == 0 {
        None
    } else if exports[0].name@ == name {
        Some(exports[0].kind)
    } else {
        spec_find_export(exports.drop_first(), name)
    }
}

impl ModuleInfo {
    /// Look an export up by exact name; the first export with the name
    /// wins.
    pub fn find_export(&self, name: &[u8]) -> (r: Option<ExportKind>)
        ensures
            r == spec_find_export(self.exports@, name@),
    {
        let n = self.exports.len();
        proof {
            assert(self.exports@.subrange(0, n as int) =~= self.exports@);
        }
        let mut i: usize = 0;
        while i < n
            invariant
                n == self.exports@.len(),
                i <= n,
                spec_find_export(self.exports@, name@) == spec_find_export(
                    self.exports@.subrange(i as int, n as int),
                    name@,
                ),
            decreases n - i,
        {
            let entry = &self.exports[i];
            proof {
                assert(self.exports@.subrange(i as int, n as int)[0] == self.exports@[i as int]);
                assert(self.exports@.subrange(i as int, n as int).drop_first()
                    =~= self.exports@.subrange(i + 1, n as int));
            }
            if bytes_eq(entry.name.as_slice(), name) {
                return Some(entry.kind);
            }
            i = i + 1;
        }
        proof {
            assert(self.exports@.subrange(n as int, n as int) =~= Seq::<ExportInfo>::empty());
        }
        None
    }

    /// The heap base the module declares: the value of the 32-bit global
    /// exported under `__heap_base`, read against the given globals.
    ///
    /// Fails exactly when no export of that name exists, it is not a
    /// global, its index is out of range, or its value is not 32-bit.
    pub fn heap_base(&self, globals: &Vec<GlobalInfo>) -> (r: Result<u32, LoadError>)
        ensures
            r is Ok <==> match spec_find_export(self.exports@, spec_heap_base_name()) {
                Some(ExportKind::Global(idx)) => idx < globals@.len()
                    && globals@[idx as int].value is I32,
                _ => false,
            },
            r is Ok ==> match spec_find_export(self.exports@, spec_heap_base_name()) {
                Some(ExportKind::Global(idx)) => r->Ok_0 == globals@[idx as int].value->I32_0
                    as u32,
                _ => false,
            },
            r is Err ==> r->Err_0 == LoadError::HeapBaseNotFoundOrInvalid,
    {
        let name: [u8; 11] = [95u8, 95u8, 104u8, 101u8, 97u8, 112u8, 95u8, 98u8, 97u8, 115u8, 101u8];
        proof {
            assert(name@ =~= spec_heap_base_name());
        }
        match self.find_export(name.as_slice()) {
            Some(ExportKind::Global(idx)) => {
                if (idx as usize) < globals.len() {
                    match globals[idx as usize].value {
                        Value::I32(v) => Ok(v as u32),
                        _ => Err(LoadError::HeapBaseNotFoundOrInvalid),
                    }
                } else {
                    Err(LoadError::HeapBaseNotFoundOrInvalid)
                }
            },
            _ => Err(LoadError::HeapBaseNotFoundOrInvalid),
        }
    }

    /// Whether the module both declares a linear memory and exports it
    /// under `memory`.
    pub fn has_memory_export(&self) -> (r: bool)
        ensures
            r == (self.memory is Some && match spec_find_export(
                self.exports@,
                spec_memory_name(),
            ) {
                Some(ExportKind::Memory(_)) => true,
                _ => false,
            }),
    {
        if self.memory.is_none() {
            return false;
        }
        let name: [u8; 6] = [109u8, 101u8, 109u8, 111u8, 114u8, 121u8];
        proof {
            assert(name@ =~= spec_memory_name());
        }
        match self.find_export(name.as_slice()) {
            Some(ExportKind::Memory(_)) => true,
            _ => false,
        }
    }
}

/// The bytes of the mandatory heap-base export name, `__heap_base`.
pub open spec fn spec_heap_base_name() -> Seq<u8> {
    seq![95u8, 95u8, 104u8, 101u8, 97u8, 112u8, 95u8, 98u8, 97u8, 115u8, 101u8]
}

/// The bytes of the mandatory memory export name, `memory`.
pub open spec fn spec_memory_name() -> Seq<u8> {
    seq![109u8, 101u8, 109u8, 111u8, 114u8, 121u8]
}

} // verus!
