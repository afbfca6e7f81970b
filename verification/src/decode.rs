//! Decoding raw module bytes into the engine's module model.
//!
//! The binary module format is read by the `parity_wasm` deserializer, an
//! outside primitive this engine trusts for decoding only. Everything the
//! deserializer hands back is taken apart here, entry by entry, into plain
//! values of [`crate::module_info::ModuleInfo`]; every structural decision
//! — which init expressions are acceptable, how the indirect-call table is
//! laid out, which imports are representable — is made by verified code in
//! this module.

use vstd::prelude::*;
use parity_wasm::elements as pwasm;
use parity_wasm::elements::ValueType as PwasmValueType;
use crate::module_info::{
    ExportInfo, ExportKind, GlobalInfo, ImportInfo, ImportKind, LoadError, MemoryDecl, ModuleInfo,
    SegmentInfo, SegmentOffset,
};
use crate::values::{Signature, Value, ValueType};

verus! {

/// The largest indirect-call table this engine materializes, in slots: an
/// engine resource guard of the same kind as the memory page limit, so a
/// module cannot make the host allocate unbounded table storage before any
/// guest code runs.
pub const MAX_TABLE_SLOTS: u32 = 1048576;

/// Whether the bytes are a well-formed binary module the deserializer
/// accepts: a verdict of the bytes alone.
pub uninterp spec fn wasm_decodable(bytes: Seq<u8>) -> bool;

#[verifier::external_type_specification]
#[verifier::external_body]
pub struct ExModule(pwasm::Module);

#[verifier::external_type_specification]
#[verifier::external_body]
pub struct ExDataSegment(pwasm::DataSegment);

#[verifier::external_type_specification]
#[verifier::external_body]
pub struct ExInitExpr(pwasm::InitExpr);

#[verifier::external_type_specification]
#[verifier::external_body]
pub struct ExInstruction(pwasm::Instruction);

#[verifier::external_type_specification]
#[verifier::external_body]
pub struct ExExportEntry(pwasm::ExportEntry);

#[verifier::external_type_specification]
#[verifier::external_body]
pub struct ExInternal(pwasm::Internal);

#[verifier::external_type_specification]
#[verifier::external_body]
pub struct ExGlobalEntry(pwasm::GlobalEntry);

#[verifier::external_type_specification]
#[verifier::external_body]
pub struct ExGlobalType(pwasm::GlobalType);

#[verifier::external_type_specification]
#[verifier::external_body]
pub struct ExImportEntry(pwasm::ImportEntry);

#[verifier::external_type_specification]
#[verifier::external_body]
pub struct ExExternal(pwasm::External);

#[verifier::external_type_specification]
#[verifier::external_body]
pub struct ExType(pwasm::Type);

#[verifier::external_type_specification]
#[verifier::external_body]
pub struct ExFunctionType(pwasm::FunctionType);

#[verifier::external_type_specification]
#[verifier::external_body]
pub struct ExValueType(PwasmValueType);

#[verifier::external_type_specification]
#[verifier::external_body]
pub struct ExElementSegment(pwasm::ElementSegment);

#[verifier::external_type_specification]
#[verifier::external_body]
pub struct ExTableType(pwasm::TableType);

#[verifier::external_type_specification]
#[verifier::external_body]
pub struct ExMemoryType(pwasm::MemoryType);

#[verifier::external_type_specification]
#[verifier::external_body]
pub struct ExResizableLimits(pwasm::ResizableLimits);

/// Relies on parity_wasm::deserialize_buffer::<Module>: decodes the binary
/// module format — succeeding exactly on well-formed bytes, a function of
/// the bytes alone — or fails on malformed ones.
#[verifier::external_body]
fn decode_module_bytes(bytes: &[u8]) -> (r: Result<pwasm::Module, ()>)
    ensures
        r is Ok <==> wasm_decodable(bytes@),
{
    parity_wasm::deserialize_buffer::<pwasm::Module>(bytes).map_err(|_| ())
}

/// Relies on Module::data_section and DataSection::entries: the module's
/// data segments, empty when the section is absent.
#[verifier::external_body]
fn data_segments(m: &pwasm::Module) -> (r: &[pwasm::DataSegment])
{
    match m.data_section() {
        Some(s) => s.entries(),
        None => &[],
    }
}

/// Relies on Module::export_section and ExportSection::entries: the
/// module's exports, empty when the section is absent.
#[verifier::external_body]
fn export_entries(m: &pwasm::Module) -> (r: &[pwasm::ExportEntry])
{
    match m.export_section() {
        Some(s) => s.entries(),
        None => &[],
    }
}

/// Relies on Module::global_section and GlobalSection::entries: the
/// module's globals, empty when the section is absent.
#[verifier::external_body]
fn global_entries(m: &pwasm::Module) -> (r: &[pwasm::GlobalEntry])
{
    match m.global_section() {
        Some(s) => s.entries(),
        None => &[],
    }
}

/// Relies on Module::import_section and ImportSection::entries: the
/// module's imports, empty when the section is absent.
#[verifier::external_body]
fn import_entries(m: &pwasm::Module) -> (r: &[pwasm::ImportEntry])
{
    match m.import_section() {
        Some(s) => s.entries(),
        None => &[],
    }
}

/// Relies on Module::type_section and TypeSection::types: the module's
/// function types, empty when the section is absent.
#[verifier::external_body]
fn type_entries(m: &pwasm::Module) -> (r: &[pwasm::Type])
{
    match m.type_section() {
        Some(s) => s.types(),
        None => &[],
    }
}

/// Relies on Module::elements_section and ElementSection::entries: the
/// module's table element segments, empty when the section is absent.
#[verifier::external_body]
fn element_entries(m: &pwasm::Module) -> (r: &[pwasm::ElementSegment])
{
    match m.elements_section() {
        Some(s) => s.entries(),
        None => &[],
    }
}

/// Relies on Module::table_section and TableSection::entries: the module's
/// table declarations, empty when the section is absent.
#[verifier::external_body]
fn table_decls(m: &pwasm::Module) -> (r: &[pwasm::TableType])
{
    match m.table_section() {
        Some(s) => s.entries(),
        None => &[],
    }
}

/// Relies on Module::memory_section and MemorySection::entries: the
/// module's memory declarations, empty when the section is absent.
#[verifier::external_body]
fn memory_decls(m: &pwasm::Module) -> (r: &[pwasm::MemoryType])
{
    match m.memory_section() {
        Some(s) => s.entries(),
        None => &[],
    }
}

pub assume_specification[ pwasm::Module::start_section ](m: &pwasm::Module) -> Option<u32>;

pub assume_specification[ pwasm::DataSegment::offset ](s: &pwasm::DataSegment) -> &Option<
    pwasm::InitExpr,
>;

pub assume_specification[ pwasm::DataSegment::value ](s: &pwasm::DataSegment) -> &[u8];

pub assume_specification[ pwasm::InitExpr::code ](e: &pwasm::InitExpr) -> &[pwasm::Instruction];

pub assume_specification[ pwasm::ExportEntry::field ](e: &pwasm::ExportEntry) -> &str;

pub assume_specification[ pwasm::ExportEntry::internal ](e: &pwasm::ExportEntry) -> &pwasm::Internal;

pub assume_specification[ pwasm::GlobalEntry::global_type ](g: &pwasm::GlobalEntry) -> &pwasm::GlobalType;

pub assume_specification[ pwasm::GlobalEntry::init_expr ](g: &pwasm::GlobalEntry) -> &pwasm::InitExpr;

pub assume_specification[ pwasm::GlobalType::is_mutable ](g: &pwasm::GlobalType) -> bool;

pub assume_specification[ pwasm::ImportEntry::module ](e: &pwasm::ImportEntry) -> &str;

pub assume_specification[ pwasm::ImportEntry::field ](e: &pwasm::ImportEntry) -> &str;

pub assume_specification[ pwasm::ImportEntry::external ](e: &pwasm::ImportEntry) -> &pwasm::External;

pub assume_specification[ pwasm::FunctionType::params ](t: &pwasm::FunctionType) -> &[PwasmValueType];

pub assume_specification[ pwasm::FunctionType::results ](t: &pwasm::FunctionType) -> &[PwasmValueType];

pub assume_specification[ pwasm::ElementSegment::offset ](s: &pwasm::ElementSegment) -> &Option<
    pwasm::InitExpr,
>;

pub assume_specification[ pwasm::ElementSegment::members ](s: &pwasm::ElementSegment) -> &[u32];

pub assume_specification[ pwasm::TableType::limits ](t: &pwasm::TableType) -> &pwasm::ResizableLimits;

pub assume_specification[ pwasm::MemoryType::limits ](t: &pwasm::MemoryType) -> &pwasm::ResizableLimits;

pub assume_specification[ pwasm::ResizableLimits::initial ](l: &pwasm::ResizableLimits) -> u32;

pub assume_specification[ pwasm::ResizableLimits::maximum ](l: &pwasm::ResizableLimits) -> Option<
    u32,
>;

/// The decoder instructions this engine's structural logic distinguishes.
#[derive(Copy, Clone, PartialEq, Eq, Structural, Debug)]
pub enum InstrClass {
    /// A 32-bit integer constant.
    I32Const(i32),
    /// A 64-bit integer constant.
    I64Const(i64),
    /// A 32-bit float constant, as its raw bit pattern.
    F32Const(u32),
    /// A 64-bit float constant, as its raw bit pattern.
    F64Const(u64),
    /// A read of the global with the given index.
    GetGlobal(u32),
    /// The end of an expression.
    End,
    /// Any other instruction.
    Other,
}

/// Relies on the Instruction enum of parity_wasm: tells the variants this
/// engine's logic distinguishes apart, moving their fields.
#[verifier::external_body]
fn classify_instruction(i: &pwasm::Instruction) -> (r: InstrClass)
{
    match i {
        pwasm::Instruction::I32Const(v) => InstrClass::I32Const(*v),
        pwasm::Instruction::I64Const(v) => InstrClass::I64Const(*v),
        pwasm::Instruction::F32Const(v) => InstrClass::F32Const(*v),
        pwasm::Instruction::F64Const(v) => InstrClass::F64Const(*v),
        pwasm::Instruction::GetGlobal(idx) => InstrClass::GetGlobal(*idx),
        pwasm::Instruction::End => InstrClass::End,
        _ => InstrClass::Other,
    }
}

/// Relies on the Internal enum of parity_wasm: tells its four variants
/// apart, moving their index fields.
#[verifier::external_body]
fn classify_internal(i: &pwasm::Internal) -> (r: ExportKind)
{
    match i {
        pwasm::Internal::Function(idx) => ExportKind::Func(*idx),
        pwasm::Internal::Table(idx) => ExportKind::Table(*idx),
        pwasm::Internal::Memory(idx) => ExportKind::Memory(*idx),
        pwasm::Internal::Global(idx) => ExportKind::Global(*idx),
    }
}

/// What an import requests, before its function type is resolved.
#[derive(Copy, Clone, PartialEq, Eq, Structural, Debug)]
pub enum RawImportKind {
    /// A function whose type sits at this index of the type section.
    Func(u32),
    /// A table.
    Table,
    /// A memory.
    Memory,
    /// A global.
    Global,
}

/// Relies on the External enum of parity_wasm: tells its four variants
/// apart, moving the function's type index.
#[verifier::external_body]
fn classify_external(e: &pwasm::External) -> (r: RawImportKind)
{
    match e {
        pwasm::External::Function(type_idx) => RawImportKind::Func(*type_idx),
        pwasm::External::Table(_) => RawImportKind::Table,
        pwasm::External::Memory(_) => RawImportKind::Memory,
        pwasm::External::Global(_) => RawImportKind::Global,
    }
}

/// Relies on the ValueType enum of parity_wasm: tells its four variants
/// apart.
#[verifier::external_body]
fn classify_value_type(t: &PwasmValueType) -> (r: ValueType)
{
    match t {
        PwasmValueType::I32 => ValueType::I32,
        PwasmValueType::I64 => ValueType::I64,
        PwasmValueType::F32 => ValueType::F32,
        PwasmValueType::F64 => ValueType::F64,
    }
}

/// Relies on the Type enum of parity_wasm, whose only variant is a
/// function type: unwraps it, by reference.
#[verifier::external_body]
fn func_type_of(t: &pwasm::Type) -> (r: &pwasm::FunctionType)
{
    match t {
        pwasm::Type::Function(ft) => ft,
    }
}

/// The value of a well-formed constant init expression: exactly one
/// constant instruction followed by `End`.
pub open spec fn spec_const_init_value(classes: Seq<InstrClass>) -> Option<Value> {
    if classes.len() == 2 && classes[1] == InstrClass::End {
        match classes[0] {
            InstrClass::I32Const(v) => Some(Value::I32(v)),
            InstrClass::I64Const(v) => Some(Value::I64(v)),
            InstrClass::F32Const(v) => Some(Value::F32(v)),
            InstrClass::F64Const(v) => Some(Value::F64(v)),
            _ => None,
        }
    } else {
        None
    }
}

/// The load offset named by a well-formed segment offset expression:
/// exactly one 32-bit constant or one global read, followed by `End`.
pub open spec fn spec_segment_offset(classes: Seq<InstrClass>) -> Option<SegmentOffset> {
    if classes.len() == 2 && classes[1] == InstrClass::End {
        match classes[0] {
            InstrClass::I32Const(v) => Some(SegmentOffset::Constant(v as u32)),
            InstrClass::GetGlobal(idx) => Some(SegmentOffset::GlobalRef(idx)),
            _ => None,
        }
    } else {
        None
    }
}

/// Evaluate a global's constant init expression.
fn const_init_value(classes: &Vec<InstrClass>) -> (r: Option<Value>)
    ensures
        r == spec_const_init_value(classes@),
{
    if classes.len() != 2 {
        return None;
    }
    if classes[1] != InstrClass::End {
        return None;
    }
    match classes[0] {
        InstrClass::I32Const(v) => Some(Value::I32(v)),
        InstrClass::I64Const(v) => Some(Value::I64(v)),
        InstrClass::F32Const(v) => Some(Value::F32(v)),
        InstrClass::F64Const(v) => Some(Value::F64(v)),
        _ => None,
    }
}

/// Resolve the shape of a data or element segment's offset expression.
fn segment_offset_of(classes: &Vec<InstrClass>) -> (r: Option<SegmentOffset>)
    ensures
        r == spec_segment_offset(classes@),
{
    if classes.len() != 2 {
        return None;
    }
    if classes[1] != InstrClass::End {
        return None;
    }
    match classes[0] {
        InstrClass::I32Const(v) => Some(SegmentOffset::Constant(v as u32)),
        InstrClass::GetGlobal(idx) => Some(SegmentOffset::GlobalRef(idx)),
        _ => None,
    }
}

/// Classify every instruction of an init expression.
fn classify_init_expr(e: &pwasm::InitExpr) -> (r: Vec<InstrClass>) {
    let code = e.code();
    let mut out: Vec<InstrClass> = Vec::new();
    let n = code.len();
    let mut i: usize = 0;
    while i < n
        invariant
            i <= n,
            n == code@.len(),
        decreases n - i,
    {
        out.push(classify_instruction(vstd::slice::slice_index_get(code, i)));
        i = i + 1;
    }
    out
}

/// Turn a function type of the decoder into a boundary signature; fails
/// on more than one result, which the call boundary does not carry.
fn signature_of_func_type(ft: &pwasm::FunctionType) -> (r: Option<Signature>) {
    let params = ft.params();
    let mut args: Vec<ValueType> = Vec::new();
    let n = params.len();
    let mut i: usize = 0;
    while i < n
        invariant
            i <= n,
            n == params@.len(),
        decreases n - i,
    {
        args.push(classify_value_type(vstd::slice::slice_index_get(params, i)));
        i = i + 1;
    }
    let results = ft.results();
    if results.len() == 0 {
        Some(Signature::new_with_args(args))
    } else if results.len() == 1 {
        let ret = classify_value_type(vstd::slice::slice_index_get(results, 0));
        Some(Signature::new(args, Some(ret)))
    } else {
        None
    }
}

/// Decode raw module bytes into the engine's module model.
///
/// Fails with `InvalidModule` when the bytes do not deserialize, a global
/// has a non-constant init expression, an import's function type cannot be
/// represented, or the indirect-call table cannot be materialized; fails
/// with `BadDataSegment` when an active data segment's offset expression
/// is neither a 32-bit constant nor a global read.
pub fn decode_module(bytes: &[u8]) -> (r: Result<ModuleInfo, LoadError>)
    ensures
        !wasm_decodable(bytes@) ==> r == Err::<ModuleInfo, LoadError>(LoadError::InvalidModule),
        r is Ok ==> wasm_decodable(bytes@),
        r is Ok ==> (r->Ok_0.table matches Some(t) ==> t@.len() <= MAX_TABLE_SLOTS),
{
    let module = match decode_module_bytes(bytes) {
        Ok(m) => m,
        Err(()) => {
            return Err(LoadError::InvalidModule);
        },
    };
    // Globals: each init expression must be a single constant.
    let raw_globals = global_entries(&module);
    let mut globals: Vec<GlobalInfo> = Vec::new();
    let n_globals = raw_globals.len();
    let mut i: usize = 0;
    while i < n_globals
        invariant
            wasm_decodable(bytes@),
            i <= n_globals,
            n_globals == raw_globals@.len(),
        decreases n_globals - i,
    {
        let entry = vstd::slice::slice_index_get(raw_globals, i);
        let classes = classify_init_expr(entry.init_expr());
        let value = match const_init_value(&classes) {
            Some(v) => v,
            None => {
                return Err(LoadError::InvalidModule);
            },
        };
        globals.push(GlobalInfo { mutable: entry.global_type().is_mutable(), value });
        i = i + 1;
    }
    // Data segments: active ones carry a constant or global-read offset.
    let raw_segments = data_segments(&module);
    let mut segments: Vec<SegmentInfo> = Vec::new();
    let n_segments = raw_segments.len();
    let mut i: usize = 0;
    while i < n_segments
        invariant
            wasm_decodable(bytes@),
            i <= n_segments,
            n_segments == raw_segments@.len(),
        decreases n_segments - i,
    {
        let entry = vstd::slice::slice_index_get(raw_segments, i);
        let offset = match entry.offset() {
            Some(expr) => {
                let classes = classify_init_expr(expr);
                match segment_offset_of(&classes) {
                    Some(o) => o,
                    None => {
                        return Err(LoadError::BadDataSegment);
                    },
                }
            },
            None => SegmentOffset::Passive,
        };
        let data = vstd::slice::slice_to_vec(entry.value());
        segments.push(SegmentInfo { offset, data });
        i = i + 1;
    }
    // Exports.
    let raw_exports = export_entries(&module);
    let mut exports: Vec<ExportInfo> = Vec::new();
    let n_exports = raw_exports.len();
    let mut i: usize = 0;
    while i < n_exports
        invariant
            wasm_decodable(bytes@),
            i <= n_exports,
            n_exports == raw_exports@.len(),
        decreases n_exports - i,
    {
        let entry = vstd::slice::slice_index_get(raw_exports, i);
        let name = vstd::slice::slice_to_vec(entry.field().as_bytes());
        exports.push(ExportInfo { name, kind: classify_internal(entry.internal()) });
        i = i + 1;
    }
    // Imports: function imports resolve their type-section entry.
    let types = type_entries(&module);
    let raw_imports = import_entries(&module);
    let mut imports: Vec<ImportInfo> = Vec::new();
    let n_imports = raw_imports.len();
    let mut i: usize = 0;
    while i < n_imports
        invariant
            wasm_decodable(bytes@),
            i <= n_imports,
            n_imports == raw_imports@.len(),
        decreases n_imports - i,
    {
        let entry = vstd::slice::slice_index_get(raw_imports, i);
        let kind = match classify_external(entry.external()) {
            RawImportKind::Func(type_idx) => {
                if (type_idx as usize) >= types.len() {
                    return Err(LoadError::InvalidModule);
                }
                let ft = func_type_of(vstd::slice::slice_index_get(types, type_idx as usize));
                match signature_of_func_type(ft) {
                    Some(sig) => ImportKind::Func(sig),
                    None => {
                        return Err(LoadError::InvalidModule);
                    },
                }
            },
            RawImportKind::Table => ImportKind::Other,
            RawImportKind::Memory => ImportKind::Other,
            RawImportKind::Global => ImportKind::Other,
        };
        imports.push(
            ImportInfo {
                module: vstd::slice::slice_to_vec(entry.module().as_bytes()),
                field: vstd::slice::slice_to_vec(entry.field().as_bytes()),
                kind,
            },
        );
        i = i + 1;
    }
    // Memory declaration: the first one, if any.
    let raw_memories = memory_decls(&module);
    let memory = if raw_memories.len() > 0 {
        let limits = vstd::slice::slice_index_get(raw_memories, 0).limits();
        Some(MemoryDecl { initial_pages: limits.initial(), maximum_pages: limits.maximum() })
    } else {
        None
    };
    // Indirect-call table: materialized from the first table declaration
    // and the element segments, which must use constant offsets.
    let raw_tables = table_decls(&module);
    let table = if raw_tables.len() > 0 {
        let slots = vstd::slice::slice_index_get(raw_tables, 0).limits().initial();
        if slots > MAX_TABLE_SLOTS {
            return Err(LoadError::InvalidModule);
        }
        let mut t: Vec<Option<u32>> = Vec::new();
        let mut k: u32 = 0;
        while k < slots
            invariant
                wasm_decodable(bytes@),
                k <= slots,
                t@.len() == k,
            decreases slots - k,
        {
            t.push(None);
            k = k + 1;
        }
        let raw_elements = element_entries(&module);
        let n_elements = raw_elements.len();
        let mut i: usize = 0;
        while i < n_elements
            invariant
                wasm_decodable(bytes@),
                i <= n_elements,
                n_elements == raw_elements@.len(),
                t@.len() == slots,
                slots <= MAX_TABLE_SLOTS,
            decreases n_elements - i,
        {
            let entry = vstd::slice::slice_index_get(raw_elements, i);
            let base = match entry.offset() {
                Some(expr) => {
                    let classes = classify_init_expr(expr);
                    match segment_offset_of(&classes) {
                        Some(SegmentOffset::Constant(o)) => o,
                        _ => {
                            return Err(LoadError::InvalidModule);
                        },
                    }
                },
                None => {
                    return Err(LoadError::InvalidModule);
                },
            };
            let members = entry.members();
            let n_members = members.len();
            if n_members > (MAX_TABLE_SLOTS as usize) {
                return Err(LoadError::InvalidModule);
            }
            if (base as u64) + (n_members as u64) > (slots as u64) {
                return Err(LoadError::InvalidModule);
            }
            let mut j: usize = 0;
            while j < n_members
                invariant
                    wasm_decodable(bytes@),
                    j <= n_members,
                    n_members == members@.len(),
                    t@.len() == slots,
                    slots <= MAX_TABLE_SLOTS,
                    base + n_members <= slots,
                decreases n_members - j,
            {
                let func = *vstd::slice::slice_index_get(members, j);
                t[(base as usize) + j] = Some(func);
                j = j + 1;
            }
            i = i + 1;
        }
        Some(t)
    } else {
        None
    };
    let has_start = module.start_section().is_some();
    Ok(ModuleInfo { imports, exports, globals, segments, memory, table, has_start })
}

} // verus!
