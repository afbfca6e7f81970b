//! End-to-end engine scenarios: loading, validation, import resolution,
//! call isolation, sandbox transfers and the packed-result call boundary,
//! driven by a small test executor standing in for the interpreter
//! primitive.

use parity_wasm::builder;
use parity_wasm::elements::{GlobalEntry, GlobalType, ImportEntry, InitExpr, Instruction};
use wasm_executor::context::{
    ChildInstantiationError, ExecutionContext, GuestTrap, SandboxRunner,
};
use wasm_executor::memory::LinearMemory;
use wasm_executor::module_info::{GlobalInfo, LoadError};
use wasm_executor::registry::{
    declarations_of, dispatch_host_call, resolve_import, Function, HostFunctionDecl,
};
use wasm_executor::context::HostError;
use wasm_executor::runtime::{create_instance, CallError};
use wasm_executor::sandbox::{ERR_EXECUTION, ERR_MODULE, ERR_OK, ERR_OUT_OF_BOUNDS};
use wasm_executor::wire::encode_env_def;
use wasm_executor::values::{
    encode_packed_result, Pointer, Signature, Value, ValueType,
};

/// A host function whose execution reports success with a marker value.
struct TestHostFn {
    name: &'static [u8],
    args: Vec<ValueType>,
    ret: Option<ValueType>,
}

impl Function<TestExecutor> for TestHostFn {
    fn name(&self) -> &[u8] {
        self.name
    }

    fn signature(&self) -> Signature {
        Signature::new(self.args.clone(), self.ret)
    }

    fn execute(
        &self,
        _context: &mut ExecutionContext,
        _runner: &mut TestExecutor,
        _args: &Vec<Value>,
    ) -> Result<Option<Value>, wasm_executor::context::HostError> {
        Ok(Some(Value::I32(self.name.len() as i32)))
    }
}

/// A stand-in for the interpreter primitive: it understands a few export
/// names and drives the context exactly as guest code would.
struct TestExecutor {
    /// The argument pointer of every call seen, to observe allocator
    /// reuse across snapshot restores.
    seen_arg_ptrs: Vec<u32>,
}

impl TestExecutor {
    fn new() -> Self {
        TestExecutor { seen_arg_ptrs: Vec::new() }
    }
}

fn le_i32(bytes: &[u8]) -> i32 {
    i32::from_le_bytes([bytes[0], bytes[1], bytes[2], bytes[3]])
}

impl SandboxRunner for TestExecutor {
    fn instantiate_child(
        &mut self,
        _ctx: &mut ExecutionContext,
        _instance_id: u32,
        _wasm: &[u8],
        _state: u32,
    ) -> Result<(), ChildInstantiationError> {
        Ok(())
    }

    fn invoke_child(
        &mut self,
        _ctx: &mut ExecutionContext,
        _instance_id: u32,
        _export_name: &[u8],
        _args: &Vec<Value>,
        _state: u32,
    ) -> Result<Option<Value>, GuestTrap> {
        Err(GuestTrap)
    }

    fn invoke_thunk(
        &mut self,
        _ctx: &mut ExecutionContext,
        _thunk_func: u32,
        _invoke_args_ptr: Pointer<u8>,
        _invoke_args_len: u32,
        _state: u32,
        _func_idx: u32,
    ) -> Result<Option<Value>, GuestTrap> {
        Err(GuestTrap)
    }

    fn invoke_export(
        &mut self,
        ctx: &mut ExecutionContext,
        globals: &mut Vec<GlobalInfo>,
        method: &[u8],
        args: &Vec<Value>,
    ) -> Result<Option<Value>, GuestTrap> {
        let (arg_ptr, arg_len) = match (args.get(0), args.get(1)) {
            (Some(Value::I32(p)), Some(Value::I32(l))) => (*p as u32, *l as u32),
            _ => return Err(GuestTrap),
        };
        self.seen_arg_ptrs.push(arg_ptr);
        let input = ctx.read_memory(Pointer::new(arg_ptr), arg_len).map_err(|_| GuestTrap)?;
        let output: Vec<u8> = if method == b"add" {
            if input.len() != 8 {
                return Err(GuestTrap);
            }
            let sum = le_i32(&input[0..4]).wrapping_add(le_i32(&input[4..8]));
            sum.to_le_bytes().to_vec()
        } else if method == b"get_g" {
            match globals.get(1) {
                Some(GlobalInfo { value: Value::I32(v), .. }) => v.to_le_bytes().to_vec(),
                _ => return Err(GuestTrap),
            }
        } else if method == b"set_g" {
            globals[1] = GlobalInfo { mutable: true, value: Value::I32(le_i32(&input[0..4])) };
            Vec::new()
        } else if method == b"peek16" {
            ctx.read_memory(Pointer::new(16), 2).map_err(|_| GuestTrap)?
        } else if method == b"poke16" {
            ctx.write_memory(Pointer::new(16), &input).map_err(|_| GuestTrap)?;
            Vec::new()
        } else {
            return Err(GuestTrap);
        };
        let out_ptr = ctx.allocate_memory(output.len() as u32).map_err(|_| GuestTrap)?;
        ctx.write_memory(out_ptr, &output).map_err(|_| GuestTrap)?;
        Ok(Some(Value::I64(
            encode_packed_result(out_ptr.raw(), output.len() as u32) as i64,
        )))
    }
}

/// A module exporting its memory, a heap base of 1024, a mutable global,
/// and the test entry points, with a data segment at offset 16.
fn test_module_bytes() -> Vec<u8> {
    let module = builder::module()
        .memory().with_min(1).with_max(Some(16)).build()
        .with_global(GlobalEntry::new(
            GlobalType::new(parity_wasm::elements::ValueType::I32, false),
            InitExpr::new(vec![Instruction::I32Const(1024), Instruction::End]),
        ))
        .with_global(GlobalEntry::new(
            GlobalType::new(parity_wasm::elements::ValueType::I32, true),
            InitExpr::new(vec![Instruction::I32Const(7), Instruction::End]),
        ))
        .data().offset(Instruction::I32Const(16)).value(b"hi".to_vec()).build()
        .export().field("memory").internal().memory(0).build()
        .export().field("__heap_base").internal().global(0).build()
        .export().field("g").internal().global(1).build()
        .build();
    parity_wasm::serialize(module).unwrap()
}

fn no_host_functions() -> Vec<HostFunctionDecl> {
    Vec::new()
}

#[test]
fn end_to_end_add_calls_in_any_order() {
    let bytes = test_module_bytes();
    let mut instance =
        create_instance(&bytes, 1, &no_host_functions()).unwrap();
    let mut exec = TestExecutor::new();

    let mut args: Vec<u8> = 2i32.to_le_bytes().to_vec();
    args.extend_from_slice(&3i32.to_le_bytes());
    let r = instance.call(&mut exec, "add", &args).unwrap();
    assert_eq!(le_i32(&r), 5);

    let mut args2: Vec<u8> = 100i32.to_le_bytes().to_vec();
    args2.extend_from_slice(&(-1i32).to_le_bytes());
    let r2 = instance.call(&mut exec, "add", &args2).unwrap();
    assert_eq!(le_i32(&r2), 99);

    // Order independence: the same calls again give the same answers.
    let r3 = instance.call(&mut exec, "add", &args).unwrap();
    assert_eq!(le_i32(&r3), 5);

    // Allocator reuse: every call starts from the restored snapshot, so
    // the argument block lands at the same address each time and heap
    // usage stays bounded across repeated calls.
    assert!(exec.seen_arg_ptrs.len() == 3);
    assert_eq!(exec.seen_arg_ptrs[0], exec.seen_arg_ptrs[1]);
    assert_eq!(exec.seen_arg_ptrs[0], exec.seen_arg_ptrs[2]);
}

#[test]
fn call_isolation_globals_and_memory() {
    let bytes = test_module_bytes();
    let mut instance =
        create_instance(&bytes, 1, &no_host_functions()).unwrap();
    let mut exec = TestExecutor::new();

    // The mutable global starts at its declared value.
    let r = instance.call(&mut exec, "get_g", &[]).unwrap();
    assert_eq!(le_i32(&r), 7);

    // Mutate it in one call...
    let new_value = 99i32.to_le_bytes().to_vec();
    instance.call(&mut exec, "set_g", &new_value).unwrap();

    // ...and read it back unchanged in the next: the snapshot restored it.
    let r = instance.call(&mut exec, "get_g", &[]).unwrap();
    assert_eq!(le_i32(&r), 7);

    // The data segment's bytes are restored before every call too.
    let r = instance.call(&mut exec, "peek16", &[]).unwrap();
    assert_eq!(r, b"hi".to_vec());
    instance.call(&mut exec, "poke16", b"XY").unwrap();
    let r = instance.call(&mut exec, "peek16", &[]).unwrap();
    assert_eq!(r, b"hi".to_vec());
}

#[test]
fn trap_fails_only_that_call() {
    let bytes = test_module_bytes();
    let mut instance =
        create_instance(&bytes, 1, &no_host_functions()).unwrap();
    let mut exec = TestExecutor::new();
    assert_eq!(instance.call(&mut exec, "no_such_export", &[]), Err(CallError::Trap));
    let mut args: Vec<u8> = 2i32.to_le_bytes().to_vec();
    args.extend_from_slice(&3i32.to_le_bytes());
    assert_eq!(le_i32(&instance.call(&mut exec, "add", &args).unwrap()), 5);
}

#[test]
fn start_function_is_rejected() {
    let mut module = builder::module()
        .memory().with_min(1).with_max(Some(16)).build()
        .with_global(GlobalEntry::new(
            GlobalType::new(parity_wasm::elements::ValueType::I32, false),
            InitExpr::new(vec![Instruction::I32Const(1024), Instruction::End]),
        ))
        .export().field("memory").internal().memory(0).build()
        .export().field("__heap_base").internal().global(0).build()
        .build();
    module.set_start_section(0);
    let bytes = parity_wasm::serialize(module).unwrap();
    let r = create_instance(&bytes, 1, &no_host_functions());
    assert!(matches!(r, Err(LoadError::RuntimeHasStartFn)));
}

#[test]
fn missing_memory_or_heap_base_is_rejected() {
    let module = builder::module()
        .with_global(GlobalEntry::new(
            GlobalType::new(parity_wasm::elements::ValueType::I32, false),
            InitExpr::new(vec![Instruction::I32Const(1024), Instruction::End]),
        ))
        .export().field("__heap_base").internal().global(0).build()
        .build();
    let bytes = parity_wasm::serialize(module).unwrap();
    let r = create_instance(&bytes, 1, &no_host_functions());
    assert!(matches!(r, Err(LoadError::InvalidMemoryReference)));

    let module = builder::module()
        .memory().with_min(1).with_max(Some(16)).build()
        .export().field("memory").internal().memory(0).build()
        .build();
    let bytes = parity_wasm::serialize(module).unwrap();
    let r = create_instance(&bytes, 1, &no_host_functions());
    assert!(matches!(r, Err(LoadError::HeapBaseNotFoundOrInvalid)));

    let r = create_instance(b"not a module", 1, &no_host_functions());
    assert!(matches!(r, Err(LoadError::InvalidModule)));
}

fn test_host_functions() -> Vec<TestHostFn> {
    vec![
        TestHostFn { name: b"first", args: vec![], ret: None },
        TestHostFn { name: b"gas", args: vec![ValueType::I64], ret: None },
        TestHostFn {
            name: b"read",
            args: vec![ValueType::I32, ValueType::I32],
            ret: Some(ValueType::I32),
        },
    ]
}

fn test_registry() -> Vec<HostFunctionDecl> {
    declarations_of(&test_host_functions())
}

#[test]
fn host_dispatch_is_positional() {
    let functions = test_host_functions();
    let memory = LinearMemory::new(1, 4).unwrap();
    let mut ctx = ExecutionContext::new(1024, memory, None);
    let mut exec = TestExecutor::new();
    // Position one is `gas`: the marker value is its name length.
    let r = dispatch_host_call(&functions, 1, &mut ctx, &mut exec, &vec![]);
    assert_eq!(r, Ok(Some(Value::I32(3))));
    // Beyond the registry no function is bound.
    assert!(dispatch_host_call(&functions, 17, &mut ctx, &mut exec, &vec![]).is_err());
}

#[test]
fn import_resolution_by_exact_name_and_signature() {
    let registry = test_registry();
    let good = Signature::new(vec![ValueType::I64], None);
    assert_eq!(resolve_import(&registry, b"gas", &good), Ok(1));

    // A matching name resolves to the same registry index on every load.
    assert_eq!(resolve_import(&registry, b"gas", &good), Ok(1));

    // The right name with the wrong signature fails distinctly from an
    // unresolved name.
    let wrong = Signature::new(vec![ValueType::I32], None);
    assert_eq!(
        resolve_import(&registry, b"gas", &wrong),
        Err(LoadError::ImportSignatureMismatch)
    );
    assert_eq!(
        resolve_import(&registry, b"missing", &good),
        Err(LoadError::UnresolvedImport)
    );
}

#[test]
fn module_imports_resolve_against_the_registry() {
    let registry = test_registry();
    // A module importing env.gas(i64) loads; env.gas(i32) and env.nope
    // fail with distinct errors.
    let build = |field: &str, param: parity_wasm::elements::ValueType| {
        let mut mb = builder::module();
        let sig = builder::signature().with_params(vec![param]).build_sig();
        let type_idx = mb.push_signature(sig);
        let module = mb
            .with_import(ImportEntry::new(
                "env".into(),
                field.into(),
                parity_wasm::elements::External::Function(type_idx),
            ))
            .memory().with_min(1).with_max(Some(16)).build()
            .with_global(GlobalEntry::new(
                GlobalType::new(parity_wasm::elements::ValueType::I32, false),
                InitExpr::new(vec![Instruction::I32Const(1024), Instruction::End]),
            ))
            .export().field("memory").internal().memory(0).build()
            .export().field("__heap_base").internal().global(0).build()
            .build();
        parity_wasm::serialize(module).unwrap()
    };

    let ok = build("gas", parity_wasm::elements::ValueType::I64);
    assert!(create_instance(&ok, 1, &registry).is_ok());

    let mismatch = build("gas", parity_wasm::elements::ValueType::I32);
    assert!(matches!(
        create_instance(&mismatch, 1, &registry),
        Err(LoadError::ImportSignatureMismatch)
    ));

    let unresolved = build("nope", parity_wasm::elements::ValueType::I64);
    assert!(matches!(
        create_instance(&unresolved, 1, &registry),
        Err(LoadError::UnresolvedImport)
    ));

    // The binding is the matching entry's position, used for dispatch.
    let instance = create_instance(&ok, 1, &registry).unwrap();
    assert_eq!(instance.import_bindings(), &vec![1usize]);
    let again = create_instance(&ok, 1, &registry).unwrap();
    assert_eq!(again.import_bindings(), &vec![1usize]);
}

#[test]
fn sandbox_transfers_are_bounds_checked_and_exact() {
    // A context over one page of guest memory with a one-page child.
    let memory = LinearMemory::new(1, 4).unwrap();
    let mut ctx = ExecutionContext::new(1024, memory, None);
    let id = ctx.memory_new(1, 1).unwrap();

    // Fill a region of the child, then read it back into guest memory.
    assert_eq!(ctx.write_memory(Pointer::new(64), b"abcd").unwrap(), ());
    assert_eq!(ctx.memory_set(id, 100, Pointer::new(64), 4).unwrap(), ERR_OK);
    assert_eq!(ctx.memory_get(id, 100, Pointer::new(200), 4).unwrap(), ERR_OK);
    assert_eq!(ctx.read_memory(Pointer::new(200), 4).unwrap(), b"abcd".to_vec());

    // An out-of-range child offset reports the status and changes nothing.
    assert_eq!(ctx.memory_get(id, 65534, Pointer::new(300), 4).unwrap(), ERR_OUT_OF_BOUNDS);
    assert_eq!(ctx.read_memory(Pointer::new(300), 4).unwrap(), vec![0, 0, 0, 0]);
    // An out-of-range guest buffer likewise.
    assert_eq!(ctx.memory_get(id, 0, Pointer::new(65534), 4).unwrap(), ERR_OUT_OF_BOUNDS);
    assert_eq!(ctx.memory_set(id, 65534, Pointer::new(0), 4).unwrap(), ERR_OUT_OF_BOUNDS);
    assert_eq!(ctx.memory_get(id, 100, Pointer::new(400), 4).unwrap(), ERR_OK);
    assert_eq!(ctx.read_memory(Pointer::new(400), 4).unwrap(), b"abcd".to_vec());

    // An unknown or torn-down id fails the host call.
    assert!(ctx.memory_get(9, 0, Pointer::new(0), 1).is_err());
    ctx.memory_teardown(id).unwrap();
    assert!(ctx.memory_get(id, 0, Pointer::new(0), 1).is_err());
}

#[test]
fn allocation_failures_are_per_call_errors() {
    let bytes = test_module_bytes();
    let mut instance =
        create_instance(&bytes, 1, &no_host_functions()).unwrap();
    let mut exec = TestExecutor::new();
    // The module's memory maxes out at sixteen pages; a one-megabyte
    // argument block cannot be staged.
    let huge = vec![0u8; 1 << 20];
    assert_eq!(instance.call(&mut exec, "add", &huge), Err(CallError::OutOfMemory));
    // The instance is unharmed.
    let mut args: Vec<u8> = 2i32.to_le_bytes().to_vec();
    args.extend_from_slice(&3i32.to_le_bytes());
    assert_eq!(le_i32(&instance.call(&mut exec, "add", &args).unwrap()), 5);
}

/// An executor whose dispatch thunk yields a value of the wrong shape.
struct WrongShapeThunk;

impl SandboxRunner for WrongShapeThunk {
    fn instantiate_child(
        &mut self,
        _ctx: &mut ExecutionContext,
        _instance_id: u32,
        _wasm: &[u8],
        _state: u32,
    ) -> Result<(), ChildInstantiationError> {
        Ok(())
    }

    fn invoke_child(
        &mut self,
        _ctx: &mut ExecutionContext,
        _instance_id: u32,
        _export_name: &[u8],
        _args: &Vec<Value>,
        _state: u32,
    ) -> Result<Option<Value>, GuestTrap> {
        Err(GuestTrap)
    }

    fn invoke_thunk(
        &mut self,
        _ctx: &mut ExecutionContext,
        _thunk_func: u32,
        _invoke_args_ptr: Pointer<u8>,
        _invoke_args_len: u32,
        _state: u32,
        _func_idx: u32,
    ) -> Result<Option<Value>, GuestTrap> {
        Ok(Some(Value::I32(1)))
    }

    fn invoke_export(
        &mut self,
        _ctx: &mut ExecutionContext,
        _globals: &mut Vec<GlobalInfo>,
        _method: &[u8],
        _args: &Vec<Value>,
    ) -> Result<Option<Value>, GuestTrap> {
        Err(GuestTrap)
    }
}

#[test]
fn sandbox_instances_and_dispatch_thunks() {
    // The outer module's indirect-call table holds one empty slot and one
    // callable at slot one.
    let table = Some(vec![None, Some(42u32)]);
    let memory = LinearMemory::new(1, 4).unwrap();
    let mut ctx = ExecutionContext::new(1024, memory, table);
    let mut exec = TestExecutor::new();

    // A child with no imports instantiates; its id comes back.
    let child = parity_wasm::serialize(builder::module().build()).unwrap();
    let env = encode_env_def(&vec![]).unwrap();
    let id = ctx.instance_new(&mut exec, 1, &child, &env, 0).unwrap();
    assert_eq!(id, 0);

    // Thunk slots out of range or empty are distinct host-call failures.
    assert_eq!(
        ctx.instance_new(&mut exec, 0, &child, &env, 0),
        Err(HostError::ThunkMissing)
    );
    assert_eq!(
        ctx.instance_new(&mut exec, 9, &child, &env, 0),
        Err(HostError::ThunkOutOfBounds)
    );

    // Malformed child bytes or import maps are guest-recoverable statuses.
    assert_eq!(ctx.instance_new(&mut exec, 1, b"junk", &env, 0), Ok(ERR_MODULE));
    assert_eq!(ctx.instance_new(&mut exec, 1, &child, b"junk", 0), Ok(ERR_MODULE));

    // Invoking an export of the child: the test executor traps, which is
    // the execution status, not a host-call failure.
    let args = wasm_executor::wire::encode_value_list(&vec![]).unwrap();
    assert_eq!(
        ctx.invoke(&mut exec, id, b"run", &args, Pointer::new(512), 16, 0),
        Ok(ERR_EXECUTION)
    );
    // Undecodable serialized arguments fail the host call.
    assert_eq!(
        ctx.invoke(&mut exec, id, b"run", b"junk", Pointer::new(512), 16, 0),
        Err(HostError::BadArguments)
    );
    // An unknown instance id fails the host call.
    assert_eq!(
        ctx.invoke(&mut exec, 7, b"run", &args, Pointer::new(512), 16, 0),
        Err(HostError::UnknownInstance)
    );

    // Tearing the instance down invalidates its id.
    ctx.instance_teardown(id).unwrap();
    assert_eq!(ctx.instance_teardown(id), Err(HostError::UnknownInstance));
}

#[test]
fn dispatch_thunk_requires_a_single_wide_value() {
    let table = Some(vec![Some(3u32)]);
    let memory = LinearMemory::new(1, 4).unwrap();
    let mut ctx = ExecutionContext::new(1024, memory, table);

    // A module without a table has no sandbox at all.
    let no_table = LinearMemory::new(1, 4).unwrap();
    let mut bare = ExecutionContext::new(1024, no_table, None);
    let mut exec = TestExecutor::new();
    let child = parity_wasm::serialize(builder::module().build()).unwrap();
    let env = encode_env_def(&vec![]).unwrap();
    assert_eq!(
        bare.instance_new(&mut exec, 0, &child, &env, 0),
        Err(HostError::NoTable)
    );

    // A trapping thunk fails the host call as a trap...
    let thunk = ctx.dispatch_thunk_at(0).unwrap();
    assert_eq!(thunk, 3);
    assert_eq!(
        ctx.invoke_dispatch_thunk(&mut exec, thunk, Pointer::new(0), 0, 0, 0),
        Err(HostError::Trap)
    );
    // ...and one yielding anything but a single 64-bit value is the
    // distinct shape error.
    let mut wrong = WrongShapeThunk;
    assert_eq!(
        ctx.invoke_dispatch_thunk(&mut wrong, thunk, Pointer::new(0), 0, 0, 0),
        Err(HostError::UnexpectedThunkResult)
    );
}

