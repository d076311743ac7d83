use wasmi_v1::{
    BlockType, Caller, Config, Engine, Executor, Extern, Func, FuncBody, FuncEntity, FuncIdx,
    FuncType, FunctionBuilder, Instance, InstanceEntity, Memory, MemoryEntity, MemoryIdx, Module,
    ModuleResources, Operator, Pending, Signal, Store, TrapCode, Value, ValueType,
};

/// One function of a test module: its type, its locals and its operators.
struct Body {
    params: Vec<ValueType>,
    results: Vec<ValueType>,
    locals: Vec<(u32, ValueType)>,
    ops: Vec<Operator>,
}

/// The declarations of a test module: the host functions it imports come
/// first in the function space, its own functions follow.
fn declare(imports: &[FuncType], bodies: &[Body], memories: u32) -> Module {
    let mut module = Module::new();
    for import in imports {
        let ty = module.push_type(import.clone()).unwrap();
        module.push_func(ty).unwrap();
    }
    for body in bodies {
        let ty = module
            .push_type(FuncType::new(body.params.clone(), body.results.clone()))
            .unwrap();
        module.push_func(ty).unwrap();
    }
    for _ in 0..memories {
        module.push_memory().unwrap();
    }
    module
}

/// Translates the functions of a test module and stores their code.
fn compile(engine: &mut Engine, module: &Module, imports: usize, bodies: &[Body]) -> Vec<FuncBody> {
    let mut compiled = Vec::new();
    for (index, body) in bodies.iter().enumerate() {
        let func = FuncIdx((imports + index) as u32);
        let code = {
            let res = ModuleResources::new(module);
            FunctionBuilder::translate(engine, func, res, &body.locals, &body.ops).unwrap()
        };
        compiled.push(engine.alloc_func_body(code));
    }
    compiled
}

/// Puts an instance of a test module into the store. Every function is
/// exported under its name; the memory, if there is one, under `mem`.
fn instantiate<T>(
    store: &mut Store<T>,
    imports: &[FuncType],
    bodies: &[Body],
    code: &[FuncBody],
    names: &[&str],
    memory: Option<u32>,
) -> Instance {
    let handle = store.next_instance();
    let mut instance = InstanceEntity::new();
    for import in imports {
        instance.push_type(import.clone());
        let func = store.alloc_func(FuncEntity::Host { signature: import.clone() });
        instance.push_func(func);
    }
    for (index, body) in bodies.iter().enumerate() {
        let signature = FuncType::new(body.params.clone(), body.results.clone());
        instance.push_type(signature.clone());
        let func = store.alloc_func(FuncEntity::Wasm {
            signature,
            body: code[index],
            instance: handle,
        });
        instance.push_func(func);
        instance.push_export(names[index].to_string(), Extern::Func(func));
    }
    if let Some(pages) = memory {
        let memory = store.alloc_memory(MemoryEntity::new(pages, None).unwrap());
        instance.push_memory(memory);
        instance.push_export("mem".to_string(), Extern::Memory(memory));
    }
    assert_eq!(store.alloc_instance(instance), handle);
    handle
}

/// Calls `func` and runs it to the end. Host calls are answered by `host`.
fn call<T>(
    store: &mut Store<T>,
    func: Func,
    args: &[Value],
    host: &mut dyn FnMut(Caller<T>, Func, Vec<Value>) -> Result<Vec<Value>, TrapCode>,
) -> Result<Vec<Value>, TrapCode> {
    let mut executor = Executor::new(store.engine());
    let mut signal = executor.start(store, func, &args.to_vec());
    loop {
        signal = match signal {
            Signal::Continue | Signal::Interrupted => executor.run(store, 1_000),
            Signal::Finished => return Ok(executor.results(store).unwrap()),
            Signal::Trap(code) => return Err(code),
            Signal::HostCall(callee) => {
                assert_eq!(executor.pending(), Some(Pending::Host { func: callee }));
                let args = executor.host_args(store).unwrap();
                let instance = executor.instance();
                match host(Caller::new(store, instance), callee, args) {
                    Ok(results) => executor.resume_host(store, &results),
                    Err(code) => executor.resume_trap(store, code),
                }
            }
            Signal::Float(inst) => panic!("no float unit for {:?}", inst),
            Signal::Malformed => panic!("malformed code"),
        };
    }
}

fn no_host<T>(_: Caller<T>, _: Func, _: Vec<Value>) -> Result<Vec<Value>, TrapCode> {
    panic!("unexpected host call")
}

/// Loads the exported function with the given `func_name`.
fn load_func<T>(store: &Store<T>, instance: Instance, func_name: &str) -> Func {
    store
        .instance(instance)
        .unwrap()
        .get_export(func_name)
        .and_then(Extern::into_func)
        .unwrap()
}

/// Loads the exported memory of the instance.
fn load_memory<T>(store: &Store<T>, instance: Instance) -> Memory {
    store
        .instance(instance)
        .unwrap()
        .get_export("mem")
        .and_then(Extern::into_memory)
        .unwrap()
}

/// Builds an engine that holds the code of the given functions.
fn engine_for(imports: &[FuncType], bodies: &[Body], memories: u32) -> (Engine, Vec<FuncBody>) {
    let mut engine = Engine::new(Config::default());
    let module = declare(imports, bodies, memories);
    let code = compile(&mut engine, &module, imports.len(), bodies);
    (engine, code)
}

fn add() -> Body {
    Body {
        params: vec![ValueType::I32, ValueType::I32],
        results: vec![ValueType::I32],
        locals: vec![],
        ops: vec![
            Operator::LocalGet(0),
            Operator::LocalGet(1),
            Operator::I32Add,
            Operator::End,
        ],
    }
}

#[test]
fn test_add() {
    let bodies = [add()];
    let (engine, code) = engine_for(&[], &bodies, 0);
    let mut store = Store::new(&engine, ());
    let instance = instantiate(&mut store, &[], &bodies, &code, &["add"], None);
    let add = load_func(&store, instance, "add");
    let result = call(&mut store, add, &[Value::I32(1), Value::I32(2)], &mut no_host).unwrap();
    assert_eq!(result, [Value::I32(3)]);
}

#[test]
fn test_swap() {
    let bodies = [Body {
        params: vec![ValueType::I32, ValueType::I32],
        results: vec![ValueType::I32, ValueType::I32],
        locals: vec![],
        ops: vec![Operator::LocalGet(1), Operator::LocalGet(0), Operator::End],
    }];
    let (engine, code) = engine_for(&[], &bodies, 0);
    let mut store = Store::new(&engine, ());
    let instance = instantiate(&mut store, &[], &bodies, &code, &["swap"], None);
    let swap = load_func(&store, instance, "swap");
    let result = call(&mut store, swap, &[Value::I32(1), Value::I32(2)], &mut no_host).unwrap();
    assert_eq!(result, [Value::I32(2), Value::I32(1)]);
}

/// Returns an iterator over the first few factorial numbers.
fn factorial_numbers() -> impl Iterator<Item = i64> {
    [
        1, 1, 2, 6, 24, 120, 720, 5040, 40320, 362880, 3_628_800, 39_916_800,
    ]
    .into_iter()
}

fn factorial_iterative() -> Body {
    Body {
        params: vec![ValueType::I64],
        results: vec![ValueType::I64],
        locals: vec![(1, ValueType::I64)],
        ops: vec![
            Operator::I64Const(1),
            Operator::LocalSet(1),
            Operator::Block(BlockType::Empty),
            Operator::LocalGet(0),
            Operator::I64Const(2),
            Operator::I64LtS,
            Operator::BrIf(0),
            Operator::Loop(BlockType::Empty),
            Operator::LocalGet(1),
            Operator::LocalGet(0),
            Operator::I64Mul,
            Operator::LocalSet(1),
            Operator::LocalGet(0),
            Operator::I64Const(-1),
            Operator::I64Add,
            Operator::LocalSet(0),
            Operator::LocalGet(0),
            Operator::I64Const(1),
            Operator::I64GtS,
            Operator::BrIf(0),
            Operator::End,
            Operator::End,
            Operator::LocalGet(1),
            Operator::End,
        ],
    }
}

#[test]
fn test_factorial_loop() {
    fn test_for(factorial: Func, store: &mut Store<()>, input: i64, expected: i64) {
        let result = call(store, factorial, &[Value::I64(input)], &mut no_host).unwrap();
        assert_eq!(result, [Value::I64(expected)]);
    }

    let bodies = [factorial_iterative()];
    let (engine, code) = engine_for(&[], &bodies, 0);
    let mut store = Store::new(&engine, ());
    let instance = instantiate(&mut store, &[], &bodies, &code, &["factorial_iter"], None);
    let factorial = load_func(&store, instance, "factorial_iter");

    for (nth, expected) in factorial_numbers().enumerate() {
        test_for(factorial, &mut store, nth as i64, expected);
    }
}

fn factorial_recursive() -> Body {
    Body {
        params: vec![ValueType::I64],
        results: vec![ValueType::I64],
        locals: vec![],
        ops: vec![
            Operator::LocalGet(0),
            Operator::I64Const(0),
            Operator::I64Eq,
            Operator::If(BlockType::Returns(ValueType::I64)),
            Operator::I64Const(1),
            Operator::Else,
            Operator::LocalGet(0),
            Operator::LocalGet(0),
            Operator::I64Const(1),
            Operator::I64Sub,
            Operator::Call(FuncIdx(0)),
            Operator::I64Mul,
            Operator::End,
            Operator::End,
        ],
    }
}

#[test]
fn test_factorial_recursive() {
    fn test_for(factorial: Func, store: &mut Store<()>, input: i64, expected: i64) {
        let result = call(store, factorial, &[Value::I64(input)], &mut no_host).unwrap();
        assert_eq!(result, [Value::I64(expected)]);
    }

    let bodies = [factorial_recursive()];
    let (engine, code) = engine_for(&[], &bodies, 0);
    let mut store = Store::new(&engine, ());
    let instance = instantiate(&mut store, &[], &bodies, &code, &["factorial_rec"], None);
    let factorial = load_func(&store, instance, "factorial_rec");

    for (nth, expected) in factorial_numbers().enumerate() {
        test_for(factorial, &mut store, nth as i64, expected);
    }
}

#[test]
fn test_count_until() {
    fn test_for(count_until: Func, store: &mut Store<()>, test_input: i32) {
        let result = call(store, count_until, &[Value::I32(test_input)], &mut no_host).unwrap();
        assert_eq!(result, [Value::I32(test_input)]);
    }

    let bodies = [Body {
        params: vec![ValueType::I32],
        results: vec![ValueType::I32],
        locals: vec![(1, ValueType::I32)],
        ops: vec![
            Operator::Block(BlockType::Empty),
            Operator::Loop(BlockType::Empty),
            Operator::LocalGet(1),
            Operator::I32Const(1),
            Operator::I32Add,
            Operator::LocalTee(1),
            Operator::LocalGet(0),
            Operator::I32Eq,
            Operator::BrIf(1),
            Operator::Br(0),
            Operator::End,
            Operator::End,
            Operator::LocalGet(1),
            Operator::Return,
            Operator::End,
        ],
    }];
    let (engine, code) = engine_for(&[], &bodies, 0);
    let mut store = Store::new(&engine, ());
    let instance = instantiate(&mut store, &[], &bodies, &code, &["count_until"], None);
    let count_until = load_func(&store, instance, "count_until");

    for test_input in [1, 2, 5, 10, 100, 1000] {
        test_for(count_until, &mut store, test_input);
    }
}

/// Returns an iterator over the first few fibonacci numbers.
fn fibonacci_numbers() -> impl Iterator<Item = i32> {
    [
        0, 1, 1, 2, 3, 5, 8, 13, 21, 34, 55, 89, 144, 233, 377, 610, 987,
    ]
    .into_iter()
}

#[test]
fn test_fibonacci_iterative() {
    fn test_for(fibonacci: Func, store: &mut Store<()>, nth: i32, expected: i32) {
        let result = call(store, fibonacci, &[Value::I32(nth)], &mut no_host).unwrap();
        assert_eq!(result, [Value::I32(expected)]);
    }

    // locals: 1 = n1, 2 = n2, 3 = tmp, 4 = i
    let bodies = [Body {
        params: vec![ValueType::I32],
        results: vec![ValueType::I32],
        locals: vec![(4, ValueType::I32)],
        ops: vec![
            Operator::I32Const(1),
            Operator::LocalSet(1),
            Operator::I32Const(1),
            Operator::LocalSet(2),
            Operator::I32Const(2),
            Operator::LocalSet(4),
            Operator::LocalGet(0),
            Operator::I32Const(0),
            Operator::I32LeS,
            Operator::If(BlockType::Empty),
            Operator::I32Const(0),
            Operator::Return,
            Operator::End,
            Operator::LocalGet(0),
            Operator::I32Const(2),
            Operator::I32LeS,
            Operator::If(BlockType::Empty),
            Operator::I32Const(1),
            Operator::Return,
            Operator::End,
            Operator::Loop(BlockType::Empty),
            Operator::LocalGet(4),
            Operator::LocalGet(0),
            Operator::I32LtS,
            Operator::If(BlockType::Empty),
            Operator::LocalGet(1),
            Operator::LocalGet(2),
            Operator::I32Add,
            Operator::LocalSet(3),
            Operator::LocalGet(2),
            Operator::LocalSet(1),
            Operator::LocalGet(3),
            Operator::LocalSet(2),
            Operator::LocalGet(4),
            Operator::I32Const(1),
            Operator::I32Add,
            Operator::LocalSet(4),
            Operator::Br(1),
            Operator::End,
            Operator::End,
            Operator::LocalGet(2),
            Operator::End,
        ],
    }];
    let (engine, code) = engine_for(&[], &bodies, 0);
    let mut store = Store::new(&engine, ());
    let instance = instantiate(&mut store, &[], &bodies, &code, &["fibonacci_iterative"], None);
    let fibonacci = load_func(&store, instance, "fibonacci_iterative");

    for (nth, expected) in fibonacci_numbers().enumerate() {
        test_for(fibonacci, &mut store, nth as i32, expected);
    }
}

#[test]
fn test_fibonacci_recursive() {
    fn test_for(fibonacci: Func, store: &mut Store<()>, nth: i32, expected: i32) {
        let result = call(store, fibonacci, &[Value::I32(nth)], &mut no_host).unwrap();
        assert_eq!(result, [Value::I32(expected)]);
    }

    let bodies = [Body {
        params: vec![ValueType::I32],
        results: vec![ValueType::I32],
        locals: vec![],
        ops: vec![
            Operator::LocalGet(0),
            Operator::I32Const(1),
            Operator::I32LeS,
            Operator::If(BlockType::Empty),
            Operator::LocalGet(0),
            Operator::Return,
            Operator::End,
            Operator::LocalGet(0),
            Operator::I32Const(1),
            Operator::I32Sub,
            Operator::Call(FuncIdx(0)),
            Operator::LocalGet(0),
            Operator::I32Const(2),
            Operator::I32Sub,
            Operator::Call(FuncIdx(0)),
            Operator::I32Add,
            Operator::Return,
            Operator::End,
        ],
    }];
    let (engine, code) = engine_for(&[], &bodies, 0);
    let mut store = Store::new(&engine, ());
    let instance = instantiate(&mut store, &[], &bodies, &code, &["fibonacci_recursive"], None);
    let fibonacci = load_func(&store, instance, "fibonacci_recursive");

    for (nth, expected) in fibonacci_numbers().enumerate() {
        test_for(fibonacci, &mut store, nth as i32, expected);
    }
}

#[test]
fn test_memory_sum() {
    fn test_for(sum: Func, store: &mut Store<()>, mem: Memory, data: &[u8]) {
        assert!(store.write_memory(mem, 0, &data.to_vec()));
        let limit = data.len() as i32;
        let expected = data.iter().copied().map(|byte| byte as i8 as i64).sum();
        let result = call(store, sum, &[Value::I32(limit)], &mut no_host).unwrap();
        assert_eq!(result, [Value::I64(expected)]);
    }

    // locals: 1 = n, 2 = sum
    let bodies = [Body {
        params: vec![ValueType::I32],
        results: vec![ValueType::I64],
        locals: vec![(1, ValueType::I32), (1, ValueType::I64)],
        ops: vec![
            Operator::Block(BlockType::Empty),
            Operator::Loop(BlockType::Empty),
            Operator::LocalGet(1),
            Operator::LocalGet(0),
            Operator::I32GeS,
            Operator::BrIf(1),
            Operator::LocalGet(2),
            Operator::LocalGet(1),
            Operator::I64Load8S(MemoryIdx(0), 0),
            Operator::I64Add,
            Operator::LocalSet(2),
            Operator::LocalGet(1),
            Operator::I32Const(1),
            Operator::I32Add,
            Operator::LocalSet(1),
            Operator::Br(0),
            Operator::End,
            Operator::End,
            Operator::LocalGet(2),
            Operator::Return,
            Operator::End,
        ],
    }];
    let (engine, code) = engine_for(&[], &bodies, 1);
    let mut store = Store::new(&engine, ());
    let instance = instantiate(&mut store, &[], &bodies, &code, &["sum_bytes"], Some(1));
    let sum = load_func(&store, instance, "sum_bytes");
    let mem = load_memory(&store, instance);

    test_for(sum, &mut store, mem, &[]);
    test_for(sum, &mut store, mem, &[0; 10]);
    test_for(sum, &mut store, mem, &[1, 2, 3, 4, 5, 6, 7, 8, 9]);
    test_for(sum, &mut store, mem, &[1; 10]);
    test_for(sum, &mut store, mem, &[u8::MAX; 100]);
}

#[test]
fn test_memory_fill() {
    fn test_for(fill: Func, store: &mut Store<()>, mem: Memory, ptr: i32, len: i32, value: i32) {
        let params = [Value::I32(ptr), Value::I32(len), Value::I32(value)];
        assert_eq!(call(store, fill, &params, &mut no_host).unwrap(), []);
        let mut buffer = vec![0x00; len as usize];
        assert!(store.read_memory(mem, ptr as usize, &mut buffer));
        assert!(buffer.iter().all(|byte| (*byte as i32) == value));
    }

    // params: 0 = ptr, 1 = len, 2 = value; local 3 = end
    let bodies = [Body {
        params: vec![ValueType::I32, ValueType::I32, ValueType::I32],
        results: vec![],
        locals: vec![(1, ValueType::I32)],
        ops: vec![
            Operator::LocalGet(0),
            Operator::LocalGet(1),
            Operator::I32Add,
            Operator::LocalSet(3),
            Operator::Block(BlockType::Empty),
            Operator::Loop(BlockType::Empty),
            Operator::LocalGet(0),
            Operator::LocalGet(3),
            Operator::I32Eq,
            Operator::BrIf(1),
            Operator::LocalGet(0),
            Operator::LocalGet(2),
            Operator::I32Store8(MemoryIdx(0), 0),
            Operator::LocalGet(0),
            Operator::I32Const(1),
            Operator::I32Add,
            Operator::LocalSet(0),
            Operator::Br(0),
            Operator::End,
            Operator::End,
            Operator::End,
        ],
    }];
    let (engine, code) = engine_for(&[], &bodies, 1);
    let mut store = Store::new(&engine, ());
    let instance = instantiate(&mut store, &[], &bodies, &code, &["fill_bytes"], Some(1));
    let fill = load_func(&store, instance, "fill_bytes");
    let mem = load_memory(&store, instance);

    test_for(fill, &mut store, mem, 0, 0, 0);
    test_for(fill, &mut store, mem, 0, 1, 0x11);
    test_for(fill, &mut store, mem, 0, 10_000, 0x22);
    test_for(fill, &mut store, mem, 123, 456, 0x33);
}

#[test]
fn test_host_call_single_return() {
    #[derive(Debug, Copy, Clone)]
    pub struct HostData {
        value: i32,
    }

    let imports = [FuncType::new(vec![], vec![ValueType::I32])];
    let bodies = [Body {
        params: vec![],
        results: vec![ValueType::I32],
        locals: vec![],
        ops: vec![Operator::Call(FuncIdx(0)), Operator::End],
    }];
    let (engine, code) = engine_for(&imports, &bodies, 0);
    let mut store = Store::new(&engine, HostData { value: 42 });
    let instance = instantiate(&mut store, &imports, &bodies, &code, &["wasm"], None);
    let wasm = load_func(&store, instance, "wasm");

    fn test_for(wasm: Func, instance: Instance, store: &mut Store<HostData>, new_value: i32) {
        store.state_mut().value = new_value;
        let mut host = |ctx: Caller<HostData>, _: Func, _: Vec<Value>| {
            assert_eq!(ctx.instance, Some(instance));
            Ok(vec![Value::I32(ctx.host_data().value)])
        };
        let result = call(store, wasm, &[], &mut host).unwrap();
        let expected = store.state().value;
        assert_eq!(result, [Value::I32(expected)]);
    }

    test_for(wasm, instance, &mut store, 0);
    test_for(wasm, instance, &mut store, -1);
    test_for(wasm, instance, &mut store, 42);
    test_for(wasm, instance, &mut store, i32::MAX);
}

#[test]
fn test_host_call_multi_return() {
    #[derive(Debug, Copy, Clone)]
    pub struct HostData {
        condition: bool,
        a: i64,
        b: i64,
    }

    impl HostData {
        fn new(condition: bool, a: i64, b: i64) -> Self {
            Self { condition, a, b }
        }
    }

    let imports = [FuncType::new(
        vec![],
        vec![ValueType::I64, ValueType::I64, ValueType::I32],
    )];
    let bodies = [Body {
        params: vec![],
        results: vec![ValueType::I64],
        locals: vec![],
        ops: vec![Operator::Call(FuncIdx(0)), Operator::Select, Operator::End],
    }];
    let (engine, code) = engine_for(&imports, &bodies, 0);
    let mut store = Store::new(
        &engine,
        HostData {
            condition: false,
            a: 1,
            b: 2,
        },
    );
    let instance = instantiate(&mut store, &imports, &bodies, &code, &["wasm"], None);
    let wasm = load_func(&store, instance, "wasm");

    fn test_for(wasm: Func, store: &mut Store<HostData>, new_data: HostData) {
        *store.state_mut() = new_data;
        let mut host = |ctx: Caller<HostData>, _: Func, _: Vec<Value>| {
            let data = ctx.host_data();
            Ok(vec![
                Value::I64(data.a),
                Value::I64(data.b),
                Value::I32(data.condition as i32),
            ])
        };
        let result = call(store, wasm, &[], &mut host).unwrap();
        let expected = if store.state().condition {
            store.state().a
        } else {
            store.state().b
        };
        assert_eq!(result, [Value::I64(expected)]);
    }

    test_for(wasm, &mut store, HostData::new(true, 2, 3));
    test_for(wasm, &mut store, HostData::new(true, 2, 3));
    test_for(wasm, &mut store, HostData::new(false, 2, 3));
    test_for(wasm, &mut store, HostData::new(false, 2, 3));
}
