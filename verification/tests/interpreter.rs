use wasmi_v1::memory::PAGE_SIZE;
use wasmi_v1::{
    BlockType, BrTable, CompiledFunc, Config, DropKeep, Engine, Executor, Extern, Func, FuncBody,
    FuncEntity, FuncIdx, FuncType, FuncTypeIdx, FunctionBuilder, GlobalEntity, GlobalIdx,
    GlobalType, InstanceEntity, Instruction, InstructionIdx, InstructionsBuilder, MemoryEntity,
    MemoryIdx, Module, ModuleResources, Operator, Pending, RelativeDepth, Signal, Store,
    TableEntity, TableIdx, Target, TrapCode, UntypedValue, Value, ValueType, F32, F64,
};

use ValueType::{I32, I64};

/// One function: its type, its locals and its operators.
struct Body {
    params: Vec<ValueType>,
    results: Vec<ValueType>,
    locals: Vec<(u32, ValueType)>,
    ops: Vec<Operator>,
}

fn body(params: &[ValueType], results: &[ValueType], ops: Vec<Operator>) -> Body {
    Body { params: params.to_vec(), results: results.to_vec(), locals: vec![], ops }
}

/// Translates the given functions as the functions 0, 1, ... of one module
/// with one memory, one table and two globals.
fn compile(engine: &mut Engine, bodies: &[Body]) -> Vec<FuncBody> {
    let mut module = Module::new();
    for body in bodies {
        let ty = module
            .push_type(FuncType::new(body.params.clone(), body.results.clone()))
            .unwrap();
        module.push_func(ty).unwrap();
    }
    module.push_memory().unwrap();
    module.push_table().unwrap();
    module.push_global(GlobalType { value_type: I32, mutable: true }).unwrap();
    module.push_global(GlobalType { value_type: I64, mutable: true }).unwrap();
    let mut code = Vec::new();
    for (index, body) in bodies.iter().enumerate() {
        let compiled = FunctionBuilder::translate(
            engine,
            FuncIdx(index as u32),
            ModuleResources::new(&module),
            &body.locals,
            &body.ops,
        )
        .unwrap();
        code.push(engine.alloc_func_body(compiled));
    }
    code
}

/// Puts an instance of the functions into the store, with a memory of one
/// page that can grow to two, a table of four slots that holds the functions
/// from slot 0 on, and the two globals.
fn instantiate(store: &mut Store<()>, bodies: &[Body], code: &[FuncBody]) -> Vec<Func> {
    let handle = store.next_instance();
    let mut instance = InstanceEntity::new();
    let mut table = TableEntity::new(4);
    let mut funcs = Vec::new();
    for (index, body) in bodies.iter().enumerate() {
        let signature = FuncType::new(body.params.clone(), body.results.clone());
        instance.push_type(signature.clone());
        let func = store.alloc_func(FuncEntity::Wasm {
            signature,
            body: code[index],
            instance: handle,
        });
        instance.push_func(func);
        if index < 3 {
            assert!(table.set(index as u32, Some(func)));
        }
        funcs.push(func);
    }
    let memory = store.alloc_memory(MemoryEntity::new(1, Some(2)).unwrap());
    instance.push_memory(memory);
    let table = store.alloc_table(table);
    instance.push_table(table);
    let global = store.alloc_global(GlobalEntity::new(Value::I32(5), true));
    instance.push_global(global);
    let global = store.alloc_global(GlobalEntity::new(Value::I64(-1), true));
    instance.push_global(global);
    store.alloc_instance(instance);
    funcs
}

/// Runs function 0 of the given functions on the given arguments.
fn run_with(config: Config, bodies: &[Body], args: &[Value]) -> Result<Vec<Value>, Signal> {
    let mut engine = Engine::new(config);
    let code = compile(&mut engine, bodies);
    let mut store = Store::new(&engine, ());
    let funcs = instantiate(&mut store, bodies, &code);
    let mut executor = Executor::new(&engine);
    match executor.start(&store, funcs[0], &args.to_vec()) {
        Signal::Continue => {}
        other => return Err(other),
    }
    match executor.run(&mut store, 1_000_000) {
        Signal::Finished => Ok(executor.results(&store).unwrap()),
        other => Err(other),
    }
}

fn run(bodies: &[Body], args: &[Value]) -> Result<Vec<Value>, Signal> {
    run_with(Config::default(), bodies, args)
}

fn trap(code: TrapCode) -> Result<Vec<Value>, Signal> {
    Err(Signal::Trap(code))
}

#[test]
fn division_traps_are_raised_by_running_code() {
    let div_s = [body(
        &[I32, I32],
        &[I32],
        vec![Operator::LocalGet(0), Operator::LocalGet(1), Operator::I32DivS, Operator::End],
    )];
    assert_eq!(
        run(&div_s, &[Value::I32(i32::MIN), Value::I32(-1)]),
        trap(TrapCode::IntegerOverflow)
    );
    assert_eq!(run(&div_s, &[Value::I32(7), Value::I32(-2)]), Ok(vec![Value::I32(-3)]));
    let div_u = [body(
        &[I32, I32],
        &[I32],
        vec![Operator::LocalGet(0), Operator::LocalGet(1), Operator::I32DivU, Operator::End],
    )];
    for x in [0, 1, -1, i32::MAX] {
        assert_eq!(
            run(&div_u, &[Value::I32(x), Value::I32(0)]),
            trap(TrapCode::DivisionByZero)
        );
    }
}

#[test]
fn conversions_of_nan_trap_or_saturate() {
    let nan = Value::F32(F32::from_bits(f32::NAN.to_bits()));
    let trapping = [body(
        &[ValueType::F32],
        &[I32],
        vec![Operator::LocalGet(0), Operator::I32TruncF32S, Operator::End],
    )];
    assert_eq!(run(&trapping, &[nan]), trap(TrapCode::InvalidConversionToInt));
    assert_eq!(
        run(&trapping, &[Value::F32(F32::from_bits((-3.7f32).to_bits()))]),
        Ok(vec![Value::I32(-3)])
    );
    let saturating = [body(
        &[ValueType::F32],
        &[I32],
        vec![Operator::LocalGet(0), Operator::I32TruncSatF32S, Operator::End],
    )];
    assert_eq!(run(&saturating, &[nan]), Ok(vec![Value::I32(0)]));
}

#[test]
fn unreachable_traps() {
    let bodies = [body(&[], &[], vec![Operator::Unreachable, Operator::End])];
    assert_eq!(run(&bodies, &[]), trap(TrapCode::Unreachable));
}

fn load_at(offset: u32) -> [Body; 1] {
    [body(
        &[I32],
        &[I64],
        vec![Operator::LocalGet(0), Operator::I64Load(MemoryIdx(0), offset), Operator::End],
    )]
}

#[test]
fn a_load_beyond_the_memory_traps() {
    let size = PAGE_SIZE as i32;
    assert_eq!(run(&load_at(0), &[Value::I32(size - 8)]), Ok(vec![Value::I64(0)]));
    assert_eq!(
        run(&load_at(0), &[Value::I32(size - 7)]),
        trap(TrapCode::MemoryAccessOutOfBounds)
    );
    assert_eq!(run(&load_at(8), &[Value::I32(size - 16)]), Ok(vec![Value::I64(0)]));
    assert_eq!(
        run(&load_at(9), &[Value::I32(size - 16)]),
        trap(TrapCode::MemoryAccessOutOfBounds)
    );
    // base and offset are added without wrapping around
    assert_eq!(
        run(&load_at(u32::MAX), &[Value::I32(-1)]),
        trap(TrapCode::MemoryAccessOutOfBounds)
    );
    assert_eq!(
        run(&load_at(1), &[Value::I32(-1)]),
        trap(TrapCode::MemoryAccessOutOfBounds)
    );
}

#[test]
fn a_store_beyond_the_memory_traps_and_writes_nothing() {
    let bodies = [body(
        &[I32],
        &[I32],
        vec![
            Operator::LocalGet(0),
            Operator::I64Const(-1),
            Operator::I64Store(MemoryIdx(0), 4),
            Operator::I32Const(1),
            Operator::End,
        ],
    )];
    let mut engine = Engine::new(Config::default());
    let code = compile(&mut engine, &bodies);
    let mut store = Store::new(&engine, ());
    let funcs = instantiate(&mut store, &bodies, &code);
    let memory = store.instance(wasmi_v1::Instance(0)).unwrap().get_memory(0).unwrap();
    let mut executor = Executor::new(&engine);
    let base = PAGE_SIZE - 8;
    assert_eq!(
        executor.start(&store, funcs[0], &vec![Value::I32(base as i32)]),
        Signal::Continue
    );
    assert_eq!(
        executor.run(&mut store, 100),
        Signal::Trap(TrapCode::MemoryAccessOutOfBounds)
    );
    let mut tail = vec![1u8; 8];
    assert!(store.read_memory(memory, base, &mut tail));
    assert_eq!(tail, [0; 8]);
    // after the trap both stacks are empty and the store can be used again
    assert_eq!(executor.results(&store), Some(vec![]).filter(|_| false));
    assert_eq!(
        executor.start(&store, funcs[0], &vec![Value::I32(base as i32 - 4)]),
        Signal::Continue
    );
    assert_eq!(executor.run(&mut store, 100), Signal::Finished);
    assert_eq!(executor.results(&store), Some(vec![Value::I32(1)]));
    assert!(store.read_memory(memory, base, &mut tail));
    assert_eq!(tail, [0xff; 8]);
}

#[test]
fn partial_loads_extend_to_the_result_type() {
    let load = |op: Operator, result: ValueType| {
        [body(
            &[],
            &[result],
            vec![
                Operator::I32Const(0),
                Operator::I64Const(0x8182_8384_8586_87f8u64 as i64),
                Operator::I64Store(MemoryIdx(0), 0),
                Operator::I32Const(0),
                op,
                Operator::End,
            ],
        )]
    };
    let m = MemoryIdx(0);
    assert_eq!(run(&load(Operator::I32Load8S(m, 0), I32), &[]), Ok(vec![Value::I32(-8)]));
    assert_eq!(run(&load(Operator::I32Load8U(m, 0), I32), &[]), Ok(vec![Value::I32(0xf8)]));
    assert_eq!(run(&load(Operator::I32Load16S(m, 0), I32), &[]), Ok(vec![Value::I32(-30728)]));
    assert_eq!(run(&load(Operator::I32Load16U(m, 0), I32), &[]), Ok(vec![Value::I32(0x87f8)]));
    assert_eq!(
        run(&load(Operator::I32Load(m, 0), I32), &[]),
        Ok(vec![Value::I32(0x8586_87f8u32 as i32)])
    );
    assert_eq!(run(&load(Operator::I64Load8S(m, 1), I64), &[]), Ok(vec![Value::I64(-121)]));
    assert_eq!(run(&load(Operator::I64Load8U(m, 1), I64), &[]), Ok(vec![Value::I64(0x87)]));
    assert_eq!(run(&load(Operator::I64Load16S(m, 2), I64), &[]), Ok(vec![Value::I64(-31354)]));
    assert_eq!(run(&load(Operator::I64Load16U(m, 2), I64), &[]), Ok(vec![Value::I64(0x8586)]));
    assert_eq!(
        run(&load(Operator::I64Load32S(m, 4), I64), &[]),
        Ok(vec![Value::I64(0x8182_8384u32 as i32 as i64)])
    );
    assert_eq!(
        run(&load(Operator::I64Load32U(m, 4), I64), &[]),
        Ok(vec![Value::I64(0x8182_8384)])
    );
    assert_eq!(
        run(&load(Operator::F64Load(m, 0), ValueType::F64), &[]),
        Ok(vec![Value::F64(F64::from_bits(0x8182_8384_8586_87f8))])
    );
    assert_eq!(
        run(&load(Operator::F32Load(m, 4), ValueType::F32), &[]),
        Ok(vec![Value::F32(F32::from_bits(0x8182_8384))])
    );
}

#[test]
fn narrow_stores_write_the_low_bytes() {
    let bodies = [body(
        &[],
        &[I64],
        vec![
            Operator::I32Const(0),
            Operator::I64Const(-1),
            Operator::I64Store(MemoryIdx(0), 0),
            Operator::I32Const(0),
            Operator::I32Const(0x1234_5678),
            Operator::I32Store8(MemoryIdx(0), 0),
            Operator::I32Const(0),
            Operator::I32Const(0x1234_5678),
            Operator::I32Store16(MemoryIdx(0), 2),
            Operator::I32Const(0),
            Operator::I64Const(0x0102_0304_0506_0708),
            Operator::I64Store32(MemoryIdx(0), 4),
            Operator::I32Const(0),
            Operator::I64Load(MemoryIdx(0), 0),
            Operator::End,
        ],
    )];
    assert_eq!(run(&bodies, &[]), Ok(vec![Value::I64(0x0506_0708_5678_ff78)]));
}

#[test]
fn the_memory_grows_up_to_its_maximum() {
    let bodies = [body(
        &[I32],
        &[I32, I32],
        vec![
            Operator::LocalGet(0),
            Operator::MemoryGrow(MemoryIdx(0)),
            Operator::MemorySize(MemoryIdx(0)),
            Operator::End,
        ],
    )];
    assert_eq!(run(&bodies, &[Value::I32(0)]), Ok(vec![Value::I32(1), Value::I32(1)]));
    assert_eq!(run(&bodies, &[Value::I32(1)]), Ok(vec![Value::I32(1), Value::I32(2)]));
    assert_eq!(run(&bodies, &[Value::I32(2)]), Ok(vec![Value::I32(-1), Value::I32(1)]));
    assert_eq!(run(&bodies, &[Value::I32(-1)]), Ok(vec![Value::I32(-1), Value::I32(1)]));
}

#[test]
fn globals_are_read_and_written() {
    let bodies = [body(
        &[I32],
        &[I32, I64],
        vec![
            Operator::GlobalGet(GlobalIdx(0)),
            Operator::LocalGet(0),
            Operator::I32Add,
            Operator::GlobalSet(GlobalIdx(0)),
            Operator::GlobalGet(GlobalIdx(0)),
            Operator::GlobalGet(GlobalIdx(1)),
            Operator::End,
        ],
    )];
    assert_eq!(run(&bodies, &[Value::I32(37)]), Ok(vec![Value::I32(42), Value::I64(-1)]));
}

/// Function 0 calls the function in the table slot given by its argument,
/// expecting the type of function 1; function 1 and 2 differ in type.
fn indirect() -> [Body; 3] {
    [
        body(
            &[I32],
            &[I32],
            vec![
                Operator::I32Const(20),
                Operator::LocalGet(0),
                Operator::CallIndirect(FuncTypeIdx(1), TableIdx(0)),
                Operator::End,
            ],
        ),
        body(
            &[I32],
            &[I32],
            vec![Operator::LocalGet(0), Operator::I32Const(1), Operator::I32Add, Operator::End],
        ),
        body(&[I64], &[I32], vec![Operator::I32Const(0), Operator::End]),
    ]
}

#[test]
fn an_indirect_call_checks_the_table_and_the_type() {
    assert_eq!(run(&indirect(), &[Value::I32(1)]), Ok(vec![Value::I32(21)]));
    assert_eq!(run(&indirect(), &[Value::I32(2)]), trap(TrapCode::UnexpectedSignature));
    assert_eq!(run(&indirect(), &[Value::I32(3)]), trap(TrapCode::ElemUninitialized));
    assert_eq!(run(&indirect(), &[Value::I32(4)]), trap(TrapCode::TableAccessOutOfBounds));
    assert_eq!(run(&indirect(), &[Value::I32(-1)]), trap(TrapCode::TableAccessOutOfBounds));
    // function 0 has the same type as function 1, for types are compared by
    // their parameters and results: slot 0 is called, and calls slot 20
    assert_eq!(run(&indirect(), &[Value::I32(0)]), trap(TrapCode::TableAccessOutOfBounds));
}

#[test]
fn endless_recursion_overflows_the_call_stack() {
    let bodies = [body(&[], &[], vec![Operator::Call(FuncIdx(0)), Operator::End])];
    assert_eq!(run(&bodies, &[]), trap(TrapCode::StackOverflow));
}

#[test]
fn a_call_needs_room_on_the_value_stack() {
    let bodies = || {
        [Body {
            params: vec![I32],
            results: vec![I32],
            locals: vec![(10, I64)],
            ops: vec![
                Operator::LocalGet(0),
                Operator::I32Eqz,
                Operator::If(BlockType::Returns(I32)),
                Operator::I32Const(0),
                Operator::Else,
                Operator::LocalGet(0),
                Operator::I32Const(1),
                Operator::I32Sub,
                Operator::Call(FuncIdx(0)),
                Operator::I32Const(1),
                Operator::I32Add,
                Operator::End,
                Operator::End,
            ],
        }]
    };
    let small = Config { max_stack_height: 64, ..Config::default() };
    assert_eq!(run_with(small, &bodies(), &[Value::I32(3)]), Ok(vec![Value::I32(3)]));
    assert_eq!(run_with(small, &bodies(), &[Value::I32(10)]), trap(TrapCode::StackOverflow));
    assert_eq!(run(&bodies(), &[Value::I32(10)]), Ok(vec![Value::I32(10)]));
    let tiny = Config { max_stack_height: 4, ..Config::default() };
    assert_eq!(run_with(tiny, &bodies(), &[Value::I32(0)]), trap(TrapCode::StackOverflow));
}

#[test]
fn a_table_branch_takes_the_entry_of_its_index() {
    let table = || BrTable::new(vec![RelativeDepth(0), RelativeDepth(1)], RelativeDepth(2));
    let bodies = [body(
        &[I32],
        &[I32],
        vec![
            Operator::Block(BlockType::Empty),
            Operator::Block(BlockType::Empty),
            Operator::Block(BlockType::Empty),
            Operator::LocalGet(0),
            Operator::BrTable(table()),
            Operator::End,
            Operator::I32Const(100),
            Operator::Return,
            Operator::End,
            Operator::I32Const(101),
            Operator::Return,
            Operator::End,
            Operator::I32Const(102),
            Operator::End,
        ],
    )];
    assert_eq!(run(&bodies, &[Value::I32(0)]), Ok(vec![Value::I32(100)]));
    assert_eq!(run(&bodies, &[Value::I32(1)]), Ok(vec![Value::I32(101)]));
    assert_eq!(run(&bodies, &[Value::I32(2)]), Ok(vec![Value::I32(102)]));
    assert_eq!(run(&bodies, &[Value::I32(3)]), Ok(vec![Value::I32(102)]));
    assert_eq!(run(&bodies, &[Value::I32(-1)]), Ok(vec![Value::I32(102)]));
}

#[test]
fn select_takes_the_first_value_for_a_true_condition() {
    let bodies = [body(
        &[I32],
        &[I64],
        vec![
            Operator::I64Const(10),
            Operator::I64Const(20),
            Operator::LocalGet(0),
            Operator::Select,
            Operator::End,
        ],
    )];
    assert_eq!(run(&bodies, &[Value::I32(1)]), Ok(vec![Value::I64(10)]));
    assert_eq!(run(&bodies, &[Value::I32(-5)]), Ok(vec![Value::I64(10)]));
    assert_eq!(run(&bodies, &[Value::I32(0)]), Ok(vec![Value::I64(20)]));
}

#[test]
fn a_run_stops_when_the_fuel_is_used_up() {
    let bodies = [body(
        &[],
        &[],
        vec![Operator::Loop(BlockType::Empty), Operator::Br(0), Operator::End, Operator::End],
    )];
    let mut engine = Engine::new(Config::default());
    let code = compile(&mut engine, &bodies);
    let mut store = Store::new(&engine, ());
    let funcs = instantiate(&mut store, &bodies, &code);
    let mut executor = Executor::new(&engine);
    assert_eq!(executor.start(&store, funcs[0], &vec![]), Signal::Continue);
    assert_eq!(executor.run(&mut store, 0), Signal::Interrupted);
    assert_eq!(executor.run(&mut store, 1_000), Signal::Interrupted);
    assert_eq!(executor.step(&mut store), Signal::Continue);
    assert_eq!(executor.results(&store), None);
    // a call cannot be started while another one is active
    assert_eq!(executor.start(&store, funcs[0], &vec![]), Signal::Malformed);
    assert_eq!(executor.run(&mut store, 10), Signal::Interrupted);
}

#[test]
fn a_finished_machine_stays_finished() {
    let bodies = [body(&[I32], &[I32], vec![Operator::LocalGet(0), Operator::End])];
    let mut engine = Engine::new(Config::default());
    let code = compile(&mut engine, &bodies);
    let mut store = Store::new(&engine, ());
    let funcs = instantiate(&mut store, &bodies, &code);
    let mut executor = Executor::new(&engine);
    assert_eq!(executor.results(&store), None);
    assert_eq!(executor.step(&mut store), Signal::Finished);
    assert_eq!(executor.start(&store, funcs[0], &vec![Value::I32(9)]), Signal::Continue);
    assert_eq!(executor.instance(), Some(wasmi_v1::Instance(0)));
    assert_eq!(executor.step(&mut store), Signal::Continue);
    assert_eq!(executor.step(&mut store), Signal::Finished);
    assert_eq!(executor.step(&mut store), Signal::Finished);
    assert_eq!(executor.run(&mut store, 5), Signal::Finished);
    assert_eq!(executor.instance(), None);
    assert_eq!(executor.results(&store), Some(vec![Value::I32(9)]));
}

#[test]
fn arguments_must_have_the_declared_types() {
    let bodies = [body(&[I32, I64], &[], vec![Operator::End])];
    let mut engine = Engine::new(Config::default());
    let code = compile(&mut engine, &bodies);
    let mut store = Store::new(&engine, ());
    let funcs = instantiate(&mut store, &bodies, &code);
    let mut executor = Executor::new(&engine);
    assert_eq!(executor.start(&store, funcs[0], &vec![]), Signal::Malformed);
    assert_eq!(
        executor.start(&store, funcs[0], &vec![Value::I64(1), Value::I32(1)]),
        Signal::Malformed
    );
    assert_eq!(
        executor.start(&store, funcs[0], &vec![Value::I32(1), Value::I64(1), Value::I32(1)]),
        Signal::Malformed
    );
    assert_eq!(executor.start(&store, Func(99), &vec![]), Signal::Malformed);
    assert_eq!(
        executor.start(&store, funcs[0], &vec![Value::I32(1), Value::I64(1)]),
        Signal::Continue
    );
    assert_eq!(executor.run(&mut store, 10), Signal::Finished);
    assert_eq!(executor.results(&store), Some(vec![]));
}

/// Stores hand-made code as the only function of an instance and starts it.
fn run_raw(insts: Vec<Instruction>, args: &[Value], params: &[ValueType]) -> Signal {
    let mut engine = Engine::new(Config::default());
    let mut builder = InstructionsBuilder::new();
    for inst in insts {
        builder.push_inst(inst);
    }
    let code = builder.finish().unwrap();
    let compiled = CompiledFunc::new(code, 0, 16);
    let body = engine.alloc_func_body(compiled);
    let mut store = Store::new(&engine, ());
    let handle = store.next_instance();
    let func = store.alloc_func(FuncEntity::Wasm {
        signature: FuncType::new(params.to_vec(), vec![]),
        body,
        instance: handle,
    });
    let mut instance = InstanceEntity::new();
    instance.push_func(func);
    store.alloc_instance(instance);
    let mut executor = Executor::new(&engine);
    assert_eq!(executor.start(&store, func, &args.to_vec()), Signal::Continue);
    executor.run(&mut store, 100)
}

#[test]
fn malformed_code_is_refused_without_a_change() {
    let target = Target::new(InstructionIdx(0), DropKeep::new(3, 0));
    assert_eq!(run_raw(vec![Instruction::Drop], &[], &[]), Signal::Malformed);
    assert_eq!(run_raw(vec![Instruction::LocalGet(1)], &[], &[]), Signal::Malformed);
    assert_eq!(run_raw(vec![Instruction::LocalGet(0)], &[Value::I32(1)], &[I32]), Signal::Malformed);
    assert_eq!(run_raw(vec![Instruction::Br(target)], &[Value::I32(1)], &[I32]), Signal::Malformed);
    assert_eq!(run_raw(vec![Instruction::I32Add], &[Value::I32(1)], &[I32]), Signal::Malformed);
    assert_eq!(run_raw(vec![Instruction::BrTable(0)], &[Value::I32(1)], &[I32]), Signal::Malformed);
    assert_eq!(run_raw(vec![Instruction::Call(FuncIdx(7))], &[], &[]), Signal::Malformed);
    assert_eq!(run_raw(vec![Instruction::GlobalGet(GlobalIdx(0))], &[], &[]), Signal::Malformed);
    assert_eq!(run_raw(vec![Instruction::MemorySize], &[], &[]), Signal::Malformed);
    // running off the end of the code
    assert_eq!(run_raw(vec![Instruction::I32Const(1)], &[], &[]), Signal::Malformed);
    assert_eq!(
        run_raw(vec![Instruction::Return(DropKeep::new(1, 0))], &[Value::I32(1)], &[I32]),
        Signal::Finished
    );
}

#[test]
fn rounding_operators_suspend_the_machine() {
    let bodies = [body(
        &[ValueType::F64, ValueType::F64],
        &[ValueType::F64],
        vec![
            Operator::LocalGet(0),
            Operator::LocalGet(1),
            Operator::F64Add,
            Operator::F64Sqrt,
            Operator::End,
        ],
    )];
    let mut engine = Engine::new(Config::default());
    let code = compile(&mut engine, &bodies);
    let mut store = Store::new(&engine, ());
    let funcs = instantiate(&mut store, &bodies, &code);
    let mut executor = Executor::new(&engine);
    let args = vec![
        Value::F64(F64::from_bits(9.0f64.to_bits())),
        Value::F64(F64::from_bits(16.0f64.to_bits())),
    ];
    assert_eq!(executor.start(&store, funcs[0], &args), Signal::Continue);
    assert_eq!(executor.run(&mut store, 100), Signal::Float(Instruction::F64Add));
    assert_eq!(executor.pending(), Some(Pending::Float { inst: Instruction::F64Add }));
    // a suspended machine reports again what it waits for
    assert_eq!(executor.step(&mut store), Signal::Float(Instruction::F64Add));
    assert_eq!(executor.resume_host(&store, &vec![]), Signal::Malformed);
    assert_eq!(
        executor.resume_float(&store, Ok(UntypedValue::from_u64(25.0f64.to_bits()))),
        Signal::Continue
    );
    assert_eq!(executor.run(&mut store, 100), Signal::Float(Instruction::F64Sqrt));
    assert_eq!(
        executor.resume_float(&store, Ok(UntypedValue::from_u64(5.0f64.to_bits()))),
        Signal::Continue
    );
    assert_eq!(executor.run(&mut store, 100), Signal::Finished);
    assert_eq!(
        executor.results(&store),
        Some(vec![Value::F64(F64::from_bits(5.0f64.to_bits()))])
    );
    assert_eq!(executor.resume_float(&store, Ok(UntypedValue::from_u64(0))), Signal::Malformed);

    // the float unit can answer with a trap
    assert_eq!(executor.start(&store, funcs[0], &args), Signal::Continue);
    assert_eq!(executor.run(&mut store, 100), Signal::Float(Instruction::F64Add));
    assert_eq!(
        executor.resume_float(&store, Err(TrapCode::IntegerOverflow)),
        Signal::Trap(TrapCode::IntegerOverflow)
    );
    assert_eq!(executor.pending(), None);
    assert_eq!(executor.step(&mut store), Signal::Finished);
}

#[test]
fn host_calls_are_answered_with_typed_results() {
    let mut engine = Engine::new(Config::default());
    let mut module = Module::new();
    let host_ty = module.push_type(FuncType::new(vec![I32, I64], vec![I64])).unwrap();
    module.push_func(host_ty).unwrap();
    let main_ty = module.push_type(FuncType::new(vec![], vec![I64])).unwrap();
    module.push_func(main_ty).unwrap();
    let compiled = FunctionBuilder::translate(
        &engine,
        FuncIdx(1),
        ModuleResources::new(&module),
        &vec![],
        &vec![
            Operator::I64Const(1000),
            Operator::I32Const(7),
            Operator::I64Const(8),
            Operator::Call(FuncIdx(0)),
            Operator::I64Add,
            Operator::End,
        ],
    )
    .unwrap();
    let body = engine.alloc_func_body(compiled);
    let mut store = Store::new(&engine, 0u8);
    let handle = store.next_instance();
    let host = store.alloc_func(FuncEntity::Host {
        signature: FuncType::new(vec![I32, I64], vec![I64]),
    });
    let main = store.alloc_func(FuncEntity::Wasm {
        signature: FuncType::new(vec![], vec![I64]),
        body,
        instance: handle,
    });
    let mut instance = InstanceEntity::new();
    instance.push_func(host);
    instance.push_func(main);
    instance.push_export("main".to_string(), Extern::Func(main));
    store.alloc_instance(instance);

    let mut executor = Executor::new(&engine);
    assert_eq!(executor.host_args(&store), None);
    assert_eq!(executor.start(&store, main, &vec![]), Signal::Continue);
    assert_eq!(executor.run(&mut store, 100), Signal::HostCall(host));
    assert_eq!(executor.instance(), Some(handle));
    assert_eq!(executor.host_args(&store), Some(vec![Value::I32(7), Value::I64(8)]));
    // results of the wrong type or number are refused
    assert_eq!(executor.resume_host(&store, &vec![]), Signal::Malformed);
    assert_eq!(executor.resume_host(&store, &vec![Value::I32(1)]), Signal::Malformed);
    assert_eq!(executor.run(&mut store, 100), Signal::HostCall(host));
    assert_eq!(executor.resume_host(&store, &vec![Value::I64(15)]), Signal::Continue);
    assert_eq!(executor.run(&mut store, 100), Signal::Finished);
    assert_eq!(executor.results(&store), Some(vec![Value::I64(1015)]));

    // a host function reports a trap in place of results
    assert_eq!(executor.start(&store, main, &vec![]), Signal::Continue);
    assert_eq!(executor.run(&mut store, 100), Signal::HostCall(host));
    assert_eq!(
        executor.resume_trap(&store, TrapCode::Unreachable),
        Signal::Trap(TrapCode::Unreachable)
    );
    assert_eq!(executor.run(&mut store, 100), Signal::Finished);

    // the embedder can call a host function directly
    assert_eq!(
        executor.start(&store, host, &vec![Value::I32(1), Value::I64(2)]),
        Signal::HostCall(host)
    );
    assert_eq!(executor.instance(), None);
    assert_eq!(executor.host_args(&store), Some(vec![Value::I32(1), Value::I64(2)]));
    assert_eq!(executor.resume_host(&store, &vec![Value::I64(3)]), Signal::Finished);
    assert_eq!(executor.results(&store), Some(vec![Value::I64(3)]));
}
