use wasmi_v1::{
    BlockType, BrTable, Config, DropKeep, Engine, FuncIdx, FuncType, FuncTypeIdx, FunctionBuilder,
    GlobalIdx, GlobalType, Instruction, InstructionIdx, MemoryIdx, Module, ModuleError,
    ModuleResources, Operator, RelativeDepth, TableIdx, Target, ValueType, F32, F64,
};

use ValueType::{F32 as TF32, F64 as TF64, I32, I64};

/// A module with one function of the given type, one memory, one table, a
/// mutable `i32` global and an immutable `i64` global.
fn module_with(params: Vec<ValueType>, results: Vec<ValueType>) -> Module {
    let mut module = Module::new();
    let ty = module.push_type(FuncType::new(params, results)).unwrap();
    module.push_func(ty).unwrap();
    module.push_memory().unwrap();
    module.push_table().unwrap();
    module
        .push_global(GlobalType { value_type: I32, mutable: true })
        .unwrap();
    module
        .push_global(GlobalType { value_type: I64, mutable: false })
        .unwrap();
    module
}

fn translate_in(
    module: &Module,
    config: Config,
    locals: &[(u32, ValueType)],
    ops: Vec<Operator>,
) -> Result<Vec<Instruction>, ModuleError> {
    let engine = Engine::new(config);
    let res = ModuleResources::new(module);
    FunctionBuilder::translate(&engine, FuncIdx(0), res, &locals.to_vec(), &ops)
        .map(|body| body.insts().clone())
}

fn translate(
    params: Vec<ValueType>,
    results: Vec<ValueType>,
    locals: &[(u32, ValueType)],
    ops: Vec<Operator>,
) -> Result<Vec<Instruction>, ModuleError> {
    translate_in(&module_with(params, results), Config::default(), locals, ops)
}

fn br(pc: usize, drop: usize, keep: usize) -> Instruction {
    Instruction::Br(Target::new(InstructionIdx(pc), DropKeep::new(drop, keep)))
}

fn br_if_nez(pc: usize, drop: usize, keep: usize) -> Instruction {
    Instruction::BrIfNez(Target::new(InstructionIdx(pc), DropKeep::new(drop, keep)))
}

fn br_if_eqz(pc: usize, drop: usize, keep: usize) -> Instruction {
    Instruction::BrIfEqz(Target::new(InstructionIdx(pc), DropKeep::new(drop, keep)))
}

fn ret(drop: usize, keep: usize) -> Instruction {
    Instruction::Return(DropKeep::new(drop, keep))
}

#[test]
fn add_is_translated_to_four_instructions() {
    let engine = Engine::new(Config::default());
    let module = module_with(vec![I32, I32], vec![I32]);
    let res = ModuleResources::new(&module);
    let ops = vec![
        Operator::LocalGet(0),
        Operator::LocalGet(1),
        Operator::I32Add,
        Operator::End,
    ];
    let body = FunctionBuilder::translate(&engine, FuncIdx(0), res, &vec![], &ops).unwrap();
    assert_eq!(
        body.insts(),
        &vec![
            Instruction::LocalGet(2),
            Instruction::LocalGet(2),
            Instruction::I32Add,
            Instruction::Return(DropKeep::new(2, 1)),
        ]
    );
    assert_eq!(body.len_locals(), 0);
    assert_eq!(body.max_stack_height(), 2);
}

#[test]
fn translating_twice_gives_the_same_code() {
    let ops = || {
        vec![
            Operator::Block(BlockType::Empty),
            Operator::LocalGet(0),
            Operator::BrIf(0),
            Operator::Loop(BlockType::Empty),
            Operator::LocalGet(0),
            Operator::I32Const(1),
            Operator::I32Sub,
            Operator::LocalTee(0),
            Operator::BrIf(0),
            Operator::End,
            Operator::End,
            Operator::LocalGet(0),
            Operator::End,
        ]
    };
    let first = translate(vec![I32], vec![I32], &[], ops()).unwrap();
    let second = translate(vec![I32], vec![I32], &[], ops()).unwrap();
    assert_eq!(first, second);
}

#[test]
fn locals_are_addressed_by_their_distance_from_the_top() {
    let code = translate(
        vec![I64],
        vec![],
        &[(2, I32)],
        vec![
            Operator::LocalGet(0),
            Operator::LocalGet(2),
            Operator::LocalSet(1),
            Operator::LocalTee(0),
            Operator::Drop,
            Operator::End,
        ],
    )
    .unwrap();
    assert_eq!(
        code,
        vec![
            Instruction::LocalGet(3),
            Instruction::LocalGet(2),
            Instruction::LocalSet(3),
            Instruction::LocalTee(4),
            Instruction::Drop,
            ret(3, 0),
        ]
    );
}

#[test]
fn a_branch_drops_what_lies_above_the_frame_and_keeps_the_results() {
    // block (result i32): entered at height 1 (one parameter), left with two
    // junk values below the result.
    let code = translate(
        vec![I32],
        vec![I32],
        &[],
        vec![
            Operator::Block(BlockType::Returns(I32)),
            Operator::I32Const(10),
            Operator::I32Const(20),
            Operator::I32Const(30),
            Operator::Br(0),
            Operator::End,
            Operator::End,
        ],
    )
    .unwrap();
    assert_eq!(
        code,
        vec![
            Instruction::I32Const(10),
            Instruction::I32Const(20),
            Instruction::I32Const(30),
            br(4, 2, 1),
            ret(1, 1),
        ]
    );
}

#[test]
fn a_conditional_branch_counts_the_stack_without_the_condition() {
    let code = translate(
        vec![I32],
        vec![],
        &[],
        vec![
            Operator::Block(BlockType::Empty),
            Operator::I32Const(7),
            Operator::LocalGet(0),
            Operator::BrIf(0),
            Operator::Drop,
            Operator::End,
            Operator::End,
        ],
    )
    .unwrap();
    assert_eq!(
        code,
        vec![
            Instruction::I32Const(7),
            Instruction::LocalGet(2),
            br_if_nez(4, 1, 0),
            Instruction::Drop,
            ret(1, 0),
        ]
    );
}

#[test]
fn a_branch_to_a_loop_goes_back_to_its_header_and_keeps_its_parameters() {
    let code = translate(
        vec![],
        vec![],
        &[],
        vec![
            Operator::I32Const(0),
            Operator::Loop(BlockType::Empty),
            Operator::I32Const(1),
            Operator::Br(0),
            Operator::End,
            Operator::Drop,
            Operator::End,
        ],
    )
    .unwrap();
    assert_eq!(
        code,
        vec![
            Instruction::I32Const(0),
            Instruction::I32Const(1),
            br(1, 1, 0),
            Instruction::Drop,
            ret(0, 0),
        ]
    );
}

#[test]
fn a_branch_to_the_function_body_is_a_return() {
    let code = translate(
        vec![I32],
        vec![I32],
        &[(1, I64)],
        vec![
            Operator::Block(BlockType::Empty),
            Operator::I32Const(5),
            Operator::LocalGet(0),
            Operator::BrIf(1),
            Operator::Br(1),
            Operator::End,
            Operator::I32Const(6),
            Operator::Return,
            Operator::End,
        ],
    )
    .unwrap();
    assert_eq!(
        code,
        vec![
            Instruction::I32Const(5),
            Instruction::LocalGet(3),
            Instruction::ReturnIfNez(DropKeep::new(2, 1)),
            ret(2, 1),
            Instruction::I32Const(6),
            ret(2, 1),
        ]
    );
}

#[test]
fn if_and_else_are_lowered_to_two_branches() {
    let code = translate(
        vec![I32],
        vec![I32],
        &[],
        vec![
            Operator::LocalGet(0),
            Operator::If(BlockType::Returns(I32)),
            Operator::I32Const(1),
            Operator::Else,
            Operator::I32Const(2),
            Operator::End,
            Operator::End,
        ],
    )
    .unwrap();
    assert_eq!(
        code,
        vec![
            Instruction::LocalGet(1),
            br_if_eqz(4, 0, 0),
            Instruction::I32Const(1),
            br(5, 0, 0),
            Instruction::I32Const(2),
            ret(1, 1),
        ]
    );
}

#[test]
fn an_if_without_else_skips_to_its_end() {
    let code = translate(
        vec![I32],
        vec![],
        &[],
        vec![
            Operator::LocalGet(0),
            Operator::If(BlockType::Empty),
            Operator::Unreachable,
            Operator::End,
            Operator::End,
        ],
    )
    .unwrap();
    assert_eq!(
        code,
        vec![
            Instruction::LocalGet(1),
            br_if_eqz(3, 0, 0),
            Instruction::Unreachable,
            ret(1, 0),
        ]
    );
}

#[test]
fn a_table_has_one_entry_for_each_target_and_one_for_the_default() {
    let table = BrTable::new(
        vec![RelativeDepth(0), RelativeDepth(1), RelativeDepth(2)],
        RelativeDepth(1),
    );
    let code = translate(
        vec![I32],
        vec![],
        &[],
        vec![
            Operator::Block(BlockType::Empty),
            Operator::Loop(BlockType::Empty),
            Operator::I32Const(9),
            Operator::LocalGet(0),
            Operator::BrTable(table),
            Operator::End,
            Operator::End,
            Operator::End,
        ],
    )
    .unwrap();
    assert_eq!(
        code,
        vec![
            Instruction::I32Const(9),
            Instruction::LocalGet(2),
            Instruction::BrTable(4),
            br(0, 1, 0),
            br(7, 1, 0),
            ret(2, 0),
            br(7, 1, 0),
            ret(1, 0),
        ]
    );
}

#[test]
fn nothing_is_emitted_for_unreachable_code() {
    let code = translate(
        vec![],
        vec![I32],
        &[],
        vec![
            Operator::I32Const(1),
            Operator::Return,
            Operator::I32Const(2),
            Operator::I32Add,
            Operator::Block(BlockType::Empty),
            Operator::I64Const(3),
            Operator::Drop,
            Operator::Br(0),
            Operator::End,
            Operator::I32Eqz,
            Operator::End,
        ],
    )
    .unwrap();
    assert_eq!(code, vec![Instruction::I32Const(1), ret(0, 1)]);
}

#[test]
fn the_end_of_a_block_makes_code_reachable_again() {
    let code = translate(
        vec![],
        vec![I32],
        &[],
        vec![
            Operator::Block(BlockType::Returns(I32)),
            Operator::I32Const(1),
            Operator::Br(0),
            Operator::I32Const(2),
            Operator::End,
            Operator::I32Eqz,
            Operator::End,
        ],
    )
    .unwrap();
    assert_eq!(
        code,
        vec![Instruction::I32Const(1), br(2, 0, 1), Instruction::I32Eqz, ret(0, 1)]
    );
}

#[test]
fn unreachable_code_takes_operands_that_are_not_there() {
    // after `unreachable` the stack is polymorphic: `i32.add` and `select`
    // find their operands, and the block still ends with its result.
    let code = translate(
        vec![],
        vec![I64],
        &[],
        vec![
            Operator::Unreachable,
            Operator::I32Add,
            Operator::Select,
            Operator::I64ExtendI32S,
            Operator::End,
        ],
    )
    .unwrap();
    assert_eq!(code, vec![Instruction::Unreachable]);
}

#[test]
fn the_code_cannot_be_finished_before_the_function_has_ended() {
    let module = module_with(vec![], vec![]);
    let engine = Engine::new(Config::default());
    let mut builder = FunctionBuilder::new(&engine, FuncIdx(0), ModuleResources::new(&module));
    assert!(builder.is_reachable());
    assert_eq!(builder.func(), FuncIdx(0));
    builder.translate_block(BlockType::Empty).unwrap();
    builder.translate_end().unwrap();
    assert_eq!(builder.finish().unwrap_err(), ModuleError::UnresolvedLabel);

    let mut builder = FunctionBuilder::new(&engine, FuncIdx(0), ModuleResources::new(&module));
    builder.translate_end().unwrap();
    assert_eq!(builder.finish().unwrap().insts(), &vec![ret(0, 0)]);
}

#[test]
fn nothing_can_follow_the_end_of_the_function() {
    assert_eq!(
        translate(vec![], vec![], &[], vec![Operator::End, Operator::I32Const(1)]),
        Err(ModuleError::MissingControlFrame)
    );
    assert_eq!(
        translate(vec![], vec![], &[], vec![Operator::End, Operator::End]),
        Err(ModuleError::MissingControlFrame)
    );
    assert_eq!(
        translate(vec![], vec![], &[], vec![Operator::End, Operator::Br(0)]),
        Err(ModuleError::MissingControlFrame)
    );
}

#[test]
fn missing_operands_are_reported() {
    assert_eq!(
        translate(vec![], vec![], &[], vec![Operator::I32Add]),
        Err(ModuleError::StackUnderflow)
    );
    assert_eq!(
        translate(vec![I32, I32], vec![], &[], vec![Operator::I32Add]),
        Err(ModuleError::StackUnderflow)
    );
    assert_eq!(
        translate(
            vec![],
            vec![],
            &[],
            vec![
                Operator::I32Const(1),
                Operator::Block(BlockType::Empty),
                Operator::Drop,
            ]
        ),
        Err(ModuleError::StackUnderflow)
    );
    assert_eq!(
        translate(vec![], vec![I32], &[], vec![Operator::Return]),
        Err(ModuleError::StackUnderflow)
    );
}

#[test]
fn operands_of_the_wrong_type_are_reported() {
    assert_eq!(
        translate(
            vec![],
            vec![],
            &[],
            vec![Operator::I32Const(1), Operator::I64Const(2), Operator::I32Add]
        ),
        Err(ModuleError::TypeMismatch)
    );
    assert_eq!(
        translate(
            vec![],
            vec![],
            &[],
            vec![
                Operator::I32Const(1),
                Operator::I64Const(2),
                Operator::I32Const(0),
                Operator::Select,
            ]
        ),
        Err(ModuleError::TypeMismatch)
    );
    assert_eq!(
        translate(vec![I32], vec![I64], &[], vec![Operator::LocalGet(0), Operator::End]),
        Err(ModuleError::TypeMismatch)
    );
    assert_eq!(
        translate(
            vec![],
            vec![],
            &[],
            vec![Operator::F32Const(F32::from_bits(0)), Operator::GlobalSet(GlobalIdx(0))]
        ),
        Err(ModuleError::TypeMismatch)
    );
}

#[test]
fn a_block_must_end_with_exactly_its_results() {
    assert_eq!(
        translate(vec![], vec![], &[], vec![Operator::I32Const(1), Operator::End]),
        Err(ModuleError::StackHeightMismatch)
    );
    assert_eq!(
        translate(
            vec![],
            vec![],
            &[],
            vec![Operator::Block(BlockType::Returns(I32)), Operator::End]
        ),
        Err(ModuleError::StackHeightMismatch)
    );
    assert_eq!(
        translate(
            vec![I32],
            vec![],
            &[],
            vec![
                Operator::LocalGet(0),
                Operator::If(BlockType::Returns(I32)),
                Operator::Else,
            ]
        ),
        Err(ModuleError::StackHeightMismatch)
    );
}

#[test]
fn unknown_indices_are_reported() {
    assert_eq!(
        translate(vec![I32], vec![], &[(1, I32)], vec![Operator::LocalGet(2)]),
        Err(ModuleError::UnknownLocal)
    );
    assert_eq!(
        translate(vec![], vec![], &[], vec![Operator::LocalSet(0)]),
        Err(ModuleError::UnknownLocal)
    );
    assert_eq!(
        translate(vec![], vec![], &[], vec![Operator::LocalTee(0)]),
        Err(ModuleError::UnknownLocal)
    );
    assert_eq!(
        translate(vec![], vec![], &[], vec![Operator::GlobalGet(GlobalIdx(2))]),
        Err(ModuleError::UnknownGlobal)
    );
    assert_eq!(
        translate(vec![], vec![], &[], vec![Operator::GlobalSet(GlobalIdx(2))]),
        Err(ModuleError::UnknownGlobal)
    );
    assert_eq!(
        translate(vec![], vec![], &[], vec![Operator::Call(FuncIdx(1))]),
        Err(ModuleError::UnknownFunc)
    );
    assert_eq!(
        translate(
            vec![],
            vec![],
            &[],
            vec![Operator::CallIndirect(FuncTypeIdx(1), TableIdx(0))]
        ),
        Err(ModuleError::UnknownType)
    );
    assert_eq!(
        translate(
            vec![],
            vec![],
            &[],
            vec![Operator::I32Const(0), Operator::CallIndirect(FuncTypeIdx(0), TableIdx(1))]
        ),
        Err(ModuleError::UnknownTable)
    );
    assert_eq!(
        translate(
            vec![],
            vec![],
            &[],
            vec![Operator::Block(BlockType::FuncType(FuncTypeIdx(4)))]
        ),
        Err(ModuleError::UnknownType)
    );
    assert_eq!(
        translate(
            vec![],
            vec![],
            &[],
            vec![Operator::I32Const(0), Operator::I32Load(MemoryIdx(1), 0)]
        ),
        Err(ModuleError::UnknownMemory)
    );
    assert_eq!(
        translate(vec![], vec![], &[], vec![Operator::MemorySize(MemoryIdx(3))]),
        Err(ModuleError::UnknownMemory)
    );
}

#[test]
fn an_immutable_global_cannot_be_set() {
    assert_eq!(
        translate(
            vec![],
            vec![],
            &[],
            vec![Operator::I64Const(1), Operator::GlobalSet(GlobalIdx(1))]
        ),
        Err(ModuleError::ImmutableGlobal)
    );
    assert_eq!(
        translate(
            vec![],
            vec![],
            &[],
            vec![
                Operator::GlobalGet(GlobalIdx(1)),
                Operator::Drop,
                Operator::GlobalGet(GlobalIdx(0)),
                Operator::GlobalSet(GlobalIdx(0)),
                Operator::End,
            ]
        ),
        Ok(vec![
            Instruction::GlobalGet(GlobalIdx(1)),
            Instruction::Drop,
            Instruction::GlobalGet(GlobalIdx(0)),
            Instruction::GlobalSet(GlobalIdx(0)),
            ret(0, 0),
        ])
    );
}

#[test]
fn a_branch_cannot_leave_more_blocks_than_there_are() {
    assert_eq!(
        translate(vec![], vec![], &[], vec![Operator::Br(1)]),
        Err(ModuleError::InvalidBranchDepth)
    );
    assert_eq!(
        translate(
            vec![],
            vec![],
            &[],
            vec![Operator::Block(BlockType::Empty), Operator::I32Const(0), Operator::BrIf(2)]
        ),
        Err(ModuleError::InvalidBranchDepth)
    );
    let table = BrTable::new(vec![RelativeDepth(0), RelativeDepth(5)], RelativeDepth(0));
    assert_eq!(
        translate(
            vec![],
            vec![],
            &[],
            vec![Operator::I32Const(0), Operator::BrTable(table)]
        ),
        Err(ModuleError::InvalidBranchDepth)
    );
}

#[test]
fn an_else_needs_an_if() {
    assert_eq!(
        translate(vec![], vec![], &[], vec![Operator::Else]),
        Err(ModuleError::MisplacedElse)
    );
    assert_eq!(
        translate(
            vec![],
            vec![],
            &[],
            vec![Operator::Block(BlockType::Empty), Operator::Else]
        ),
        Err(ModuleError::MisplacedElse)
    );
    assert_eq!(
        translate(
            vec![],
            vec![],
            &[],
            vec![
                Operator::I32Const(0),
                Operator::If(BlockType::Empty),
                Operator::Else,
                Operator::Else,
            ]
        ),
        Err(ModuleError::MisplacedElse)
    );
}

#[test]
fn locals_are_declared_before_the_first_operator() {
    let module = module_with(vec![I32], vec![]);
    let engine = Engine::new(Config::default());
    let mut builder = FunctionBuilder::new(&engine, FuncIdx(0), ModuleResources::new(&module));
    assert_eq!(builder.translate_locals(2, I64), Ok(()));
    assert_eq!(builder.translate_locals(0, TF32), Ok(()));
    assert_eq!(builder.translate_locals(1, TF64), Ok(()));
    assert_eq!(builder.translate_local_get(3), Ok(()));
    assert_eq!(builder.translate_locals(1, I32), Err(ModuleError::MisplacedLocals));
    assert_eq!(builder.translate_drop(), Ok(()));
    assert_eq!(builder.translate_locals(1, I32), Err(ModuleError::MisplacedLocals));
    assert_eq!(builder.translate_end(), Ok(()));
    let body = builder.finish().unwrap();
    assert_eq!(body.len_locals(), 3);
    assert_eq!(body.max_stack_height(), 1);
    assert_eq!(
        body.insts(),
        &vec![Instruction::LocalGet(1), Instruction::Drop, ret(4, 0)]
    );
}

#[test]
fn operators_of_a_proposal_need_the_proposal() {
    let module = module_with(vec![], vec![]);
    let without = Config {
        sign_extension: false,
        saturating_float_to_int: false,
        ..Config::default()
    };
    assert_eq!(
        translate_in(
            &module,
            without,
            &[],
            vec![Operator::I32Const(1), Operator::I32Extend8S]
        ),
        Err(ModuleError::UnsupportedOperator)
    );
    assert_eq!(
        translate_in(
            &module,
            without,
            &[],
            vec![Operator::F64Const(F64::from_bits(0)), Operator::I64TruncSatF64U]
        ),
        Err(ModuleError::UnsupportedOperator)
    );
    assert_eq!(
        translate_in(
            &module,
            Config::default(),
            &[],
            vec![
                Operator::I32Const(1),
                Operator::I32Extend8S,
                Operator::Drop,
                Operator::F64Const(F64::from_bits(0)),
                Operator::I64TruncSatF64U,
                Operator::Drop,
                Operator::End,
            ]
        ),
        Ok(vec![
            Instruction::I32Const(1),
            Instruction::I32Extend8S,
            Instruction::Drop,
            Instruction::F64Const(F64::from_bits(0)),
            Instruction::I64TruncSatF64U,
            Instruction::Drop,
            ret(0, 0),
        ])
    );
}

#[test]
fn an_operator_replaces_its_inputs_by_its_outputs() {
    // each line: the operators that push the inputs, the operator, the type
    // it leaves on the stack, checked by the operator that consumes it.
    let cases: Vec<(Vec<Operator>, Operator, Operator)> = vec![
        (vec![Operator::I32Const(1), Operator::I32Const(2)], Operator::I32LtU, Operator::I32Eqz),
        (vec![Operator::I64Const(1), Operator::I64Const(2)], Operator::I64GeS, Operator::I32Eqz),
        (vec![Operator::I64Const(1), Operator::I64Const(2)], Operator::I64Xor, Operator::I64Eqz),
        (vec![Operator::I64Const(1)], Operator::I32WrapI64, Operator::I32Eqz),
        (vec![Operator::I32Const(1)], Operator::I64ExtendI32U, Operator::I64Eqz),
        (vec![Operator::I32Const(1)], Operator::F32ConvertI32S, Operator::I32ReinterpretF32),
        (vec![Operator::I64Const(1)], Operator::F64ConvertI64U, Operator::I64ReinterpretF64),
        (vec![Operator::I32Const(1)], Operator::F32ReinterpretI32, Operator::F64PromoteF32),
        (vec![Operator::I64Const(1)], Operator::F64ReinterpretI64, Operator::F32DemoteF64),
        (vec![Operator::I32Const(0)], Operator::I64Load16U(MemoryIdx(0), 4), Operator::I64Popcnt),
        (vec![Operator::I32Const(0)], Operator::F32Load(MemoryIdx(0), 4), Operator::F32Sqrt),
        (vec![], Operator::MemorySize(MemoryIdx(0)), Operator::MemoryGrow(MemoryIdx(0))),
        (vec![], Operator::GlobalGet(GlobalIdx(1)), Operator::I64Clz),
    ];
    for (inputs, op, consumer) in cases {
        let mut ops = vec![Operator::I64Const(77)];
        ops.extend(inputs);
        ops.push(op);
        ops.push(consumer);
        ops.push(Operator::Drop);
        // what was below the inputs is still there
        ops.push(Operator::I64Eqz);
        ops.push(Operator::Drop);
        ops.push(Operator::End);
        let code = translate(vec![], vec![], &[], ops);
        assert!(code.is_ok(), "{:?}", code);
    }
}

#[test]
fn stores_pop_the_address_and_the_value() {
    let code = translate(
        vec![],
        vec![],
        &[],
        vec![
            Operator::I32Const(8),
            Operator::I64Const(-1),
            Operator::I64Store32(MemoryIdx(0), 16),
            Operator::I32Const(8),
            Operator::F64Const(F64::from_bits(1)),
            Operator::F64Store(MemoryIdx(0), 0),
            Operator::End,
        ],
    )
    .unwrap();
    assert_eq!(
        code,
        vec![
            Instruction::I32Const(8),
            Instruction::I64Const(-1),
            Instruction::I64Store32(16),
            Instruction::I32Const(8),
            Instruction::F64Const(F64::from_bits(1)),
            Instruction::F64Store(0),
            ret(0, 0),
        ]
    );
    assert_eq!(
        translate(
            vec![],
            vec![],
            &[],
            vec![
                Operator::I64Const(-1),
                Operator::I32Const(8),
                Operator::I64Store(MemoryIdx(0), 0),
            ]
        ),
        Err(ModuleError::TypeMismatch)
    );
}

#[test]
fn a_call_takes_the_parameters_and_leaves_the_results() {
    let mut module = Module::new();
    let unary = module.push_type(FuncType::new(vec![I32], vec![I64, I64])).unwrap();
    module.push_func(unary).unwrap();
    module.push_table().unwrap();
    let code = translate_in(
        &module,
        Config::default(),
        &[],
        vec![
            Operator::LocalGet(0),
            Operator::Call(FuncIdx(0)),
            Operator::I64Add,
            Operator::Drop,
            Operator::LocalGet(0),
            Operator::LocalGet(0),
            Operator::CallIndirect(unary, TableIdx(0)),
            Operator::End,
        ],
    )
    .unwrap();
    assert_eq!(
        code,
        vec![
            Instruction::LocalGet(1),
            Instruction::Call(FuncIdx(0)),
            Instruction::I64Add,
            Instruction::Drop,
            Instruction::LocalGet(1),
            Instruction::LocalGet(2),
            Instruction::CallIndirect(FuncTypeIdx(0), TableIdx(0)),
            ret(1, 2),
        ]
    );
}

#[test]
fn blocks_with_parameters_enter_below_them() {
    let mut module = Module::new();
    let main = module.push_type(FuncType::new(vec![], vec![I32])).unwrap();
    module.push_func(main).unwrap();
    let binary = module.push_type(FuncType::new(vec![I32, I32], vec![I32])).unwrap();
    let code = translate_in(
        &module,
        Config::default(),
        &[],
        vec![
            Operator::I64Const(0),
            Operator::I32Const(1),
            Operator::I32Const(2),
            Operator::Block(BlockType::FuncType(binary)),
            Operator::I32Add,
            Operator::I32Const(3),
            Operator::I32Const(4),
            Operator::Br(0),
            Operator::End,
            Operator::Br(0),
            Operator::End,
        ],
    )
    .unwrap();
    assert_eq!(
        code,
        vec![
            Instruction::I64Const(0),
            Instruction::I32Const(1),
            Instruction::I32Const(2),
            Instruction::I32Add,
            Instruction::I32Const(3),
            Instruction::I32Const(4),
            br(7, 2, 1),
            ret(1, 1),
        ]
    );
}

#[test]
fn every_operator_method_translates_its_operator() {
    let module = module_with(vec![], vec![]);
    let engine = Engine::new(Config::default());
    let mut builder = FunctionBuilder::new(&engine, FuncIdx(0), ModuleResources::new(&module));
    builder.translate_i32_const(6).unwrap();
    builder.translate_i32_const(3).unwrap();
    builder.translate_u32_div().unwrap();
    builder.translate_i32_const(2).unwrap();
    builder.translate_i32_remS().unwrap();
    builder.translate_i64_extend_i32().unwrap();
    builder.translate_i64_const(1).unwrap();
    builder.translate_i64_shrS().unwrap();
    builder.translate_f32_convert_i64().unwrap();
    builder.translate_i64_trunc_F3().unwrap();
    builder.translate_f64_convert_u64().unwrap();
    builder.translate_u64_trunc_F6().unwrap();
    builder.translate_i64_eqz().unwrap();
    builder.translate_i32_load_i8(MemoryIdx(0), 1).unwrap();
    builder.translate_drop().unwrap();
    builder.translate_end().unwrap();
    assert_eq!(
        builder.finish().unwrap().insts(),
        &vec![
            Instruction::I32Const(6),
            Instruction::I32Const(3),
            Instruction::I32DivU,
            Instruction::I32Const(2),
            Instruction::I32RemS,
            Instruction::I64ExtendI32S,
            Instruction::I64Const(1),
            Instruction::I64ShrS,
            Instruction::F32ConvertI64S,
            Instruction::I64TruncF32S,
            Instruction::F64ConvertI64U,
            Instruction::I64TruncF64U,
            Instruction::I64Eqz,
            Instruction::I32Load8S(1),
            Instruction::Drop,
            ret(0, 0),
        ]
    );
}
