use wasmi_v1::{
    BlockType, Caller, Config, ControlFlowStack, ControlFrame, DropKeep, Engine, Extern, Func,
    FuncEntity, FuncType, Global, GlobalEntity, Instance, InstanceEntity, Instruction,
    InstructionIdx, InstructionsBuilder, LabelIdx, Memory, MemoryEntity, ModuleError, Reloc, Store,
    Table, TableEntity, Target, Trap, TrapCode, Value, ValueStack, ValueType,
};

fn block(label: usize, height: usize) -> ControlFrame {
    ControlFrame::Block {
        end_label: LabelIdx(label),
        block_type: BlockType::Empty,
        height,
        reachable: true,
    }
}

#[test]
fn frames_are_found_by_their_depth() {
    let mut stack = ControlFlowStack::new();
    assert!(stack.is_empty());
    stack.push_frame(block(0, 0));
    stack.push_frame(ControlFrame::Loop {
        header: LabelIdx(1),
        block_type: BlockType::Returns(ValueType::I32),
        height: 3,
        reachable: false,
    });
    stack.push_frame(ControlFrame::If {
        else_label: LabelIdx(2),
        end_label: LabelIdx(3),
        block_type: BlockType::Empty,
        height: 5,
        reachable: true,
    });
    assert_eq!(stack.len(), 3);
    assert_eq!(*stack.first(), block(0, 0));
    assert_eq!(stack.last().height(), 5);
    let innermost = *stack.last();
    assert_eq!(*stack.nth_back_mut(0), innermost);
    assert_eq!(stack.nth_back_mut(1).branch_destination(), LabelIdx(1));
    assert!(stack.nth_back_mut(1).is_loop());
    assert!(!stack.nth_back_mut(1).is_reachable());
    assert_eq!(stack.nth_back_mut(1).end_label(), None);
    assert_eq!(stack.nth_back_mut(2).end_label(), Some(LabelIdx(0)));
    assert_eq!(stack.nth_back(2).copied(), Some(block(0, 0)));
    assert_eq!(stack.nth_back(3), None);
    assert_eq!(stack.last().else_label(), Some(LabelIdx(2)));
    assert_eq!(stack.last().branch_destination(), LabelIdx(3));
    assert_eq!(stack.last().block_type(), BlockType::Empty);

    // an `else` takes the place of its `if`
    *stack.last_mut() = ControlFrame::Else {
        end_label: LabelIdx(3),
        block_type: BlockType::Empty,
        height: 5,
        reachable: true,
    };
    assert_eq!(stack.last().else_label(), None);
    assert_eq!(stack.len(), 3);
    *stack.nth_back_mut(2) = block(9, 0);
    assert_eq!(*stack.first(), block(9, 0));

    assert_eq!(stack.pop_frame().height(), 5);
    assert_eq!(stack.pop_frame().height(), 3);
    assert_eq!(stack.pop_frame(), block(9, 0));
    assert_eq!(stack.len(), 0);
}

#[test]
fn the_value_stack_remembers_its_greatest_height() {
    let mut stack = ValueStack::new();
    assert!(stack.is_empty());
    assert_eq!(stack.pop(), None);
    stack.push(ValueType::I32);
    stack.push(ValueType::I64);
    stack.push(ValueType::F32);
    assert_eq!(stack.len(), 3);
    assert_eq!(stack.max_height(), 3);
    assert_eq!(stack.get(0), Some(ValueType::I32));
    assert_eq!(stack.get(3), None);
    assert_eq!(stack.peek(0), Some(ValueType::F32));
    assert_eq!(stack.peek(2), Some(ValueType::I32));
    assert_eq!(stack.peek(3), None);
    assert_eq!(stack.pop(), Some(ValueType::F32));
    stack.shrink_to(5);
    assert_eq!(stack.len(), 2);
    stack.shrink_to(1);
    assert_eq!(stack.len(), 1);
    assert_eq!(stack.max_height(), 3);
    stack.push(ValueType::F64);
    assert_eq!(stack.max_height(), 3);
    assert_eq!(stack.peek(0), Some(ValueType::F64));
}

fn br(pc: usize) -> Instruction {
    Instruction::Br(Target::new(InstructionIdx(pc), DropKeep::new(0, 0)))
}

#[test]
fn forward_branches_are_patched_when_the_code_is_finished() {
    let mut builder = InstructionsBuilder::new();
    let end = builder.new_label();
    let header = builder.new_label();
    assert_eq!(end, LabelIdx(0));
    assert_eq!(header, LabelIdx(1));
    assert_eq!(builder.current_pc(), InstructionIdx(0));
    assert_eq!(builder.resolve_label(header), Ok(()));

    // a forward branch: the label is unbound, the placeholder is returned
    let pc = builder.try_resolve_label(end, Reloc::br).unwrap();
    assert_eq!(pc, InstructionIdx::invalid());
    assert_eq!(builder.push_inst(br(pc.into_usize())), InstructionIdx(0));
    assert_eq!(builder.push_inst(Instruction::Drop), InstructionIdx(1));
    // a backward branch: the label is bound, its position is returned
    let pc = builder.try_resolve_label(header, Reloc::br).unwrap();
    assert_eq!(pc, InstructionIdx(0));
    builder.push_inst(Instruction::BrIfNez(Target::new(pc, DropKeep::new(1, 2))));
    // a table: entry 1 refers to the unbound label
    let table = builder.current_pc();
    builder.push_inst(Instruction::BrTable(2));
    builder.push_inst(br(0));
    let pc = builder
        .try_resolve_label(end, |_| Reloc::br_table(table, 1))
        .unwrap();
    builder.push_inst(br(pc.into_usize()));
    assert_eq!(builder.resolve_label(end), Ok(()));
    builder.push_inst(Instruction::Unreachable);

    assert_eq!(
        builder.finish(),
        Ok(vec![
            br(6),
            Instruction::Drop,
            Instruction::BrIfNez(Target::new(InstructionIdx(0), DropKeep::new(1, 2))),
            Instruction::BrTable(2),
            br(0),
            br(6),
            Instruction::Unreachable,
        ])
    );
}

#[test]
fn labels_are_bound_once() {
    let mut builder = InstructionsBuilder::new();
    let label = builder.new_label();
    assert_eq!(builder.resolve_label(LabelIdx(1)), Err(ModuleError::UnknownLabel));
    assert_eq!(
        builder.try_resolve_label(LabelIdx(1), Reloc::br),
        Err(ModuleError::UnknownLabel)
    );
    assert_eq!(builder.resolve_label(label), Ok(()));
    assert_eq!(builder.resolve_label(label), Err(ModuleError::LabelAlreadyResolved));
    assert_eq!(builder.finish(), Ok(vec![]));
}

#[test]
fn unbound_labels_and_stray_relocations_fail_the_code() {
    let mut builder = InstructionsBuilder::new();
    builder.new_label();
    builder.push_inst(Instruction::Drop);
    assert_eq!(builder.finish(), Err(ModuleError::UnresolvedLabel));

    // a relocation for an instruction that is no branch
    let mut builder = InstructionsBuilder::new();
    let label = builder.new_label();
    builder.try_resolve_label(label, Reloc::br).unwrap();
    builder.push_inst(Instruction::Drop);
    builder.resolve_label(label).unwrap();
    assert_eq!(builder.finish(), Err(ModuleError::InvalidRelocation));

    // a relocation for an instruction that was never emitted
    let mut builder = InstructionsBuilder::new();
    let label = builder.new_label();
    builder.try_resolve_label(label, Reloc::br).unwrap();
    builder.resolve_label(label).unwrap();
    assert_eq!(builder.finish(), Err(ModuleError::InvalidRelocation));

    // both faults: the unbound label is reported
    let mut builder = InstructionsBuilder::new();
    let label = builder.new_label();
    builder.try_resolve_label(label, Reloc::br).unwrap();
    assert_eq!(builder.finish(), Err(ModuleError::UnresolvedLabel));
}

#[test]
fn instructions_tell_their_targets() {
    let target = Target::new(InstructionIdx(4), DropKeep::new(1, 2));
    assert_eq!(target.destination_pc(), InstructionIdx(4));
    assert_eq!(target.drop_keep().drop(), 1);
    assert_eq!(target.drop_keep().keep(), 2);
    assert_eq!(Instruction::BrIfEqz(target).target(), Some(target));
    assert_eq!(Instruction::Return(DropKeep::new(0, 0)).target(), None);
    assert_eq!(
        Instruction::BrIfEqz(target).with_destination(InstructionIdx(9)),
        Instruction::BrIfEqz(Target::new(InstructionIdx(9), DropKeep::new(1, 2)))
    );
    assert_eq!(Instruction::Drop.with_destination(InstructionIdx(9)), Instruction::Drop);
    let mut moved = target;
    moved.update_destination_pc(InstructionIdx(7));
    assert_eq!(moved, Target::new(InstructionIdx(7), DropKeep::new(1, 2)));
}

#[test]
fn traps_carry_whether_they_can_be_resumed() {
    let guest = Trap::guest(TrapCode::DivisionByZero);
    assert_eq!(guest.code(), TrapCode::DivisionByZero);
    assert!(guest.can_resume());
    let host = Trap::host(TrapCode::StackOverflow);
    assert_eq!(host.code(), TrapCode::StackOverflow);
    assert!(!host.can_resume());
}

#[test]
fn the_caller_sees_the_store_and_the_calling_instance() {
    let engine = Engine::new(Config::default());
    let mut store = Store::new(&engine, 7i32);
    let func = store.alloc_func(FuncEntity::Host { signature: FuncType::new(vec![], vec![]) });
    let memory = store.alloc_memory(MemoryEntity::new(1, None).unwrap());
    let table = store.alloc_table(TableEntity::new(2));
    let global = store.alloc_global(GlobalEntity::new(Value::I64(3), false));
    assert_eq!((func, memory, table, global), (Func(0), Memory(0), Table(0), Global(0)));
    let mut instance = InstanceEntity::new();
    instance.push_func(func);
    instance.push_memory(memory);
    instance.push_table(table);
    instance.push_global(global);
    instance.push_export("run".to_string(), Extern::Func(func));
    instance.push_export("mem".to_string(), Extern::Memory(memory));
    instance.push_export("run".to_string(), Extern::Global(global));
    let handle = store.alloc_instance(instance);
    assert_eq!(handle, Instance(0));
    assert_eq!(store.next_instance(), Instance(1));

    let mut caller = Caller::new(&mut store, Some(handle));
    assert_eq!(caller.get_export("run"), Some(Extern::Func(func)));
    assert_eq!(caller.get_export("mem"), Some(Extern::Memory(memory)));
    assert_eq!(caller.get_export("none"), None);
    assert_eq!(*caller.host_data(), 7);
    *caller.host_data_mut() = 8;
    assert_eq!(*caller.host_data(), 8);
    assert_eq!(caller.engine().config(), Config::default());
    assert_eq!(caller.as_context().global(global).unwrap().get(), Value::I64(3));
    assert!(caller.as_context_mut().write_memory(memory, 0, &vec![1, 2, 3]));
    assert_eq!(*store.state(), 8);

    // without an instance nothing is exported
    let caller = Caller::from_context(&mut store);
    assert_eq!(caller.instance, None);
    assert_eq!(caller.get_export("run"), None);
    // a handle of another store names no instance here
    let caller = Caller::new(&mut store, Some(Instance(5)));
    assert_eq!(caller.get_export("run"), None);

    let mut bytes = vec![0u8; 4];
    assert!(store.read_memory(memory, 0, &mut bytes));
    assert_eq!(bytes, [1, 2, 3, 0]);
    assert!(!store.read_memory(Memory(1), 0, &mut bytes));
    assert!(!store.write_memory(Memory(1), 0, &bytes));
    assert!(store.set_global(global, wasmi_v1::UntypedValue::from_i64(-4)));
    assert!(!store.set_global(Global(1), wasmi_v1::UntypedValue::from_i64(-4)));
    assert_eq!(store.global(global).unwrap().get(), Value::I64(-4));
    assert!(store.func(Func(1)).is_none());
    assert!(store.table(table).unwrap().get(1) == Some(None));
    assert!(store.table(table).unwrap().get(2).is_none());
    assert_eq!(Extern::Table(table).into_table(), Some(table));
    assert_eq!(Extern::Table(table).into_func(), None);
    assert_eq!(Extern::Global(global).into_global(), Some(global));
    assert_eq!(Extern::Func(func).into_memory(), None);
}
