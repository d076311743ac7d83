//! What holds of every translation.

use super::inst_builder::{
    lemma_patched_shape, lemma_patched_site, InstructionsView, RelativeDepth, Reloc,
};
use super::state::{CompiledView, TranslatorState};
use crate::engine::bytecode::{DropKeep, Instruction, InstructionIdx};
use crate::engine::config::Config;
use crate::module::{FuncIdx, ModuleError, ModuleView, Signature};
use crate::operator::Operator;
use crate::value::ValueType;
use vstd::prelude::*;

verus! {

/// Every branch of the code has a destination within the code or directly
/// behind it; in particular none carries the placeholder of an unbound label.
pub open spec fn is_resolved(insts: Seq<Instruction>) -> bool {
    forall|i: int|
        0 <= i < insts.len() ==> ((#[trigger] insts[i]).target() matches Some(target)
            ==> target.dst_pc.0 <= insts.len())
}

/// What the translation of a whole function yields: the groups of `locals`
/// are declared in order, then `ops` are translated in order, then the code
/// is finished. The first step that fails decides the error.
pub open spec fn translation(
    config: Config,
    res: ModuleView,
    func: FuncIdx,
    locals: Seq<(u32, ValueType)>,
    ops: Seq<Operator>,
) -> Result<CompiledView, ModuleError> {
    let (declared, first) = TranslatorState::initial(config, res, func).declare_all(locals);
    match first {
        Err(error) => Err(error),
        Ok(_) => {
            let (translated, second) = declared.apply_all(ops);
            match second {
                Err(error) => Err(error),
                Ok(_) => translated.compiled(),
            }
        },
    }
}

/// The stack effect of an operator is its signature: where an operator with
/// the signature `inputs` to `outputs` is translated in reachable code, the
/// inputs lay on top of the stack before, and afterwards the outputs lie in
/// their place on what was below them.
///
/// Every operator that is no control operator is translated by
/// [`TranslatorState::apply_checked`] with its signature.
pub proof fn lemma_stack_effect(
    s: TranslatorState,
    error: Option<ModuleError>,
    signature: Signature,
    inst: Instruction,
)
    requires
        s.reachable,
        s.apply_checked(error, signature, inst).1 is Ok,
    ensures
        s.stack.len() >= signature.params.len(),
        s.stack.skip(s.stack.len() - signature.params.len()) == signature.params,
        s.apply_checked(error, signature, inst).0.stack == s.stack.take(
            s.stack.len() - signature.params.len(),
        ) + signature.results,
{
}

/// The operators of group 1 of the operators that are no control
/// operators; the groups only serve to keep each proof small.
pub open spec fn in_group_1(op: Operator) -> bool {
    match op {
        Operator::Call(_)
        | Operator::CallIndirect(_, _)
        | Operator::Drop
        | Operator::Select
        | Operator::LocalGet(_)
        | Operator::LocalSet(_)
        | Operator::LocalTee(_)
        | Operator::GlobalGet(_)
        | Operator::GlobalSet(_) => true,
        _ => false,
    }
}

/// The stack effect of the operators of group 1 is their signature.
#[verifier::rlimit(30)]
proof fn lemma_stack_effect_of_group_1(s: TranslatorState, op: Operator)
    requires
        in_group_1(op),
        s.reachable,
        s.apply(op).1 is Ok,
    ensures
        has_stack_effect(s, op),
{
    reveal(TranslatorState::apply);
}

/// The operators of group 2 of the operators that are no control
/// operators; the groups only serve to keep each proof small.
pub open spec fn in_group_2(op: Operator) -> bool {
    match op {
        Operator::I32Load(_, _)
        | Operator::I64Load(_, _)
        | Operator::F32Load(_, _)
        | Operator::F64Load(_, _)
        | Operator::I32Load8S(_, _)
        | Operator::I32Load8U(_, _)
        | Operator::I32Load16S(_, _)
        | Operator::I32Load16U(_, _)
        | Operator::I64Load8S(_, _)
        | Operator::I64Load8U(_, _)
        | Operator::I64Load16S(_, _)
        | Operator::I64Load16U(_, _)
        | Operator::I64Load32S(_, _)
        | Operator::I64Load32U(_, _)
        | Operator::I32Store(_, _)
        | Operator::I64Store(_, _)
        | Operator::F32Store(_, _)
        | Operator::F64Store(_, _)
        | Operator::I32Store8(_, _)
        | Operator::I32Store16(_, _)
        | Operator::I64Store8(_, _)
        | Operator::I64Store16(_, _)
        | Operator::I64Store32(_, _)
        | Operator::MemorySize(_)
        | Operator::MemoryGrow(_)
        | Operator::I32Const(_)
        | Operator::I64Const(_)
        | Operator::F32Const(_)
        | Operator::F64Const(_) => true,
        _ => false,
    }
}

/// The stack effect of the operators of group 2 is their signature.
#[verifier::rlimit(30)]
proof fn lemma_stack_effect_of_group_2(s: TranslatorState, op: Operator)
    requires
        in_group_2(op),
        s.reachable,
        s.apply(op).1 is Ok,
    ensures
        has_stack_effect(s, op),
{
    reveal(TranslatorState::apply);
}

/// The operators of group 3 of the operators that are no control
/// operators; the groups only serve to keep each proof small.
pub open spec fn in_group_3(op: Operator) -> bool {
    match op {
        Operator::I32Eqz
        | Operator::I32Eq
        | Operator::I32Ne
        | Operator::I32LtS
        | Operator::I32LtU
        | Operator::I32GtS
        | Operator::I32GtU
        | Operator::I32LeS
        | Operator::I32LeU
        | Operator::I32GeS
        | Operator::I32GeU
        | Operator::I64Eqz
        | Operator::I64Eq
        | Operator::I64Ne
        | Operator::I64LtS
        | Operator::I64LtU
        | Operator::I64GtS
        | Operator::I64GtU
        | Operator::I64LeS
        | Operator::I64LeU
        | Operator::I64GeS
        | Operator::I64GeU
        | Operator::F32Eq
        | Operator::F32Ne
        | Operator::F32Lt
        | Operator::F32Gt
        | Operator::F32Le
        | Operator::F32Ge => true,
        _ => false,
    }
}

/// The stack effect of the operators of group 3 is their signature.
#[verifier::rlimit(30)]
proof fn lemma_stack_effect_of_group_3(s: TranslatorState, op: Operator)
    requires
        in_group_3(op),
        s.reachable,
        s.apply(op).1 is Ok,
    ensures
        has_stack_effect(s, op),
{
    reveal(TranslatorState::apply);
}

/// The operators of group 4 of the operators that are no control
/// operators; the groups only serve to keep each proof small.
pub open spec fn in_group_4(op: Operator) -> bool {
    match op {
        Operator::F64Eq
        | Operator::F64Ne
        | Operator::F64Lt
        | Operator::F64Gt
        | Operator::F64Le
        | Operator::F64Ge
        | Operator::I32Clz
        | Operator::I32Ctz
        | Operator::I32Popcnt
        | Operator::I32Add
        | Operator::I32Sub
        | Operator::I32Mul
        | Operator::I32DivS
        | Operator::I32DivU
        | Operator::I32RemS
        | Operator::I32RemU
        | Operator::I32And
        | Operator::I32Or
        | Operator::I32Xor
        | Operator::I32Shl
        | Operator::I32ShrS
        | Operator::I32ShrU
        | Operator::I32Rotl
        | Operator::I32Rotr
        | Operator::I64Clz
        | Operator::I64Ctz
        | Operator::I64Popcnt
        | Operator::I64Add => true,
        _ => false,
    }
}

/// The stack effect of the operators of group 4 is their signature.
#[verifier::rlimit(30)]
proof fn lemma_stack_effect_of_group_4(s: TranslatorState, op: Operator)
    requires
        in_group_4(op),
        s.reachable,
        s.apply(op).1 is Ok,
    ensures
        has_stack_effect(s, op),
{
    reveal(TranslatorState::apply);
}

/// The operators of group 5 of the operators that are no control
/// operators; the groups only serve to keep each proof small.
pub open spec fn in_group_5(op: Operator) -> bool {
    match op {
        Operator::I64Sub
        | Operator::I64Mul
        | Operator::I64DivS
        | Operator::I64DivU
        | Operator::I64RemS
        | Operator::I64RemU
        | Operator::I64And
        | Operator::I64Or
        | Operator::I64Xor
        | Operator::I64Shl
        | Operator::I64ShrS
        | Operator::I64ShrU
        | Operator::I64Rotl
        | Operator::I64Rotr
        | Operator::F32Abs
        | Operator::F32Neg
        | Operator::F32Ceil
        | Operator::F32Floor
        | Operator::F32Trunc
        | Operator::F32Nearest
        | Operator::F32Sqrt
        | Operator::F32Add
        | Operator::F32Sub
        | Operator::F32Mul
        | Operator::F32Div
        | Operator::F32Min
        | Operator::F32Max
        | Operator::F32Copysign => true,
        _ => false,
    }
}

/// The stack effect of the operators of group 5 is their signature.
#[verifier::rlimit(30)]
proof fn lemma_stack_effect_of_group_5(s: TranslatorState, op: Operator)
    requires
        in_group_5(op),
        s.reachable,
        s.apply(op).1 is Ok,
    ensures
        has_stack_effect(s, op),
{
    reveal(TranslatorState::apply);
}

/// The operators of group 6 of the operators that are no control
/// operators; the groups only serve to keep each proof small.
pub open spec fn in_group_6(op: Operator) -> bool {
    match op {
        Operator::F64Abs
        | Operator::F64Neg
        | Operator::F64Ceil
        | Operator::F64Floor
        | Operator::F64Trunc
        | Operator::F64Nearest
        | Operator::F64Sqrt
        | Operator::F64Add
        | Operator::F64Sub
        | Operator::F64Mul
        | Operator::F64Div
        | Operator::F64Min
        | Operator::F64Max
        | Operator::F64Copysign
        | Operator::I32WrapI64
        | Operator::I32TruncF32S
        | Operator::I32TruncF32U
        | Operator::I32TruncF64S
        | Operator::I32TruncF64U
        | Operator::I64ExtendI32S
        | Operator::I64ExtendI32U
        | Operator::I64TruncF32S
        | Operator::I64TruncF32U
        | Operator::I64TruncF64S
        | Operator::I64TruncF64U
        | Operator::F32ConvertI32S
        | Operator::F32ConvertI32U
        | Operator::F32ConvertI64S => true,
        _ => false,
    }
}

/// The stack effect of the operators of group 6 is their signature.
#[verifier::rlimit(30)]
proof fn lemma_stack_effect_of_group_6(s: TranslatorState, op: Operator)
    requires
        in_group_6(op),
        s.reachable,
        s.apply(op).1 is Ok,
    ensures
        has_stack_effect(s, op),
{
    reveal(TranslatorState::apply);
}

/// The operators of group 7 of the operators that are no control
/// operators; the groups only serve to keep each proof small.
pub open spec fn in_group_7(op: Operator) -> bool {
    match op {
        Operator::F32ConvertI64U
        | Operator::F32DemoteF64
        | Operator::F64ConvertI32S
        | Operator::F64ConvertI32U
        | Operator::F64ConvertI64S
        | Operator::F64ConvertI64U
        | Operator::F64PromoteF32
        | Operator::I32ReinterpretF32
        | Operator::I64ReinterpretF64
        | Operator::F32ReinterpretI32
        | Operator::F64ReinterpretI64
        | Operator::I32Extend8S
        | Operator::I32Extend16S
        | Operator::I64Extend8S
        | Operator::I64Extend16S
        | Operator::I64Extend32S
        | Operator::I32TruncSatF32S
        | Operator::I32TruncSatF32U
        | Operator::I32TruncSatF64S
        | Operator::I32TruncSatF64U
        | Operator::I64TruncSatF32S
        | Operator::I64TruncSatF32U
        | Operator::I64TruncSatF64S
        | Operator::I64TruncSatF64U => true,
        _ => false,
    }
}

/// The stack effect of the operators of group 7 is their signature.
#[verifier::rlimit(30)]
proof fn lemma_stack_effect_of_group_7(s: TranslatorState, op: Operator)
    requires
        in_group_7(op),
        s.reachable,
        s.apply(op).1 is Ok,
    ensures
        has_stack_effect(s, op),
{
    reveal(TranslatorState::apply);
}

/// The operator has replaced its inputs on top of the stack by its outputs.
pub open spec fn has_stack_effect(s: TranslatorState, op: Operator) -> bool {
    let signature = s.operator_signature(op);
    let below = s.stack.len() - signature.params.len();
    &&& below >= 0
    &&& s.stack.skip(below) == signature.params
    &&& s.apply(op).0.stack == s.stack.take(below) + signature.results
}

/// The stack effect of every operator that is no control operator is its
/// signature: where the operator is translated in reachable code, its inputs
/// lay on top of the stack before, and afterwards its outputs lie in their
/// place on what was below them.
pub proof fn lemma_operator_stack_effect(s: TranslatorState, op: Operator)
    requires
        !op.is_control(),
        s.reachable,
        s.apply(op).1 is Ok,
    ensures
        has_stack_effect(s, op),
{
    if in_group_1(op) {
        lemma_stack_effect_of_group_1(s, op);
    } else if in_group_2(op) {
        lemma_stack_effect_of_group_2(s, op);
    } else if in_group_3(op) {
        lemma_stack_effect_of_group_3(s, op);
    } else if in_group_4(op) {
        lemma_stack_effect_of_group_4(s, op);
    } else if in_group_5(op) {
        lemma_stack_effect_of_group_5(s, op);
    } else if in_group_6(op) {
        lemma_stack_effect_of_group_6(s, op);
    } else if in_group_7(op) {
        lemma_stack_effect_of_group_7(s, op);
    }
}

/// In unreachable code the stack effect of an operator is its signature as
/// far as the stack holds its inputs: if the innermost frame has as many
/// operands as the operator takes, the outputs take their place.
pub proof fn lemma_stack_effect_unreachable(
    s: TranslatorState,
    error: Option<ModuleError>,
    signature: Signature,
    inst: Instruction,
)
    requires
        !s.reachable,
        s.frames.len() > 0,
        error is None,
        s.stack.len() >= s.floor() + signature.params.len(),
    ensures
        s.apply_checked(error, signature, inst).1 is Ok,
        s.apply_checked(error, signature, inst).0.stack == s.stack.take(
            s.stack.len() - signature.params.len(),
        ) + signature.results,
        s.apply_checked(error, signature, inst).0.code == s.code,
{
}

/// The instruction that leaves for `frame` with the stack adjustment
/// `drop_keep`: a return for the function body, a branch otherwise.
pub open spec fn is_transfer(
    inst: Instruction,
    conditional: bool,
    is_body: bool,
    drop_keep: DropKeep,
) -> bool {
    if is_body {
        if conditional {
            inst == Instruction::ReturnIfNez(drop_keep)
        } else {
            inst == Instruction::Return(drop_keep)
        }
    } else {
        if conditional {
            inst matches Instruction::BrIfNez(target) && target.drop_keep == drop_keep
        } else {
            inst matches Instruction::Br(target) && target.drop_keep == drop_keep
        }
    }
}

/// A `br` in reachable code emits one instruction, which keeps as many values
/// as the branch carries and drops what lies between them and the entry
/// height of the frame it leaves for: with the stack at height `c`, the frame
/// entered at height `h` and `n` values carried, it drops `c - h - n` and
/// keeps `n`.
pub proof fn lemma_br_drop_keep(s: TranslatorState, depth: u32)
    requires
        s.wf(),
        s.reachable,
        s.apply_br(depth).1 is Ok,
    ensures
        ({
            let t = s.apply_br(depth).0;
            let frame = s.frame_at(depth);
            let n = s.branch_types(frame).len();
            &&& s.stack.len() >= frame.height() + n
            &&& t.code.insts.len() == s.code.insts.len() + 1
            &&& is_transfer(
                t.code.insts.last(),
                false,
                depth + 1 == s.frames.len(),
                DropKeep { drop: (s.stack.len() - frame.height() - n) as usize, keep: n as usize },
            )
        }),
{
    super::well_formed::lemma_floor_above_frames(s, depth);
}

/// A `br_if` in reachable code emits one instruction, whose stack adjustment
/// is that of a `br` from the stack without the condition: with the stack at
/// height `c` after the condition was popped, the frame entered at height `h`
/// and `n` values carried, it drops `c - h - n` and keeps `n`.
pub proof fn lemma_br_if_drop_keep(s: TranslatorState, depth: u32)
    requires
        s.wf(),
        s.reachable,
        s.apply_br_if(depth).1 is Ok,
    ensures
        ({
            let t = s.apply_br_if(depth).0;
            let frame = s.frame_at(depth);
            let n = s.branch_types(frame).len();
            &&& s.stack.len() - 1 >= frame.height() + n
            &&& t.code.insts.len() == s.code.insts.len() + 1
            &&& is_transfer(
                t.code.insts.last(),
                true,
                depth + 1 == s.frames.len(),
                DropKeep {
                    drop: (s.stack.len() - 1 - frame.height() - n) as usize,
                    keep: n as usize,
                },
            )
        }),
{
    super::well_formed::lemma_floor_above_frames(s, depth);
    let inputs = s.branch_types(s.frame_at(depth)).push(ValueType::I32);
    assert(inputs.len() == s.branch_types(s.frame_at(depth)).len() + 1);
}

/// A `return` in reachable code emits a return that keeps the results of the
/// function and drops everything below them, the locals included: the
/// function body was entered at height 0.
pub proof fn lemma_return_drop_keep(s: TranslatorState)
    requires
        s.wf(),
        s.reachable,
        s.apply_return().1 is Ok,
    ensures
        ({
            let t = s.apply_return().0;
            let n = s.signature().results.len();
            &&& s.stack.len() >= n
            &&& t.code.insts.len() == s.code.insts.len() + 1
            &&& t.code.insts.last() == Instruction::Return(
                DropKeep { drop: (s.stack.len() - n) as usize, keep: n as usize },
            )
        }),
{
}

/// The entries of a `br_table` in reachable code follow its instruction in
/// the order of the table, the default last, and entry `i` has the stack
/// adjustment of a `br` to target `i` from the stack without the index.
pub proof fn lemma_br_table_drop_keep(s: TranslatorState, table: super::BrTable, i: int)
    requires
        s.wf(),
        s.reachable,
        s.apply_br_table(table).1 is Ok,
        0 <= i < table.depths().len(),
    ensures
        ({
            let t = s.apply_br_table(table).0;
            let depth = table.depths()[i].0;
            let frame = s.frame_at(depth);
            let n = s.branch_types(frame).len();
            &&& depth < s.frames.len()
            &&& s.stack.len() - 1 >= frame.height() + n
            &&& t.code.insts.len() == s.code.insts.len() + 1 + table.depths().len()
            &&& t.code.insts[s.code.insts.len() as int] == Instruction::BrTable(
                table.depths().len() as usize,
            )
            &&& is_transfer(
                t.code.insts[s.code.insts.len() + 1 + i],
                false,
                depth + 1 == s.frames.len(),
                DropKeep {
                    drop: (s.stack.len() - 1 - frame.height() - n) as usize,
                    keep: n as usize,
                },
            )
        }),
{
    let depths = table.depths();
    let start = s.emit(Instruction::BrTable(depths.len() as usize));
    let height = (s.stack.len() - 1) as nat;
    super::well_formed::lemma_table_entry_fits(s, depths, i);
    lemma_entries_shape(start, depths, s.code.current_pc(), height, depths.len(), i);
    lemma_entries_shape(
        start,
        depths,
        s.code.current_pc(),
        height,
        depths.len(),
        -1,
    );
}

/// The entries of a `br_table` are appended in order, one instruction each,
/// and change nothing but the code.
proof fn lemma_entries_shape(
    s: TranslatorState,
    depths: Seq<RelativeDepth>,
    table_pc: InstructionIdx,
    height: nat,
    n: nat,
    i: int,
)
    requires
        s.reachable,
        n <= depths.len(),
        -1 <= i < n,
        i >= 0 ==> depths[i].0 < s.frames.len(),
    ensures
        ({
            let t = s.emit_entries(depths, table_pc, height, n);
            &&& t == (TranslatorState { code: t.code, ..s })
            &&& t.code.insts.len() == s.code.insts.len() + n
            &&& forall|j: int| 0 <= j < s.code.insts.len() ==> t.code.insts[j] == s.code.insts[j]
            &&& i >= 0 ==> is_transfer(
                t.code.insts[s.code.insts.len() + i],
                false,
                depths[i].0 + 1 == s.frames.len(),
                s.branch_drop_keep(s.frame_at(depths[i].0), height),
            )
        }),
    decreases n,
{
    if n > 0 {
        let before = s.emit_entries(depths, table_pc, height, (n - 1) as nat);
        let reloc = Reloc::BrTable { inst_idx: table_pc, target_idx: (n - 1) as usize };
        if i < n - 1 {
            lemma_entries_shape(s, depths, table_pc, height, (n - 1) as nat, i);
        } else {
            lemma_entries_shape(s, depths, table_pc, height, (n - 1) as nat, -1);
        }
        super::well_formed::lemma_transfer_shape(before, depths[n - 1].0, height, false, reloc);
        let t = before.emit_transfer(depths[n - 1].0, height, false, reloc);
        assert(t.code.insts.drop_last() =~= before.code.insts);
        assert forall|j: int| 0 <= j < s.code.insts.len() implies t.code.insts[j]
            == s.code.insts[j] by {
            assert(t.code.insts.drop_last()[j] == t.code.insts[j]);
        }
        if 0 <= i < n - 1 {
            assert(t.code.insts.drop_last()[s.code.insts.len() + i] == t.code.insts[
                s.code.insts.len() + i
            ]);
        }
    }
}

/// The code of a function is determined by the configuration of the engine,
/// the declarations of the module, the function's index, its locals and its
/// operators. Nothing else enters a translation, so two translations of one
/// module agree instruction by instruction.
pub proof fn lemma_translation_is_deterministic(
    config: Config,
    res: ModuleView,
    func: FuncIdx,
    locals: Seq<(u32, ValueType)>,
    ops: Seq<Operator>,
    first: Result<CompiledView, ModuleError>,
    second: Result<CompiledView, ModuleError>,
)
    requires
        first == translation(config, res, func, locals, ops),
        second == translation(config, res, func, locals, ops),
    ensures
        first == second,
        first matches Ok(a) ==> second matches Ok(b) && a.insts == b.insts,
{
}

/// A translation can be finished exactly when every block has been closed,
/// and the code it then yields refers to no unbound label: every branch has a
/// destination within the code or directly behind it.
pub proof fn lemma_finished_code(s: TranslatorState)
    requires
        s.wf(),
    ensures
        s.code.finish() is Ok <==> s.frames.len() == 0,
        s.code.finish() matches Err(error) ==> error == ModuleError::UnresolvedLabel,
        s.code.finish() matches Ok(insts) ==> is_resolved(insts),
{
    if s.frames.len() > 0 {
        assert(s.frame_labels_wf(s.frames[0]));
        assert(s.code.labels[0] is None);
        assert(!s.code.all_resolved());
    } else {
        assert forall|l: int| 0 <= l < s.code.labels.len() implies (
        #[trigger] s.code.labels[l]) is Some by {
            if s.code.labels[l] is None {
                let i = super::well_formed::lemma_awaiting_frame(s, l);
            }
        }
        let insts = s.code.resolved_code();
        let n = s.code.relocs.len();
        lemma_patched_shape(s.code, n);
        assert forall|i: int| 0 <= i < insts.len() implies ((
        #[trigger] insts[i]).target() matches Some(target) ==> target.dst_pc.0
            <= insts.len()) by {
            if insts[i].target() is Some {
                assert(s.branch_tracked(i));
                if s.has_reloc(i) {
                    let k = choose|k: int|
                        0 <= k < s.code.relocs.len() && (
                        #[trigger] s.code.relocs[k]).reloc.site() == i;
                    assert forall|a: int, b: int|
                        0 <= a < s.code.relocs.len() && 0 <= b < s.code.relocs.len()
                            && s.code.relocs[a].reloc.site()
                            == s.code.relocs[b].reloc.site() implies s.code.relocs[a].label
                        == s.code.relocs[b].label by {
                        if a < b {
                            assert(s.code.relocs[a].reloc.site() < s.code.relocs[b].reloc.site());
                        } else if b < a {
                            assert(s.code.relocs[b].reloc.site() < s.code.relocs[a].reloc.site());
                        }
                    }
                    lemma_patched_site(s.code, n, k);
                    assert(s.code.is_label(s.code.relocs[k].label));
                } else {
                    lemma_patched_untouched(s.code, n, i);
                }
            }
        }
    }
}

/// Patching leaves alone what no relocation names.
proof fn lemma_patched_untouched(view: InstructionsView, n: nat, i: int)
    requires
        n <= view.relocs.len(),
        0 <= i < view.insts.len(),
        forall|k: int| 0 <= k < n ==> (#[trigger] view.relocs[k]).reloc.site() != i,
    ensures
        view.patched(n)[i] == view.insts[i],
    decreases n,
{
    if n > 0 {
        lemma_patched_untouched(view, (n - 1) as nat, i);
        lemma_patched_shape(view, (n - 1) as nat);
    }
}

/// Once a group of locals has failed, the groups behind it are not looked at.
pub proof fn lemma_declare_all_fails(s: TranslatorState, locals: Seq<(u32, ValueType)>, k: int)
    requires
        0 <= k <= locals.len(),
        s.declare_all(locals.take(k)).1 is Err,
    ensures
        s.declare_all(locals) == s.declare_all(locals.take(k)),
    decreases locals.len() - k,
{
    if k < locals.len() {
        assert(locals.take(k + 1).drop_last() =~= locals.take(k));
        lemma_declare_all_fails(s, locals, k + 1);
    } else {
        assert(locals.take(k) =~= locals);
    }
}

/// Once an operator has failed, the operators behind it are not looked at.
pub proof fn lemma_apply_all_fails(s: TranslatorState, ops: Seq<Operator>, k: int)
    requires
        0 <= k <= ops.len(),
        s.apply_all(ops.take(k)).1 is Err,
    ensures
        s.apply_all(ops) == s.apply_all(ops.take(k)),
    decreases ops.len() - k,
{
    if k < ops.len() {
        assert(ops.take(k + 1).drop_last() =~= ops.take(k));
        lemma_apply_all_fails(s, ops, k + 1);
    } else {
        assert(ops.take(k) =~= ops);
    }
}

/// The groups of locals are declared one by one.
pub proof fn lemma_declare_all_step(s: TranslatorState, locals: Seq<(u32, ValueType)>, i: int)
    requires
        0 <= i < locals.len(),
        s.declare_all(locals.take(i)).1 is Ok,
    ensures
        s.declare_all(locals.take(i + 1)) == s.declare_all(locals.take(i)).0.declare_locals(
            locals[i].0,
            locals[i].1,
        ),
{
    assert(locals.take(i + 1).drop_last() =~= locals.take(i));
}

/// The operators are translated one by one.
pub proof fn lemma_apply_all_step(s: TranslatorState, ops: Seq<Operator>, i: int)
    requires
        0 <= i < ops.len(),
        s.apply_all(ops.take(i)).1 is Ok,
    ensures
        s.apply_all(ops.take(i + 1)) == s.apply_all(ops.take(i)).0.apply(ops[i]),
{
    assert(ops.take(i + 1).drop_last() =~= ops.take(i));
}

} // verus!
