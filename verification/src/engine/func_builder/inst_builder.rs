//! Incremental construction of the instructions of one function, with labels
//! for the branch targets that are not known when the branch is emitted.

use crate::engine::bytecode::{Instruction, InstructionIdx};
use crate::module::ModuleError;
use vstd::prelude::*;

verus! {

/// A symbolic branch destination, handed out by [`InstructionsBuilder::new_label`].
#[derive(Clone, Copy, Debug, PartialEq, Eq, Structural)]
pub struct LabelIdx(pub usize);

/// The number of enclosing blocks that a branch leaves, counted from the
/// innermost one, which has depth 0.
#[derive(Clone, Copy, Debug, PartialEq, Eq, Structural)]
pub struct RelativeDepth(pub u32);

impl RelativeDepth {
    /// Creates the depth from its number.
    pub fn from_u32(depth: u32) -> (relative_depth: RelativeDepth)
        ensures
            relative_depth == RelativeDepth(depth),
    {
        RelativeDepth(depth)
    }

    /// Returns the depth as a number.
    pub fn into_u32(self) -> (depth: u32)
        ensures
            depth == self.0,
    {
        self.0
    }
}

/// The targets of a `br_table`: one depth per table entry and the depth taken
/// by every index that has no entry.
#[derive(Debug)]
pub struct BrTable {
    pub targets: Vec<RelativeDepth>,
    pub default: RelativeDepth,
}

impl BrTable {
    /// Creates the table from its entries and its default.
    pub fn new(targets: Vec<RelativeDepth>, default: RelativeDepth) -> (table: BrTable)
        ensures
            table.targets == targets,
            table.default == default,
    {
        BrTable { targets, default }
    }

    /// All depths of the table in the order in which they are emitted: the
    /// entries, then the default.
    pub open spec fn depths(self) -> Seq<RelativeDepth> {
        self.targets@.push(self.default)
    }
}

/// Where and how an instruction has to be patched once a label is bound.
#[derive(Clone, Copy, Debug, PartialEq, Eq, Structural)]
pub enum Reloc {
    /// The branch instruction at `inst_idx`.
    Br { inst_idx: InstructionIdx },
    /// Entry number `target_idx` of the `br_table` at `inst_idx`.
    BrTable { inst_idx: InstructionIdx, target_idx: usize },
}

impl Reloc {
    /// The relocation of the branch instruction at `inst_idx`.
    pub open spec fn spec_br(inst_idx: InstructionIdx) -> Reloc {
        Reloc::Br { inst_idx }
    }

    /// Returns the relocation of the branch instruction at `inst_idx`.
    #[verifier::when_used_as_spec(spec_br)]
    pub fn br(inst_idx: InstructionIdx) -> (reloc: Reloc)
        ensures
            reloc == Reloc::spec_br(inst_idx),
    {
        Reloc::Br { inst_idx }
    }

    /// The relocation of entry number `target_idx` of the `br_table` at
    /// `inst_idx`.
    pub open spec fn spec_br_table(inst_idx: InstructionIdx, target_idx: usize) -> Reloc {
        Reloc::BrTable { inst_idx, target_idx }
    }

    /// Returns the relocation of entry number `target_idx` of the `br_table`
    /// at `inst_idx`.
    #[verifier::when_used_as_spec(spec_br_table)]
    pub fn br_table(inst_idx: InstructionIdx, target_idx: usize) -> (reloc: Reloc)
        ensures
            reloc == Reloc::spec_br_table(inst_idx, target_idx),
    {
        Reloc::BrTable { inst_idx, target_idx }
    }

    /// The position of the instruction that holds the target to patch.
    pub open spec fn site(self) -> int {
        match self {
            Reloc::Br { inst_idx } => inst_idx.0 as int,
            Reloc::BrTable { inst_idx, target_idx } => inst_idx.0 + target_idx + 1,
        }
    }
}

/// A use of a label that was not bound when the use was emitted.
#[derive(Clone, Copy, Debug, PartialEq, Eq, Structural)]
pub struct Relocation {
    pub label: LabelIdx,
    pub reloc: Reloc,
}

/// The state of an [`InstructionsBuilder`].
pub struct InstructionsView {
    /// The instructions emitted so far.
    pub insts: Seq<Instruction>,
    /// For every label the position it is bound to, `None` while it is unbound.
    pub labels: Seq<Option<InstructionIdx>>,
    /// The uses of labels that were unbound at the time of the use, oldest first.
    pub relocs: Seq<Relocation>,
}

impl InstructionsView {
    /// The position at which the next instruction will be placed.
    pub open spec fn current_pc(self) -> InstructionIdx {
        InstructionIdx(self.insts.len() as usize)
    }

    /// The label has been handed out.
    pub open spec fn is_label(self, label: LabelIdx) -> bool {
        label.0 < self.labels.len()
    }

    /// The label has been handed out and bound.
    pub open spec fn is_resolved(self, label: LabelIdx) -> bool {
        self.is_label(label) && self.labels[label.0 as int] is Some
    }

    /// Every label that was handed out is bound.
    pub open spec fn all_resolved(self) -> bool {
        forall|l: int| 0 <= l < self.labels.len() ==> (#[trigger] self.labels[l]) is Some
    }

    /// The relocation names a label of this builder and an emitted instruction
    /// that carries a branch target.
    pub open spec fn applies(self, relocation: Relocation) -> bool {
        &&& self.is_label(relocation.label)
        &&& 0 <= relocation.reloc.site() < self.insts.len()
        &&& self.insts[relocation.reloc.site()].target() is Some
    }

    /// Every recorded relocation can be applied.
    pub open spec fn all_apply(self) -> bool {
        forall|k: int| 0 <= k < self.relocs.len() ==> self.applies(#[trigger] self.relocs[k])
    }

    /// Bounds that every builder keeps: positions stay below the one that
    /// stands for "not known yet", a bound label lies within the code or
    /// directly behind it, and a relocation names a label that exists.
    pub open spec fn wf(self) -> bool {
        &&& self.insts.len() < usize::MAX
        &&& forall|l: int|
            0 <= l < self.labels.len() ==> ((#[trigger] self.labels[l]) matches Some(pc)
                ==> pc.0 <= self.insts.len())
        &&& forall|k: int|
            0 <= k < self.relocs.len() ==> self.is_label((#[trigger] self.relocs[k]).label)
    }

    /// The instructions after the first `n` relocations have been applied:
    /// each one that can be applied replaces the destination at its site by
    /// the position its label is bound to.
    pub open spec fn patched(self, n: nat) -> Seq<Instruction>
        decreases n,
    {
        if n == 0 {
            self.insts
        } else {
            let done = self.patched((n - 1) as nat);
            let relocation = self.relocs[n - 1];
            if self.applies(relocation) && self.is_resolved(relocation.label) {
                done.update(
                    relocation.reloc.site(),
                    done[relocation.reloc.site()].with_destination(
                        self.labels[relocation.label.0 as int].unwrap(),
                    ),
                )
            } else {
                done
            }
        }
    }

    /// The final code: the instructions with every relocation applied.
    pub open spec fn resolved_code(self) -> Seq<Instruction> {
        self.patched(self.relocs.len())
    }

    /// What [`InstructionsBuilder::finish`] returns for this state.
    pub open spec fn finish(self) -> Result<Seq<Instruction>, ModuleError> {
        if !self.all_resolved() {
            Err(ModuleError::UnresolvedLabel)
        } else if !self.all_apply() {
            Err(ModuleError::InvalidRelocation)
        } else {
            Ok(self.resolved_code())
        }
    }
}

/// Patching keeps the number of instructions, and keeps at every position
/// whether the instruction carries a branch target.
pub proof fn lemma_patched_shape(view: InstructionsView, n: nat)
    requires
        n <= view.relocs.len(),
    ensures
        view.patched(n).len() == view.insts.len(),
        forall|i: int|
            0 <= i < view.insts.len() ==> ((#[trigger] view.patched(n)[i]).target() is Some
                <==> view.insts[i].target() is Some),
    decreases n,
{
    if n > 0 {
        lemma_patched_shape(view, (n - 1) as nat);
    }
}

/// Patching changes nothing but destinations: an instruction without a branch
/// target is the same before and after, and a branch keeps its kind and its
/// stack adjustment.
pub proof fn lemma_patched_keeps_rest(view: InstructionsView, n: nat, i: int)
    requires
        n <= view.relocs.len(),
        0 <= i < view.insts.len(),
    ensures
        exists|dst_pc: InstructionIdx|
            view.patched(n)[i] == view.insts[i].with_destination(dst_pc),
        view.insts[i].target() is None ==> view.patched(n)[i] == view.insts[i],
    decreases n,
{
    lemma_patched_shape(view, n);
    if n == 0 {
        let inst = view.insts[i];
        match inst.target() {
            Some(target) => {
                assert(inst == inst.with_destination(target.dst_pc));
            },
            None => {
                assert(inst == inst.with_destination(InstructionIdx(0)));
            },
        }
    } else {
        lemma_patched_keeps_rest(view, (n - 1) as nat, i);
        lemma_patched_shape(view, (n - 1) as nat);
        let done = view.patched((n - 1) as nat);
        let relocation = view.relocs[n - 1];
        let before = choose|dst_pc: InstructionIdx|
            done[i] == view.insts[i].with_destination(dst_pc);
        if relocation.reloc.site() == i && view.applies(relocation) && view.is_resolved(
            relocation.label,
        ) {
            let dst_pc = view.labels[relocation.label.0 as int].unwrap();
            assert(view.patched(n)[i] == view.insts[i].with_destination(dst_pc));
        } else {
            assert(view.patched(n)[i] == view.insts[i].with_destination(before));
        }
    }
}

/// After all relocations have been applied, a position that some relocation
/// names holds the position its label is bound to, provided that no position is
/// named by relocations of two different labels.
pub proof fn lemma_patched_site(view: InstructionsView, n: nat, k: int)
    requires
        n <= view.relocs.len(),
        0 <= k < n,
        view.all_apply(),
        view.all_resolved(),
        forall|a: int, b: int|
            0 <= a < view.relocs.len() && 0 <= b < view.relocs.len() && view.relocs[a].reloc.site()
                == view.relocs[b].reloc.site() ==> view.relocs[a].label == view.relocs[b].label,
    ensures
        view.patched(n)[view.relocs[k].reloc.site()].target() matches Some(target)
            && Some(target.dst_pc) == view.labels[view.relocs[k].label.0 as int],
    decreases n,
{
    lemma_patched_shape(view, (n - 1) as nat);
    let site = view.relocs[k].reloc.site();
    let last = view.relocs[n - 1];
    assert(view.applies(view.relocs[k]));
    assert(view.applies(last));
    if last.reloc.site() == site {
        assert(last.label == view.relocs[k].label);
    } else {
        lemma_patched_site(view, (n - 1) as nat, k);
    }
}

/// Builds the instructions of one function.
///
/// A branch whose destination is not known yet refers to a label. While the
/// label is unbound the branch is emitted with [`InstructionIdx::invalid`] as
/// its destination and a [`Relocation`] is recorded; [`InstructionsBuilder::finish`]
/// rewrites every recorded site in one pass.
#[derive(Debug)]
pub struct InstructionsBuilder {
    insts: Vec<Instruction>,
    labels: Vec<Option<InstructionIdx>>,
    relocs: Vec<Relocation>,
}

impl View for InstructionsBuilder {
    type V = InstructionsView;

    closed spec fn view(&self) -> InstructionsView {
        InstructionsView { insts: self.insts@, labels: self.labels@, relocs: self.relocs@ }
    }
}

impl InstructionsBuilder {
    /// Creates a builder without instructions and without labels.
    pub fn new() -> (builder: InstructionsBuilder)
        ensures
            builder@.insts.len() == 0,
            builder@.labels.len() == 0,
            builder@.relocs.len() == 0,
            builder@.wf(),
    {
        InstructionsBuilder { insts: Vec::new(), labels: Vec::new(), relocs: Vec::new() }
    }

    /// Returns the position at which the next instruction will be placed.
    pub fn current_pc(&self) -> (pc: InstructionIdx)
        ensures
            pc == self@.current_pc(),
    {
        InstructionIdx(self.insts.len())
    }

    /// Hands out a new, unbound label.
    pub fn new_label(&mut self) -> (label: LabelIdx)
        ensures
            label.0 == old(self)@.labels.len(),
            final(self)@ == (InstructionsView {
                labels: old(self)@.labels.push(None),
                ..old(self)@
            }),
            final(self)@.labels.len() <= usize::MAX,
            old(self)@.wf() ==> final(self)@.wf(),
    {
        let label = LabelIdx(self.labels.len());
        self.labels.push(None);
        assert(self.labels.len() == self.labels@.len());
        label
    }

    /// Binds `label` to the current position.
    ///
    /// Fails, and changes nothing, if the label was never handed out or is
    /// bound already.
    pub fn resolve_label(&mut self, label: LabelIdx) -> (res: Result<(), ModuleError>)
        ensures
            !old(self)@.is_label(label) ==> res == Err::<(), _>(ModuleError::UnknownLabel),
            old(self)@.is_resolved(label) ==> res == Err::<(), _>(
                ModuleError::LabelAlreadyResolved,
            ),
            old(self)@.is_label(label) && !old(self)@.is_resolved(label) ==> res is Ok,
            res is Err ==> final(self)@ == old(self)@,
            res is Ok ==> final(self)@ == (InstructionsView {
                labels: old(self)@.labels.update(
                    label.0 as int,
                    Some(old(self)@.current_pc()),
                ),
                ..old(self)@
            }),
            old(self)@.wf() ==> final(self)@.wf(),
    {
        if label.0 >= self.labels.len() {
            return Err(ModuleError::UnknownLabel);
        }
        if self.labels[label.0].is_some() {
            return Err(ModuleError::LabelAlreadyResolved);
        }
        let pc = self.current_pc();
        self.labels[label.0] = Some(pc);
        Ok(())
    }

    /// Looks up the position that `label` is bound to.
    ///
    /// For a bound label, returns its position and changes nothing. For an
    /// unbound label, records the relocation that `make_reloc` returns for the
    /// current position and returns [`InstructionIdx::invalid`]. Fails, and
    /// changes nothing, if the label was never handed out.
    pub fn try_resolve_label<F>(&mut self, label: LabelIdx, make_reloc: F) -> (res: Result<
        InstructionIdx,
        ModuleError,
    >) where F: FnOnce(InstructionIdx) -> Reloc
        requires
            call_requires(make_reloc, (old(self)@.current_pc(),)),
        ensures
            res is Ok <==> old(self)@.is_label(label),
            res matches Err(e) ==> e == ModuleError::UnknownLabel && final(self)@ == old(self)@,
            old(self)@.is_resolved(label) ==> res == Ok::<_, ModuleError>(
                old(self)@.labels[label.0 as int].unwrap(),
            ) && final(self)@ == old(self)@,
            old(self)@.is_label(label) && !old(self)@.is_resolved(label) ==> {
                &&& res == Ok::<_, ModuleError>(InstructionIdx::invalid())
                &&& final(self)@.relocs.len() == old(self)@.relocs.len() + 1
                &&& call_ensures(
                    make_reloc,
                    (old(self)@.current_pc(),),
                    final(self)@.relocs.last().reloc,
                )
                &&& final(self)@ == (InstructionsView {
                    relocs: old(self)@.relocs.push(
                        Relocation { label, reloc: final(self)@.relocs.last().reloc },
                    ),
                    ..old(self)@
                })
            },
            old(self)@.wf() ==> final(self)@.wf(),
    {
        if label.0 >= self.labels.len() {
            return Err(ModuleError::UnknownLabel);
        }
        match self.labels[label.0] {
            Some(pc) => Ok(pc),
            None => {
                let reloc = make_reloc(self.current_pc());
                self.relocs.push(Relocation { label, reloc });
                assert(self@.relocs =~= old(self)@.relocs.push(Relocation { label, reloc }));
                Ok(InstructionIdx::invalid())
            },
        }
    }

    /// Appends an instruction and returns its position.
    pub fn push_inst(&mut self, inst: Instruction) -> (idx: InstructionIdx)
        requires
            old(self)@.insts.len() + 1 < usize::MAX,
        ensures
            idx == old(self)@.current_pc(),
            final(self)@ == (InstructionsView {
                insts: old(self)@.insts.push(inst),
                ..old(self)@
            }),
            old(self)@.wf() ==> final(self)@.wf(),
    {
        let idx = self.current_pc();
        self.insts.push(inst);
        idx
    }

    /// Applies every recorded relocation and returns the finished code.
    ///
    /// Fails with [`ModuleError::UnresolvedLabel`] if a label is still
    /// unbound, and otherwise with [`ModuleError::InvalidRelocation`] if a
    /// relocation names a position that holds no branch.
    pub fn finish(self) -> (res: Result<Vec<Instruction>, ModuleError>)
        requires
            self@.wf(),
        ensures
            match res {
                Ok(code) => self@.finish() == Ok::<_, ModuleError>(code@),
                Err(e) => self@.finish() == Err::<Seq<Instruction>, _>(e),
            },
    {
        let InstructionsBuilder { insts, labels, relocs } = self;
        let mut insts = insts;
        let mut l: usize = 0;
        while l < labels.len()
            invariant
                l <= labels.len(),
                labels@ == self@.labels,
                forall|j: int| 0 <= j < l ==> (#[trigger] labels@[j]) is Some,
            decreases labels.len() - l,
        {
            if labels[l].is_none() {
                return Err(ModuleError::UnresolvedLabel);
            }
            l += 1;
        }
        assert(self@.all_resolved());
        let mut k: usize = 0;
        while k < relocs.len()
            invariant
                k <= relocs.len(),
                self@.wf(),
                self@.all_resolved(),
                labels@ == self@.labels,
                relocs@ == self@.relocs,
                insts@ == self@.patched(k as nat),
                forall|j: int| 0 <= j < k ==> self@.applies(#[trigger] self@.relocs[j]),
            decreases relocs.len() - k,
        {
            let relocation = relocs[k];
            proof {
                lemma_patched_shape(self@, k as nat);
            }
            let site = match relocation.reloc {
                Reloc::Br { inst_idx } => Some(inst_idx.0),
                Reloc::BrTable { inst_idx, target_idx } => match inst_idx.0.checked_add(
                    target_idx,
                ) {
                    Some(sum) => sum.checked_add(1),
                    None => None,
                },
            };
            let site = match site {
                Some(site) => site,
                None => {
                    assert(!self@.applies(self@.relocs[k as int]));
                    return Err(ModuleError::InvalidRelocation);
                },
            };
            if site >= insts.len() || insts[site].target().is_none() {
                assert(!self@.applies(self@.relocs[k as int]));
                return Err(ModuleError::InvalidRelocation);
            }
            assert(self@.is_label(self@.relocs[k as int].label));
            let dst_pc = match labels[relocation.label.0] {
                Some(pc) => pc,
                None => {
                    return Err(ModuleError::UnresolvedLabel);
                },
            };
            let patched = insts[site].with_destination(dst_pc);
            insts[site] = patched;
            k += 1;
        }
        assert(self@.all_apply());
        Ok(insts)
    }
}

} // verus!
