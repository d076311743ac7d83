//! The typed model of a parsed module, as far as the translator reads it.

use crate::value::ValueType;
use vstd::prelude::*;

verus! {

/// Index of a function type in the module's type table.
#[derive(Clone, Copy, Debug, PartialEq, Eq, Structural)]
pub struct FuncTypeIdx(pub u32);

/// Index of a function in the module's function space.
#[derive(Clone, Copy, Debug, PartialEq, Eq, Structural)]
pub struct FuncIdx(pub u32);

/// Index of a global variable in the module's global space.
#[derive(Clone, Copy, Debug, PartialEq, Eq, Structural)]
pub struct GlobalIdx(pub u32);

/// Index of a table in the module's table space.
#[derive(Clone, Copy, Debug, PartialEq, Eq, Structural)]
pub struct TableIdx(pub u32);

/// Index of a linear memory in the module's memory space.
#[derive(Clone, Copy, Debug, PartialEq, Eq, Structural)]
pub struct MemoryIdx(pub u32);

/// What can go wrong while a function body is translated.
///
/// The translator expects validated input, so each of these reports a
/// violation of the validator's contract. No code is produced for a function
/// whose translation failed.
#[derive(Clone, Copy, Debug, PartialEq, Eq, Structural)]
pub enum ModuleError {
    /// The operator belongs to a proposal that the engine has switched off.
    UnsupportedOperator,
    /// An operator needs more operands than the current frame holds.
    StackUnderflow,
    /// An operand has another type than the operator's signature demands.
    TypeMismatch,
    /// The operand stack at the end of a block differs from the block's results.
    StackHeightMismatch,
    /// A local variable index lies outside the function's locals.
    UnknownLocal,
    /// A global variable index lies outside the module's globals.
    UnknownGlobal,
    /// A function index lies outside the module's functions.
    UnknownFunc,
    /// A type index lies outside the module's type table.
    UnknownType,
    /// A table index lies outside the module's tables.
    UnknownTable,
    /// A memory index lies outside the module's memories.
    UnknownMemory,
    /// A `global.set` names an immutable global.
    ImmutableGlobal,
    /// A branch names more enclosing blocks than there are.
    InvalidBranchDepth,
    /// An `else` does not follow the arm of an `if`.
    MisplacedElse,
    /// An operator follows the `end` that closed the function body.
    MissingControlFrame,
    /// Locals were declared after the first operator.
    MisplacedLocals,
    /// A label was bound a second time.
    LabelAlreadyResolved,
    /// A label was used that the builder never handed out.
    UnknownLabel,
    /// A label was still unbound when the code was finalised.
    UnresolvedLabel,
    /// A relocation names an instruction that holds no branch target.
    InvalidRelocation,
    /// The function needs more instructions or stack slots than can be addressed.
    LimitExceeded,
}

/// The signature of a function or of a multi-value block, as a pair of
/// sequences.
pub struct Signature {
    pub params: Seq<ValueType>,
    pub results: Seq<ValueType>,
}

/// A function type: the types of the parameters and of the results.
#[derive(Clone, Debug)]
pub struct FuncType {
    params: Vec<ValueType>,
    results: Vec<ValueType>,
}

impl View for FuncType {
    type V = Signature;

    closed spec fn view(&self) -> Signature {
        Signature { params: self.params@, results: self.results@ }
    }
}

impl FuncType {
    /// Creates the function type with the given parameter and result types.
    pub fn new(params: Vec<ValueType>, results: Vec<ValueType>) -> (ty: FuncType)
        ensures
            ty@.params == params@,
            ty@.results == results@,
    {
        FuncType { params, results }
    }

    /// Returns the parameter types.
    pub fn params(&self) -> (params: &Vec<ValueType>)
        ensures
            params@ == self@.params,
    {
        &self.params
    }

    /// Returns the result types.
    pub fn results(&self) -> (results: &Vec<ValueType>)
        ensures
            results@ == self@.results,
    {
        &self.results
    }

    /// Returns `true` if the two types have the same parameters and the same
    /// results.
    pub fn same_as(&self, other: &FuncType) -> (same: bool)
        ensures
            same <==> self@ == other@,
    {
        let same = same_types(&self.params, &other.params) && same_types(
            &self.results,
            &other.results,
        );
        same
    }
}

/// Returns `true` if the two sequences hold the same types in the same order.
pub fn same_types(left: &Vec<ValueType>, right: &Vec<ValueType>) -> (same: bool)
    ensures
        same <==> left@ == right@,
{
    if left.len() != right.len() {
        return false;
    }
    let mut i: usize = 0;
    while i < left.len()
        invariant
            i <= left.len() == right.len(),
            forall|j: int| 0 <= j < i ==> left@[j] == right@[j],
        decreases left.len() - i,
    {
        if left[i] != right[i] {
            return false;
        }
        i += 1;
    }
    assert(left@ =~= right@);
    true
}

/// The type of a structured control operator.
#[derive(Clone, Copy, Debug, PartialEq, Eq, Structural)]
pub enum BlockType {
    /// No parameters and no results.
    Empty,
    /// No parameters and one result of the given type.
    Returns(ValueType),
    /// Parameters and results of the function type at the given index.
    FuncType(FuncTypeIdx),
}

/// The type of a global variable.
#[derive(Clone, Copy, Debug, PartialEq, Eq, Structural)]
pub struct GlobalType {
    pub value_type: ValueType,
    pub mutable: bool,
}

/// What the translator may look up in a module.
pub struct ModuleView {
    /// The type table.
    pub types: Seq<Signature>,
    /// The type index of every function, imported ones first.
    pub funcs: Seq<FuncTypeIdx>,
    /// The type of every global.
    pub globals: Seq<GlobalType>,
    /// The number of tables.
    pub tables: nat,
    /// The number of linear memories.
    pub memories: nat,
}

impl ModuleView {
    /// The signature that a block of type `block_type` has in this module, if
    /// the block type is valid here.
    pub open spec fn block_signature(self, block_type: BlockType) -> Option<Signature> {
        match block_type {
            BlockType::Empty => Some(Signature { params: seq![], results: seq![] }),
            BlockType::Returns(ty) => Some(Signature { params: seq![], results: seq![ty] }),
            BlockType::FuncType(idx) => if idx.0 < self.types.len() {
                Some(self.types[idx.0 as int])
            } else {
                None
            },
        }
    }

    /// The signature of the function at `func`, if there is such a function
    /// and its type index is valid.
    pub open spec fn func_signature(self, func: FuncIdx) -> Option<Signature> {
        if func.0 < self.funcs.len() && self.funcs[func.0 as int].0 < self.types.len() {
            Some(self.types[self.funcs[func.0 as int].0 as int])
        } else {
            None
        }
    }
}

/// The declarations of a module: its types, and the types of its functions,
/// tables, memories and globals.
#[derive(Debug)]
pub struct Module {
    types: Vec<FuncType>,
    funcs: Vec<FuncTypeIdx>,
    globals: Vec<GlobalType>,
    tables: usize,
    memories: usize,
}

impl View for Module {
    type V = ModuleView;

    closed spec fn view(&self) -> ModuleView {
        ModuleView {
            types: Seq::new(self.types@.len(), |i: int| self.types@[i]@),
            funcs: self.funcs@,
            globals: self.globals@,
            tables: self.tables as nat,
            memories: self.memories as nat,
        }
    }
}

impl Module {
    /// Creates a module without any declaration.
    pub fn new() -> (module: Module)
        ensures
            module@.types.len() == 0,
            module@.funcs.len() == 0,
            module@.globals.len() == 0,
            module@.tables == 0,
            module@.memories == 0,
    {
        Module { types: Vec::new(), funcs: Vec::new(), globals: Vec::new(), tables: 0, memories: 0 }
    }

    /// Appends a function type to the type table and returns its index, or
    /// `None` and no change if the table cannot hold another type.
    pub fn push_type(&mut self, ty: FuncType) -> (idx: Option<FuncTypeIdx>)
        ensures
            idx is Some <==> old(self)@.types.len() < u32::MAX,
            idx matches Some(i) ==> i.0 == old(self)@.types.len() && final(self)@ == (ModuleView {
                types: old(self)@.types.push(ty@),
                ..old(self)@
            }),
            idx is None ==> final(self)@ == old(self)@,
    {
        let len = self.types.len();
        if len >= u32::MAX as usize {
            return None;
        }
        self.types.push(ty);
        assert(self@.types =~= old(self)@.types.push(ty@));
        Some(FuncTypeIdx(len as u32))
    }

    /// Declares a function of the type at `ty` and returns its index, or `None`
    /// and no change if the function space is full.
    pub fn push_func(&mut self, ty: FuncTypeIdx) -> (idx: Option<FuncIdx>)
        ensures
            idx is Some <==> old(self)@.funcs.len() < u32::MAX,
            idx matches Some(i) ==> i.0 == old(self)@.funcs.len() && final(self)@ == (ModuleView {
                funcs: old(self)@.funcs.push(ty),
                ..old(self)@
            }),
            idx is None ==> final(self)@ == old(self)@,
    {
        let len = self.funcs.len();
        if len >= u32::MAX as usize {
            return None;
        }
        self.funcs.push(ty);
        assert(self@.types =~= old(self)@.types);
        Some(FuncIdx(len as u32))
    }

    /// Declares a global of the given type and returns its index, or `None` and
    /// no change if the global space is full.
    pub fn push_global(&mut self, ty: GlobalType) -> (idx: Option<GlobalIdx>)
        ensures
            idx is Some <==> old(self)@.globals.len() < u32::MAX,
            idx matches Some(i) ==> i.0 == old(self)@.globals.len() && final(self)@ == (
            ModuleView { globals: old(self)@.globals.push(ty), ..old(self)@ }),
            idx is None ==> final(self)@ == old(self)@,
    {
        let len = self.globals.len();
        if len >= u32::MAX as usize {
            return None;
        }
        self.globals.push(ty);
        assert(self@.types =~= old(self)@.types);
        Some(GlobalIdx(len as u32))
    }

    /// Declares a table and returns its index, or `None` and no change if the
    /// table space is full.
    pub fn push_table(&mut self) -> (idx: Option<TableIdx>)
        ensures
            idx is Some <==> old(self)@.tables < u32::MAX,
            idx matches Some(i) ==> i.0 == old(self)@.tables && final(self)@ == (ModuleView {
                tables: old(self)@.tables + 1,
                ..old(self)@
            }),
            idx is None ==> final(self)@ == old(self)@,
    {
        let len = self.tables;
        if len >= u32::MAX as usize {
            return None;
        }
        self.tables = len + 1;
        assert(self@.types =~= old(self)@.types);
        Some(TableIdx(len as u32))
    }

    /// Declares a linear memory and returns its index, or `None` and no change
    /// if the memory space is full.
    pub fn push_memory(&mut self) -> (idx: Option<MemoryIdx>)
        ensures
            idx is Some <==> old(self)@.memories < u32::MAX,
            idx matches Some(i) ==> i.0 == old(self)@.memories && final(self)@ == (ModuleView {
                memories: old(self)@.memories + 1,
                ..old(self)@
            }),
            idx is None ==> final(self)@ == old(self)@,
    {
        let len = self.memories;
        if len >= u32::MAX as usize {
            return None;
        }
        self.memories = len + 1;
        assert(self@.types =~= old(self)@.types);
        Some(MemoryIdx(len as u32))
    }
}

/// A read-only handle to the declarations of the module whose functions are
/// being translated.
#[derive(Clone, Copy, Debug)]
pub struct ModuleResources<'a> {
    module: &'a Module,
}

impl<'a> View for ModuleResources<'a> {
    type V = ModuleView;

    closed spec fn view(&self) -> ModuleView {
        self.module@
    }
}

impl<'a> ModuleResources<'a> {
    /// Creates the handle for the given module.
    pub fn new(module: &'a Module) -> (res: ModuleResources<'a>)
        ensures
            res@ == module@,
    {
        ModuleResources { module }
    }

    /// Returns the function type at `idx` of the type table, if there is one.
    pub fn get_type(&self, idx: FuncTypeIdx) -> (ty: Option<&'a FuncType>)
        ensures
            ty is Some <==> idx.0 < self@.types.len(),
            ty matches Some(t) ==> t@ == self@.types[idx.0 as int],
    {
        let module = self.module;
        if (idx.0 as usize) < module.types.len() {
            Some(&module.types[idx.0 as usize])
        } else {
            None
        }
    }

    /// Returns the type index of the function at `func`, if there is such a
    /// function.
    pub fn get_func(&self, func: FuncIdx) -> (ty: Option<FuncTypeIdx>)
        ensures
            ty is Some <==> func.0 < self@.funcs.len(),
            ty matches Some(t) ==> t == self@.funcs[func.0 as int],
    {
        if (func.0 as usize) < self.module.funcs.len() {
            Some(self.module.funcs[func.0 as usize])
        } else {
            None
        }
    }

    /// Returns the type of the function at `func`, if the function and its
    /// type exist.
    pub fn get_type_of_func(&self, func: FuncIdx) -> (ty: Option<&'a FuncType>)
        ensures
            ty is Some <==> self@.func_signature(func) is Some,
            ty matches Some(t) ==> Some(t@) == self@.func_signature(func),
    {
        let module = self.module;
        if (func.0 as usize) < module.funcs.len() {
            self.get_type(module.funcs[func.0 as usize])
        } else {
            None
        }
    }

    /// Returns the type of the global at `idx`, if there is one.
    pub fn get_global(&self, idx: GlobalIdx) -> (ty: Option<GlobalType>)
        ensures
            ty is Some <==> idx.0 < self@.globals.len(),
            ty matches Some(t) ==> t == self@.globals[idx.0 as int],
    {
        if (idx.0 as usize) < self.module.globals.len() {
            Some(self.module.globals[idx.0 as usize])
        } else {
            None
        }
    }

    /// Returns `true` if the module declares a table at `idx`.
    pub fn has_table(&self, idx: TableIdx) -> (found: bool)
        ensures
            found <==> idx.0 < self@.tables,
    {
        (idx.0 as usize) < self.module.tables
    }

    /// Returns `true` if the module declares a linear memory at `idx`.
    pub fn has_memory(&self, idx: MemoryIdx) -> (found: bool)
        ensures
            found <==> idx.0 < self@.memories,
    {
        (idx.0 as usize) < self.module.memories
    }
}

} // verus!
