//! The store: everything that instances own at run time.

use crate::engine::{Engine, FuncBody};
use crate::memory::{MemoryEntity, MemoryView};
use crate::module::{FuncType, GlobalType, Signature};
use crate::untyped::UntypedValue;
use crate::value::Value;
use vstd::prelude::*;

verus! {

/// The handle of a function in a store.
#[derive(Clone, Copy, Debug, PartialEq, Eq, Structural)]
pub struct Func(pub usize);

/// The handle of a linear memory in a store.
#[derive(Clone, Copy, Debug, PartialEq, Eq, Structural)]
pub struct Memory(pub usize);

/// The handle of a table in a store.
#[derive(Clone, Copy, Debug, PartialEq, Eq, Structural)]
pub struct Table(pub usize);

/// The handle of a global variable in a store.
#[derive(Clone, Copy, Debug, PartialEq, Eq, Structural)]
pub struct Global(pub usize);

/// The handle of a module instance in a store.
#[derive(Clone, Copy, Debug, PartialEq, Eq, Structural)]
pub struct Instance(pub usize);

/// Something that an instance exports.
#[derive(Clone, Copy, Debug, PartialEq, Eq, Structural)]
pub enum Extern {
    Func(Func),
    Memory(Memory),
    Table(Table),
    Global(Global),
}

impl Extern {
    /// Returns the function, if the export is one.
    pub fn into_func(self) -> (func: Option<Func>)
        ensures
            func == (match self {
                Extern::Func(f) => Some(f),
                _ => None,
            }),
    {
        match self {
            Extern::Func(f) => Some(f),
            _ => None,
        }
    }

    /// Returns the linear memory, if the export is one.
    pub fn into_memory(self) -> (memory: Option<Memory>)
        ensures
            memory == (match self {
                Extern::Memory(m) => Some(m),
                _ => None,
            }),
    {
        match self {
            Extern::Memory(m) => Some(m),
            _ => None,
        }
    }

    /// Returns the table, if the export is one.
    pub fn into_table(self) -> (table: Option<Table>)
        ensures
            table == (match self {
                Extern::Table(t) => Some(t),
                _ => None,
            }),
    {
        match self {
            Extern::Table(t) => Some(t),
            _ => None,
        }
    }

    /// Returns the global variable, if the export is one.
    pub fn into_global(self) -> (global: Option<Global>)
        ensures
            global == (match self {
                Extern::Global(g) => Some(g),
                _ => None,
            }),
    {
        match self {
            Extern::Global(g) => Some(g),
            _ => None,
        }
    }
}

/// A function of a store, as the interpreter sees it.
pub enum FuncView {
    /// A translated function of the given instance.
    Wasm { signature: Signature, body: FuncBody, instance: Instance },
    /// A function of the embedder.
    Host { signature: Signature },
}

impl FuncView {
    /// The signature of the function.
    pub open spec fn signature(self) -> Signature {
        match self {
            FuncView::Wasm { signature, .. } => signature,
            FuncView::Host { signature } => signature,
        }
    }
}

/// A function of a store: a translated function together with the instance
/// it belongs to, or a function of the embedder.
#[derive(Debug)]
pub enum FuncEntity {
    /// A translated function of the given instance.
    Wasm { signature: FuncType, body: FuncBody, instance: Instance },
    /// A function of the embedder.
    Host { signature: FuncType },
}

impl View for FuncEntity {
    type V = FuncView;

    open spec fn view(&self) -> FuncView {
        match self {
            FuncEntity::Wasm { signature, body, instance } => FuncView::Wasm {
                signature: signature@,
                body: *body,
                instance: *instance,
            },
            FuncEntity::Host { signature } => FuncView::Host { signature: signature@ },
        }
    }
}

impl FuncEntity {
    /// Returns the signature of the function.
    pub fn signature(&self) -> (signature: &FuncType)
        ensures
            signature@ == self@.signature(),
    {
        match self {
            FuncEntity::Wasm { signature, .. } => signature,
            FuncEntity::Host { signature } => signature,
        }
    }
}

/// A global variable: its value and its type.
#[derive(Clone, Copy, Debug, PartialEq, Eq, Structural)]
pub struct GlobalEntity {
    pub value: UntypedValue,
    pub ty: GlobalType,
}

impl GlobalEntity {
    /// Creates a global that holds `value`.
    pub fn new(value: Value, mutable: bool) -> (global: GlobalEntity)
        ensures
            global == (GlobalEntity {
                value: UntypedValue::from_value(value),
                ty: GlobalType { value_type: value.value_type(), mutable },
            }),
    {
        GlobalEntity {
            value: UntypedValue::from_value(value),
            ty: GlobalType { value_type: value.value_type(), mutable },
        }
    }

    /// Returns the value of the global.
    pub fn get(&self) -> (value: Value)
        ensures
            value == self.value.to_value(self.ty.value_type),
    {
        self.value.to_value(self.ty.value_type)
    }
}

/// A table: a sequence of slots, each empty or holding a function.
#[derive(Debug)]
pub struct TableEntity {
    elements: Vec<Option<Func>>,
}

impl View for TableEntity {
    type V = Seq<Option<Func>>;

    closed spec fn view(&self) -> Seq<Option<Func>> {
        self.elements@
    }
}

impl TableEntity {
    /// Creates a table of `len` empty slots.
    pub fn new(len: u32) -> (table: TableEntity)
        ensures
            table@.len() == len,
            forall|i: int| 0 <= i < len ==> table@[i] is None,
    {
        let mut elements: Vec<Option<Func>> = Vec::new();
        let mut i: u32 = 0;
        while i < len
            invariant
                i <= len,
                elements@.len() == i,
                forall|j: int| 0 <= j < i ==> elements@[j] is None,
            decreases len - i,
        {
            elements.push(None);
            i += 1;
        }
        TableEntity { elements }
    }

    /// Returns the number of slots.
    pub fn len(&self) -> (len: usize)
        ensures
            len == self@.len(),
    {
        self.elements.len()
    }

    /// Returns the slot at `index`, if the table has one.
    pub fn get(&self, index: u32) -> (slot: Option<Option<Func>>)
        ensures
            slot == (if index < self@.len() {
                Some(self@[index as int])
            } else {
                None
            }),
    {
        if (index as usize) < self.elements.len() {
            Some(self.elements[index as usize])
        } else {
            None
        }
    }

    /// Puts `func` into the slot at `index` and returns `true`, or returns
    /// `false` and changes nothing if the table has no such slot.
    pub fn set(&mut self, index: u32, func: Option<Func>) -> (done: bool)
        ensures
            done <==> index < old(self)@.len(),
            done ==> final(self)@ == old(self)@.update(index as int, func),
            !done ==> final(self)@ == old(self)@,
    {
        if (index as usize) < self.elements.len() {
            self.elements[index as usize] = func;
            true
        } else {
            false
        }
    }
}

/// What an instance exports under a name.
#[derive(Debug)]
pub struct Export {
    pub name: String,
    pub item: Extern,
}

/// What an instance refers to, as the interpreter sees it.
pub struct InstanceView {
    /// The type table of the module.
    pub types: Seq<Signature>,
    /// The functions of the instance by their index in the module.
    pub funcs: Seq<Func>,
    /// The tables of the instance by their index in the module.
    pub tables: Seq<Table>,
    /// The linear memories of the instance by their index in the module.
    pub memories: Seq<Memory>,
    /// The global variables of the instance by their index in the module.
    pub globals: Seq<Global>,
    /// The exports by name, in the order in which they were added.
    pub exports: Seq<(Seq<char>, Extern)>,
}

impl InstanceView {
    /// The index of the first export with the given name, if there is one.
    pub open spec fn find_export(self, name: Seq<char>) -> Option<int> {
        if exists|i: int| 0 <= i < self.exports.len() && (#[trigger] self.exports[i]).0 == name {
            Some(
                choose|i: int|
                    0 <= i < self.exports.len() && (#[trigger] self.exports[i]).0 == name
                        && forall|j: int| 0 <= j < i ==> (#[trigger] self.exports[j]).0 != name,
            )
        } else {
            None
        }
    }
}

/// An instance of a module: the handles that the indices of the module
/// stand for in the store, and the exports.
#[derive(Debug)]
pub struct InstanceEntity {
    types: Vec<FuncType>,
    funcs: Vec<Func>,
    tables: Vec<Table>,
    memories: Vec<Memory>,
    globals: Vec<Global>,
    exports: Vec<Export>,
}

impl View for InstanceEntity {
    type V = InstanceView;

    closed spec fn view(&self) -> InstanceView {
        InstanceView {
            types: Seq::new(self.types@.len(), |i: int| self.types@[i]@),
            funcs: self.funcs@,
            tables: self.tables@,
            memories: self.memories@,
            globals: self.globals@,
            exports: Seq::new(
                self.exports@.len(),
                |i: int| (self.exports@[i].name@, self.exports@[i].item),
            ),
        }
    }
}

impl InstanceEntity {
    /// Creates an instance that refers to nothing and exports nothing.
    pub fn new() -> (instance: InstanceEntity)
        ensures
            instance@.types.len() == 0,
            instance@.funcs.len() == 0,
            instance@.tables.len() == 0,
            instance@.memories.len() == 0,
            instance@.globals.len() == 0,
            instance@.exports.len() == 0,
    {
        InstanceEntity {
            types: Vec::new(),
            funcs: Vec::new(),
            tables: Vec::new(),
            memories: Vec::new(),
            globals: Vec::new(),
            exports: Vec::new(),
        }
    }

    /// Appends a type to the type table.
    pub fn push_type(&mut self, ty: FuncType)
        ensures
            final(self)@ == (InstanceView { types: old(self)@.types.push(ty@), ..old(self)@ }),
    {
        self.types.push(ty);
        assert(self@.types =~= old(self)@.types.push(ty@));
        assert(self@.exports =~= old(self)@.exports);
    }

    /// Appends a function: it gets the next function index of the module.
    pub fn push_func(&mut self, func: Func)
        ensures
            final(self)@ == (InstanceView { funcs: old(self)@.funcs.push(func), ..old(self)@ }),
    {
        self.funcs.push(func);
        assert(self@.types =~= old(self)@.types);
        assert(self@.exports =~= old(self)@.exports);
    }

    /// Appends a table: it gets the next table index of the module.
    pub fn push_table(&mut self, table: Table)
        ensures
            final(self)@ == (InstanceView {
                tables: old(self)@.tables.push(table),
                ..old(self)@
            }),
    {
        self.tables.push(table);
        assert(self@.types =~= old(self)@.types);
        assert(self@.exports =~= old(self)@.exports);
    }

    /// Appends a linear memory: it gets the next memory index of the module.
    pub fn push_memory(&mut self, memory: Memory)
        ensures
            final(self)@ == (InstanceView {
                memories: old(self)@.memories.push(memory),
                ..old(self)@
            }),
    {
        self.memories.push(memory);
        assert(self@.types =~= old(self)@.types);
        assert(self@.exports =~= old(self)@.exports);
    }

    /// Appends a global variable: it gets the next global index of the
    /// module.
    pub fn push_global(&mut self, global: Global)
        ensures
            final(self)@ == (InstanceView {
                globals: old(self)@.globals.push(global),
                ..old(self)@
            }),
    {
        self.globals.push(global);
        assert(self@.types =~= old(self)@.types);
        assert(self@.exports =~= old(self)@.exports);
    }

    /// Exports `item` under `name`.
    pub fn push_export(&mut self, name: String, item: Extern)
        ensures
            final(self)@ == (InstanceView {
                exports: old(self)@.exports.push((name@, item)),
                ..old(self)@
            }),
    {
        self.exports.push(Export { name, item });
        assert(self@.types =~= old(self)@.types);
        assert(self@.exports =~= old(self)@.exports.push((name@, item)));
    }

    /// Returns the first export with the given name, if there is one.
    pub fn get_export(&self, name: &str) -> (item: Option<Extern>)
        ensures
            match self@.find_export(name@) {
                Some(i) => item == Some(self@.exports[i].1),
                None => item is None,
            },
    {
        let wanted = name.to_owned();
        let mut i: usize = 0;
        while i < self.exports.len()
            invariant
                i <= self.exports@.len(),
                wanted@ == name@,
                forall|j: int| 0 <= j < i ==> (#[trigger] self@.exports[j]).0 != name@,
            decreases self.exports.len() - i,
        {
            if self.exports[i].name == wanted {
                assert(self@.exports[i as int].0 == name@);
                return Some(self.exports[i].item);
            }
            i += 1;
        }
        None
    }

    /// Returns the type at `index` of the type table, if there is one.
    pub fn get_type(&self, index: u32) -> (ty: Option<&FuncType>)
        ensures
            ty is Some <==> index < self@.types.len(),
            ty matches Some(t) ==> t@ == self@.types[index as int],
    {
        if (index as usize) < self.types.len() {
            Some(&self.types[index as usize])
        } else {
            None
        }
    }

    /// Returns the handle of the function at `index`, if there is one.
    pub fn get_func(&self, index: u32) -> (func: Option<Func>)
        ensures
            func == (if index < self@.funcs.len() {
                Some(self@.funcs[index as int])
            } else {
                None
            }),
    {
        if (index as usize) < self.funcs.len() {
            Some(self.funcs[index as usize])
        } else {
            None
        }
    }

    /// Returns the handle of the table at `index`, if there is one.
    pub fn get_table(&self, index: u32) -> (table: Option<Table>)
        ensures
            table == (if index < self@.tables.len() {
                Some(self@.tables[index as int])
            } else {
                None
            }),
    {
        if (index as usize) < self.tables.len() {
            Some(self.tables[index as usize])
        } else {
            None
        }
    }

    /// Returns the handle of the linear memory at `index`, if there is one.
    pub fn get_memory(&self, index: u32) -> (memory: Option<Memory>)
        ensures
            memory == (if index < self@.memories.len() {
                Some(self@.memories[index as int])
            } else {
                None
            }),
    {
        if (index as usize) < self.memories.len() {
            Some(self.memories[index as usize])
        } else {
            None
        }
    }

    /// Returns the handle of the global variable at `index`, if there is
    /// one.
    pub fn get_global(&self, index: u32) -> (global: Option<Global>)
        ensures
            global == (if index < self@.globals.len() {
                Some(self@.globals[index as int])
            } else {
                None
            }),
    {
        if (index as usize) < self.globals.len() {
            Some(self.globals[index as usize])
        } else {
            None
        }
    }
}

/// What a store holds besides the state of the embedder.
pub struct StoreView {
    pub funcs: Seq<FuncView>,
    pub memories: Seq<MemoryView>,
    pub tables: Seq<Seq<Option<Func>>>,
    pub globals: Seq<GlobalEntity>,
    pub instances: Seq<InstanceView>,
}

/// The store: the functions, memories, tables, globals and instances that
/// exist at run time, the state of the embedder, and the engine whose code
/// the functions run.
pub struct Store<'engine, T> {
    pub(crate) engine: &'engine Engine,
    pub(crate) state: T,
    pub(crate) funcs: Vec<FuncEntity>,
    pub(crate) memories: Vec<MemoryEntity>,
    pub(crate) tables: Vec<TableEntity>,
    pub(crate) globals: Vec<GlobalEntity>,
    pub(crate) instances: Vec<InstanceEntity>,
}

impl<'engine, T> View for Store<'engine, T> {
    type V = StoreView;

    closed spec fn view(&self) -> StoreView {
        StoreView {
            funcs: Seq::new(self.funcs@.len(), |i: int| self.funcs@[i]@),
            memories: Seq::new(self.memories@.len(), |i: int| self.memories@[i]@),
            tables: Seq::new(self.tables@.len(), |i: int| self.tables@[i]@),
            globals: self.globals@,
            instances: Seq::new(self.instances@.len(), |i: int| self.instances@[i]@),
        }
    }
}

impl<'engine, T> Store<'engine, T> {
    /// The state of the embedder.
    pub closed spec fn spec_state(&self) -> T {
        self.state
    }

    /// The engine of the store.
    pub closed spec fn spec_engine(&self) -> &'engine Engine {
        self.engine
    }

    /// The engine is well-formed and every memory consists of whole pages.
    pub closed spec fn wf(&self) -> bool {
        &&& self.engine.wf()
        &&& forall|i: int| 0 <= i < self.memories@.len() ==> (#[trigger] self.memories@[i]).wf()
    }

    /// Creates an empty store for the given engine with the given state of
    /// the embedder.
    pub fn new(engine: &'engine Engine, state: T) -> (store: Store<'engine, T>)
        requires
            engine.wf(),
        ensures
            store.wf(),
            store.spec_engine() == engine,
            store.spec_state() == state,
            store@.funcs.len() == 0,
            store@.memories.len() == 0,
            store@.tables.len() == 0,
            store@.globals.len() == 0,
            store@.instances.len() == 0,
    {
        Store {
            engine,
            state,
            funcs: Vec::new(),
            memories: Vec::new(),
            tables: Vec::new(),
            globals: Vec::new(),
            instances: Vec::new(),
        }
    }

    /// Returns the engine of the store.
    #[verifier::when_used_as_spec(spec_engine)]
    pub fn engine(&self) -> (engine: &'engine Engine)
        ensures
            engine == self.spec_engine(),
            self.wf() ==> engine.wf(),
    {
        self.engine
    }

    /// Returns a shared reference to the state of the embedder.
    pub fn state(&self) -> (state: &T)
        ensures
            *state == self.spec_state(),
    {
        &self.state
    }

    /// Returns an exclusive reference to the state of the embedder. Nothing
    /// else of the store can change through it.
    pub fn state_mut(&mut self) -> (state: &mut T)
        ensures
            *state == old(self).spec_state(),
            final(self).spec_state() == *final(state),
            final(self)@ == old(self)@,
            final(self).spec_engine() == old(self).spec_engine(),
            old(self).wf() ==> final(self).wf(),
    {
        &mut self.state
    }

    /// Adds a function to the store and returns its handle.
    pub fn alloc_func(&mut self, func: FuncEntity) -> (handle: Func)
        ensures
            handle.0 == old(self)@.funcs.len(),
            final(self)@ == (StoreView { funcs: old(self)@.funcs.push(func@), ..old(self)@ }),
            final(self).spec_state() == old(self).spec_state(),
            final(self).spec_engine() == old(self).spec_engine(),
            old(self).wf() ==> final(self).wf(),
    {
        let handle = Func(self.funcs.len());
        self.funcs.push(func);
        proof {
            assert(self@.funcs =~= old(self)@.funcs.push(func@));
            assert(self@.memories =~= old(self)@.memories);
            assert(self@.tables =~= old(self)@.tables);
            assert(self@.instances =~= old(self)@.instances);
        }
        handle
    }

    /// Adds a linear memory to the store and returns its handle.
    pub fn alloc_memory(&mut self, memory: MemoryEntity) -> (handle: Memory)
        requires
            memory.wf(),
        ensures
            handle.0 == old(self)@.memories.len(),
            final(self)@ == (StoreView {
                memories: old(self)@.memories.push(memory@),
                ..old(self)@
            }),
            final(self).spec_state() == old(self).spec_state(),
            final(self).spec_engine() == old(self).spec_engine(),
            old(self).wf() ==> final(self).wf(),
    {
        let handle = Memory(self.memories.len());
        self.memories.push(memory);
        proof {
            assert(self@.funcs =~= old(self)@.funcs);
            assert(self@.memories =~= old(self)@.memories.push(memory@));
            assert(self@.tables =~= old(self)@.tables);
            assert(self@.instances =~= old(self)@.instances);
        }
        handle
    }

    /// Adds a table to the store and returns its handle.
    pub fn alloc_table(&mut self, table: TableEntity) -> (handle: Table)
        ensures
            handle.0 == old(self)@.tables.len(),
            final(self)@ == (StoreView { tables: old(self)@.tables.push(table@), ..old(self)@ }),
            final(self).spec_state() == old(self).spec_state(),
            final(self).spec_engine() == old(self).spec_engine(),
            old(self).wf() ==> final(self).wf(),
    {
        let handle = Table(self.tables.len());
        self.tables.push(table);
        proof {
            assert(self@.funcs =~= old(self)@.funcs);
            assert(self@.memories =~= old(self)@.memories);
            assert(self@.tables =~= old(self)@.tables.push(table@));
            assert(self@.instances =~= old(self)@.instances);
        }
        handle
    }

    /// Adds a global variable to the store and returns its handle.
    pub fn alloc_global(&mut self, global: GlobalEntity) -> (handle: Global)
        ensures
            handle.0 == old(self)@.globals.len(),
            final(self)@ == (StoreView {
                globals: old(self)@.globals.push(global),
                ..old(self)@
            }),
            final(self).spec_state() == old(self).spec_state(),
            final(self).spec_engine() == old(self).spec_engine(),
            old(self).wf() ==> final(self).wf(),
    {
        let handle = Global(self.globals.len());
        self.globals.push(global);
        proof {
            assert(self@.funcs =~= old(self)@.funcs);
            assert(self@.memories =~= old(self)@.memories);
            assert(self@.tables =~= old(self)@.tables);
            assert(self@.instances =~= old(self)@.instances);
        }
        handle
    }

    /// Adds an instance to the store and returns its handle.
    pub fn alloc_instance(&mut self, instance: InstanceEntity) -> (handle: Instance)
        ensures
            handle.0 == old(self)@.instances.len(),
            final(self)@ == (StoreView {
                instances: old(self)@.instances.push(instance@),
                ..old(self)@
            }),
            final(self).spec_state() == old(self).spec_state(),
            final(self).spec_engine() == old(self).spec_engine(),
            old(self).wf() ==> final(self).wf(),
    {
        let handle = Instance(self.instances.len());
        self.instances.push(instance);
        proof {
            assert(self@.funcs =~= old(self)@.funcs);
            assert(self@.memories =~= old(self)@.memories);
            assert(self@.tables =~= old(self)@.tables);
            assert(self@.instances =~= old(self)@.instances.push(instance@));
        }
        handle
    }

    /// Returns the handle that the next instance will get.
    pub fn next_instance(&self) -> (handle: Instance)
        ensures
            handle.0 == self@.instances.len(),
    {
        Instance(self.instances.len())
    }

    /// Returns the function behind the handle, if there is one.
    pub fn func(&self, handle: Func) -> (func: Option<&FuncEntity>)
        ensures
            func is Some <==> handle.0 < self@.funcs.len(),
            func matches Some(f) ==> f@ == self@.funcs[handle.0 as int],
    {
        if handle.0 < self.funcs.len() {
            Some(&self.funcs[handle.0])
        } else {
            None
        }
    }

    /// Returns the linear memory behind the handle, if there is one.
    pub fn memory(&self, handle: Memory) -> (memory: Option<&MemoryEntity>)
        requires
            self.wf(),
        ensures
            memory is Some <==> handle.0 < self@.memories.len(),
            memory matches Some(m) ==> m@ == self@.memories[handle.0 as int] && m.wf(),
    {
        if handle.0 < self.memories.len() {
            Some(&self.memories[handle.0])
        } else {
            None
        }
    }

    /// Returns the table behind the handle, if there is one.
    pub fn table(&self, handle: Table) -> (table: Option<&TableEntity>)
        ensures
            table is Some <==> handle.0 < self@.tables.len(),
            table matches Some(t) ==> t@ == self@.tables[handle.0 as int],
    {
        if handle.0 < self.tables.len() {
            Some(&self.tables[handle.0])
        } else {
            None
        }
    }

    /// Returns the global variable behind the handle, if there is one.
    pub fn global(&self, handle: Global) -> (global: Option<GlobalEntity>)
        ensures
            global == (if handle.0 < self@.globals.len() {
                Some(self@.globals[handle.0 as int])
            } else {
                None
            }),
    {
        if handle.0 < self.globals.len() {
            Some(self.globals[handle.0])
        } else {
            None
        }
    }

    /// Returns the instance behind the handle, if there is one.
    pub fn instance(&self, handle: Instance) -> (instance: Option<&InstanceEntity>)
        ensures
            instance is Some <==> handle.0 < self@.instances.len(),
            instance matches Some(i) ==> i@ == self@.instances[handle.0 as int],
    {
        if handle.0 < self.instances.len() {
            Some(&self.instances[handle.0])
        } else {
            None
        }
    }

    /// Sets the value of the global variable behind `handle` and returns
    /// `true`, or returns `false` and changes nothing if there is no such
    /// global.
    pub fn set_global(&mut self, handle: Global, value: UntypedValue) -> (done: bool)
        ensures
            final(self).spec_state() == old(self).spec_state(),
            final(self).spec_engine() == old(self).spec_engine(),
            old(self).wf() ==> final(self).wf(),
            done <==> handle.0 < old(self)@.globals.len(),
            !done ==> final(self)@ == old(self)@,
            done ==> final(self)@ == (StoreView {
                globals: old(self)@.globals.update(
                    handle.0 as int,
                    GlobalEntity { value, ..old(self)@.globals[handle.0 as int] },
                ),
                ..old(self)@
            }),
    {
        if handle.0 >= self.globals.len() {
            return false;
        }
        let ty = self.globals[handle.0].ty;
        self.globals[handle.0] = GlobalEntity { value, ty };
        proof {
            assert(self@.funcs =~= old(self)@.funcs);
            assert(self@.memories =~= old(self)@.memories);
            assert(self@.tables =~= old(self)@.tables);
            assert(self@.instances =~= old(self)@.instances);
        }
        true
    }

    /// Stores the low `width` bytes of `value` at `address` of the linear
    /// memory behind `handle` and returns `true`, or returns `false` and
    /// changes nothing if the access is out of bounds. The handle must be one
    /// of the store and the width 1, 2, 4 or 8.
    pub fn store_memory(&mut self, handle: Memory, address: u64, width: usize, value: u64) -> (done:
        bool)
        requires
            old(self).wf(),
            handle.0 < old(self)@.memories.len(),
            width == 1 || width == 2 || width == 4 || width == 8,
        ensures
            final(self).wf(),
            final(self).spec_state() == old(self).spec_state(),
            final(self).spec_engine() == old(self).spec_engine(),
            match old(self)@.memories[handle.0 as int].store(
                address,
                width as nat,
                value as nat,
            ) {
                Some(memory) => done && final(self)@ == (StoreView {
                    memories: old(self)@.memories.update(handle.0 as int, memory),
                    ..old(self)@
                }),
                None => !done && final(self)@ == old(self)@,
            },
    {
        let done = self.memories[handle.0].store(address, width, value);
        proof {
            assert(self@.funcs =~= old(self)@.funcs);
            assert(self@.tables =~= old(self)@.tables);
            assert(self@.instances =~= old(self)@.instances);
            if done {
                assert(self@.memories =~= old(self)@.memories.update(
                    handle.0 as int,
                    self.memories@[handle.0 as int]@,
                ));
            } else {
                assert(self@.memories =~= old(self)@.memories);
            }
        }
        done
    }

    /// Grows the linear memory behind `handle` by `delta` zeroed pages and
    /// returns the number of pages it had before. Returns `None`, and changes
    /// nothing, if the memory cannot grow that far. The handle must be one of
    /// the store.
    pub fn grow_memory(&mut self, handle: Memory, delta: u32) -> (previous: Option<u32>)
        requires
            old(self).wf(),
            handle.0 < old(self)@.memories.len(),
        ensures
            final(self).wf(),
            final(self).spec_state() == old(self).spec_state(),
            final(self).spec_engine() == old(self).spec_engine(),
            match old(self)@.memories[handle.0 as int].grow(delta) {
                Some(memory) => previous == Some(
                    old(self)@.memories[handle.0 as int].pages() as u32,
                ) && final(self)@ == (StoreView {
                    memories: old(self)@.memories.update(handle.0 as int, memory),
                    ..old(self)@
                }),
                None => previous is None && final(self)@ == old(self)@,
            },
    {
        let previous = self.memories[handle.0].grow(delta);
        proof {
            assert(self@.funcs =~= old(self)@.funcs);
            assert(self@.tables =~= old(self)@.tables);
            assert(self@.instances =~= old(self)@.instances);
            if previous is Some {
                assert(self@.memories =~= old(self)@.memories.update(
                    handle.0 as int,
                    self.memories@[handle.0 as int]@,
                ));
            } else {
                assert(self@.memories =~= old(self)@.memories);
            }
        }
        previous
    }

    /// Copies `data` into the linear memory behind `handle` from `offset` on
    /// and returns `true`. Returns `false` and changes nothing if there is no
    /// such memory or it does not reach that far.
    pub fn write_memory(&mut self, handle: Memory, offset: usize, data: &Vec<u8>) -> (done: bool)
        requires
            old(self).wf(),
        ensures
            final(self).wf(),
            final(self).spec_state() == old(self).spec_state(),
            final(self).spec_engine() == old(self).spec_engine(),
            done <==> handle.0 < old(self)@.memories.len() && offset + data@.len() <= old(
                self,
            )@.memories[handle.0 as int].bytes.len(),
            !done ==> final(self)@ == old(self)@,
            done ==> final(self)@ == (StoreView {
                memories: old(self)@.memories.update(
                    handle.0 as int,
                    MemoryView {
                        bytes: old(self)@.memories[handle.0 as int].bytes.subrange(
                            0,
                            offset as int,
                        ) + data@ + old(self)@.memories[handle.0 as int].bytes.subrange(
                            offset + data@.len(),
                            old(self)@.memories[handle.0 as int].bytes.len() as int,
                        ),
                        ..old(self)@.memories[handle.0 as int]
                    },
                ),
                ..old(self)@
            }),
    {
        if handle.0 >= self.memories.len() {
            return false;
        }
        let done = self.memories[handle.0].write(offset, data);
        proof {
            assert(self@.funcs =~= old(self)@.funcs);
            assert(self@.tables =~= old(self)@.tables);
            assert(self@.instances =~= old(self)@.instances);
            if done {
                assert(self@.memories =~= old(self)@.memories.update(
                    handle.0 as int,
                    self.memories@[handle.0 as int]@,
                ));
            } else {
                assert(self@.memories =~= old(self)@.memories);
            }
        }
        done
    }

    /// Copies the bytes of the linear memory behind `handle` from `offset`
    /// on into `buffer`, as many as the buffer holds, and returns `true`.
    /// Returns `false` and leaves the buffer alone if there is no such memory
    /// or it does not reach that far.
    pub fn read_memory(&self, handle: Memory, offset: usize, buffer: &mut Vec<u8>) -> (done: bool)
        ensures
            final(buffer)@.len() == old(buffer)@.len(),
            done <==> handle.0 < self@.memories.len() && offset + old(buffer)@.len()
                <= self@.memories[handle.0 as int].bytes.len(),
            done ==> final(buffer)@ == self@.memories[handle.0 as int].bytes.subrange(
                offset as int,
                offset + old(buffer)@.len(),
            ),
            !done ==> final(buffer)@ == old(buffer)@,
    {
        if handle.0 >= self.memories.len() {
            return false;
        }
        self.memories[handle.0].read(offset, buffer)
    }
}

} // verus!
