//! The core of a WebAssembly engine: a single-pass translator from Wasm
//! operators to a compact internal instruction set, and the interpreter that
//! runs the translated code.
//!
//! - [`engine::func_builder`] translates one function body. It emulates the
//!   value stack by types, keeps a frame for every open block and resolves
//!   branches through labels.
//! - [`engine::executor`] runs translated code on a value stack and a call
//!   stack against a [`Store`], and reports traps, calls of host functions
//!   and the instructions it leaves to the float unit of the embedder.
//! - [`numeric`], [`memory`] and [`untyped`] hold what the instructions
//!   compute. Floats are kept as bit patterns throughout.
//!
//! Every function of the library is verified against its contract: none of
//! them panics, and the translator and the interpreter do exactly what their
//! models in [`engine::func_builder::state`] and
//! [`engine::executor::machine`] say.

pub mod engine;
pub mod func;
pub mod memory;
pub mod module;
pub mod numeric;
pub mod operator;
pub mod store;
pub mod trap;
pub mod untyped;
pub mod value;

pub use self::engine::bytecode::{DropKeep, Instruction, InstructionIdx, Target};
pub use self::engine::executor::{CallFrame, Executor, Pending, Signal};
pub use self::engine::func_builder::{
    BrTable, CompiledFunc, ControlFlowStack, ControlFrame, FunctionBuilder, InstructionsBuilder,
    LabelIdx, RelativeDepth, Reloc, Relocation, ValueStack,
};
pub use self::engine::{Config, Engine, FuncBody};
pub use self::func::Caller;
pub use self::memory::MemoryEntity;
pub use self::module::{
    BlockType, FuncIdx, FuncType, FuncTypeIdx, GlobalIdx, GlobalType, MemoryIdx, Module,
    ModuleError, ModuleResources, TableIdx,
};
pub use self::numeric::{evaluate, Evaluation};
pub use self::operator::Operator;
pub use self::store::{
    Export, Extern, Func, FuncEntity, Global, GlobalEntity, Instance, InstanceEntity, Memory, Store,
    Table, TableEntity,
};
pub use self::trap::{Trap, TrapCode};
pub use self::untyped::UntypedValue;
pub use self::value::{Value, ValueType, F32, F64};
