//! The engine: the instruction set, the translator that produces it, the
//! store of translated code and the interpreter that runs it.

pub mod bytecode;
pub mod config;
pub mod executor;
pub mod func_builder;

pub use self::config::Config;
use self::bytecode::Instruction;
use self::func_builder::{CompiledFunc, CompiledView};
use vstd::prelude::*;

verus! {

/// The handle of a translated function body in the code of an engine.
#[derive(Clone, Copy, Debug, PartialEq, Eq, Structural)]
pub struct FuncBody(pub usize);

/// Where the instructions of a function lie in the code of the engine, and
/// the sizes that a call of the function needs.
#[derive(Clone, Copy, Debug)]
struct FuncHeader {
    start: usize,
    len: usize,
    len_locals: usize,
    max_stack_height: usize,
}

/// The configuration and the translated functions of an engine.
pub struct EngineView {
    /// The configuration that the engine was created with.
    pub config: Config,
    /// The translated functions in the order in which they were stored.
    pub funcs: Seq<CompiledView>,
}

/// The engine: its configuration and the code of the functions translated for
/// it.
///
/// Function bodies are appended to one vector of instructions and are never
/// changed afterwards, so every instance of a module can run the same code.
#[derive(Debug)]
pub struct Engine {
    config: Config,
    code: Vec<Instruction>,
    funcs: Vec<FuncHeader>,
}

impl View for Engine {
    type V = EngineView;

    closed spec fn view(&self) -> EngineView {
        EngineView {
            config: self.config,
            funcs: Seq::new(
                self.funcs@.len(),
                |i: int|
                    CompiledView {
                        insts: self.code@.subrange(
                            self.funcs@[i].start as int,
                            self.funcs@[i].start + self.funcs@[i].len,
                        ),
                        len_locals: self.funcs@[i].len_locals as nat,
                        max_stack_height: self.funcs@[i].max_stack_height as nat,
                    },
            ),
        }
    }
}

impl Engine {
    /// The configuration that the engine was created with.
    pub open spec fn spec_config(&self) -> Config {
        self@.config
    }

    /// Every function body lies within the code.
    pub closed spec fn wf(&self) -> bool {
        forall|i: int|
            0 <= i < self.funcs@.len() ==> (#[trigger] self.funcs@[i]).start + self.funcs@[i].len
                <= self.code@.len()
    }

    /// Creates an engine with the given configuration and no code.
    pub fn new(config: Config) -> (engine: Engine)
        ensures
            engine.wf(),
            engine@.config == config,
            engine@.funcs.len() == 0,
    {
        Engine { config, code: Vec::new(), funcs: Vec::new() }
    }

    /// Returns the configuration that the engine was created with.
    #[verifier::when_used_as_spec(spec_config)]
    pub fn config(&self) -> (config: Config)
        ensures
            config == self@.config,
    {
        self.config
    }

    /// Stores the code of a translated function and returns its handle.
    pub fn alloc_func_body(&mut self, compiled: CompiledFunc) -> (body: FuncBody)
        requires
            old(self).wf(),
        ensures
            final(self).wf(),
            body.0 == old(self)@.funcs.len(),
            final(self)@ == (EngineView {
                funcs: old(self)@.funcs.push(compiled@),
                ..old(self)@
            }),
    {
        let start = self.code.len();
        let len_locals = compiled.len_locals();
        let max_stack_height = compiled.max_stack_height();
        let ghost view = compiled@;
        let mut insts = compiled.into_insts();
        let len = insts.len();
        self.code.append(&mut insts);
        let body = FuncBody(self.funcs.len());
        self.funcs.push(FuncHeader { start, len, len_locals, max_stack_height });
        proof {
            assert(self.code@.subrange(start as int, start + len) =~= view.insts);
            assert forall|i: int| 0 <= i < old(self).funcs@.len() implies self.code@.subrange(
                self.funcs@[i].start as int,
                self.funcs@[i].start + self.funcs@[i].len,
            ) == old(self).code@.subrange(
                old(self).funcs@[i].start as int,
                old(self).funcs@[i].start + old(self).funcs@[i].len,
            ) by {
                assert(old(self).funcs@[i].start + old(self).funcs@[i].len
                    <= old(self).code@.len());
                assert(self.code@.subrange(
                    self.funcs@[i].start as int,
                    self.funcs@[i].start + self.funcs@[i].len,
                ) =~= old(self).code@.subrange(
                    old(self).funcs@[i].start as int,
                    old(self).funcs@[i].start + old(self).funcs@[i].len,
                ));
            }
            assert(self@.funcs =~= old(self)@.funcs.push(view));
        }
        body
    }

    /// Returns the number of declared locals and the greatest operand height
    /// of the function body at `body`, if there is such a body.
    pub fn sizes(&self, body: FuncBody) -> (sizes: Option<(usize, usize)>)
        ensures
            sizes is Some <==> body.0 < self@.funcs.len(),
            sizes matches Some(s) ==> s.0 == self@.funcs[body.0 as int].len_locals && s.1
                == self@.funcs[body.0 as int].max_stack_height,
    {
        if body.0 < self.funcs.len() {
            let header = self.funcs[body.0];
            Some((header.len_locals, header.max_stack_height))
        } else {
            None
        }
    }

    /// Returns the instruction at position `pc` of the function body at
    /// `body`, if there is such a body and it is that long.
    pub fn fetch(&self, body: FuncBody, pc: usize) -> (inst: Option<Instruction>)
        requires
            self.wf(),
        ensures
            inst == self@.fetch(body, pc),
    {
        if body.0 < self.funcs.len() {
            let header = self.funcs[body.0];
            assert(header.start + header.len <= self.code.len());
            if pc < header.len {
                Some(self.code[header.start + pc])
            } else {
                None
            }
        } else {
            None
        }
    }
}

impl EngineView {
    /// The instruction at position `pc` of the function body at `body`, if
    /// there is such a body and it is that long.
    pub open spec fn fetch(self, body: FuncBody, pc: usize) -> Option<Instruction> {
        if body.0 < self.funcs.len() && pc < self.funcs[body.0 as int].insts.len() {
            Some(self.funcs[body.0 as int].insts[pc as int])
        } else {
            None
        }
    }
}

} // verus!
