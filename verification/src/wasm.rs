//! The host of a sandboxed WebAssembly module.
//!
//! A module is loaded from its binary form into a sandbox of its own. The
//! host calls its exported functions by name and reads its linear memory,
//! and hands out copies of byte ranges only, each checked against the
//! memory's current size before a byte is copied.

use crate::execution::{tasks_view, ExecutionFlow};
use crate::runtime::{
    check_signature, compile, describe, error_text, exported_func, exported_memory,
    has_binary_signature, instance_store, instantiate, lookup_func, lookup_memory, memory_bytes, memory_data,
    new_engine, new_store, run, store_id,
};
use vstd::prelude::*;
use wasmtime::{Engine, Error, Func, Instance, Store};

verus! {

/// The number of workers of the scheduler that every module carries.
pub const MODULE_WORKERS: usize = 4;

/// The address space, in bytes, that the engine sets aside for a linear
/// memory when it makes one. A memory that outgrows it is moved.
pub const MEMORY_RESERVATION: u64 = 0xa0_0000;

/// The size, in bytes, of the inaccessible region that the engine puts next
/// to a linear memory.
pub const MEMORY_GUARD: u64 = 0x1_0000;

/// The address space, in bytes, that the engine adds for further growth when
/// it moves a linear memory.
pub const MEMORY_GROWTH: u64 = 0x10_0000;

/// The ways in which the host fails.
#[derive(Clone, Copy, PartialEq, Eq, Structural, Debug)]
pub enum ErrorKind {
    /// The binary could not be compiled or instantiated.
    LoadFailure,
    /// The module exports no function of the name asked for.
    NotFound,
    /// The function does not take two 32-bit integers and return one.
    TypeMismatch,
    /// The call trapped inside the sandbox.
    TrapError,
    /// The byte range asked for does not lie within the memory.
    OutOfBounds,
    /// The module exports no linear memory.
    NoMemory,
}

/// A failure of the host: its kind, and a text for people to read.
#[derive(Debug)]
pub struct WasmError {
    pub kind: ErrorKind,
    pub message: String,
}

/// The text of the error for a function that the module does not export.
pub open spec fn not_found_message(func_name: Seq<char>) -> Seq<char> {
    "Function '"@ + func_name + "' not found"@
}

impl WasmError {
    /// The text of the error.
    pub fn to_string(&self) -> (text: String)
        ensures
            text@ == self.message@,
    {
        self.message.clone()
    }
}

/// Turns the outcome of a call into the engine into the host's own: a value
/// passes through, and an engine error becomes an error of the given kind
/// that carries the engine's text.
pub fn or_failure<T>(outcome: Result<T, Error>, kind: ErrorKind) -> (result: Result<T, WasmError>)
    ensures
        match outcome {
            Ok(value) => result == Ok::<T, WasmError>(value),
            Err(error) => result matches Err(e) && e.kind == kind && e.message@ == error_text(
                error,
            ),
        },
{
    match outcome {
        Ok(value) => Ok(value),
        Err(error) => Err(WasmError { kind, message: describe(&error) }),
    }
}

/// Turns the outcome of a lookup into the host's own: a function that was
/// found passes through, and a missing one becomes `NotFound`, with the name
/// that was asked for in its text.
pub fn or_not_found(found: Option<Func>, func_name: &str) -> (result: Result<Func, WasmError>)
    ensures
        match found {
            Some(func) => result == Ok::<Func, WasmError>(func),
            None => result matches Err(e) && e.kind == ErrorKind::NotFound && e.message@
                == not_found_message(func_name@),
        },
{
    match found {
        Some(func) => Ok(func),
        None => {
            let mut message = String::from_str("Function '");
            message.append(func_name);
            message.append("' not found");
            Err(WasmError { kind: ErrorKind::NotFound, message })
        },
    }
}

/// What a read of `len` bytes at `offset` yields from a memory with the
/// given contents: the bytes of the range where it lies within the memory,
/// and nothing where it does not.
pub open spec fn range_of(data: Seq<u8>, offset: int, len: int) -> Option<Seq<u8>> {
    if 0 <= offset && 0 <= len && offset + len <= data.len() {
        Some(data.subrange(offset, offset + len))
    } else {
        None
    }
}

/// Copies `len` bytes at `offset` out of `data`, or fails with `OutOfBounds`
/// where the range does not lie within `data`. The range is checked before
/// any byte is copied, and its end is computed without wrapping around.
pub fn read_range(data: &[u8], offset: usize, len: usize) -> (result: Result<Vec<u8>, WasmError>)
    ensures
        match range_of(data@, offset as int, len as int) {
            Some(range) => result matches Ok(bytes) && bytes@ == range,
            None => result matches Err(e) && e.kind == ErrorKind::OutOfBounds && e.message@
                == "Memory access out of bounds"@,
        },
{
    let size = data.len();
    let end = match offset.checked_add(len) {
        Some(end) => end,
        None => {
            return Err(out_of_bounds());
        },
    };
    if end > size {
        return Err(out_of_bounds());
    }
    let mut bytes: Vec<u8> = Vec::with_capacity(len);
    let mut at: usize = offset;
    while at < end
        invariant
            offset <= at <= end <= data@.len(),
            end == offset + len,
            bytes@ == data@.subrange(offset as int, at as int),
        decreases end - at,
    {
        bytes.push(data[at]);
        at += 1;
        assert(bytes@ =~= data@.subrange(offset as int, at as int));
    }
    Ok(bytes)
}

fn out_of_bounds() -> (e: WasmError)
    ensures
        e.kind == ErrorKind::OutOfBounds,
        e.message@ == "Memory access out of bounds"@,
{
    WasmError {
        kind: ErrorKind::OutOfBounds,
        message: String::from_str("Memory access out of bounds"),
    }
}

/// The name under which a module exports its linear memory.
pub open spec fn memory_export() -> Seq<char> {
    "memory"@
}

/// A module instantiated in a sandbox of its own, and the scheduler that it
/// carries.
///
/// The sandbox keeps its state from one call to the next: what a call writes
/// into the linear memory is there for the calls and reads that follow.
pub struct WasmModule {
    #[allow(dead_code)]
    engine: Engine,
    store: Store<()>,
    instance: Instance,
    execution_flow: ExecutionFlow,
}

impl WasmModule {
    /// The instance lives in the module's own store, and the scheduler has
    /// the number of workers that every module's scheduler has.
    pub closed spec fn wf(&self) -> bool {
        &&& instance_store(self.instance) == store_id(self.store)
        &&& self.execution_flow.workers() == MODULE_WORKERS
    }

    /// Whether the module exports a function under the name.
    pub closed spec fn exports_function(&self, name: Seq<char>) -> bool {
        exported_func(self.instance, name) is Some
    }

    /// Whether the module exports a function under the name that takes two
    /// 32-bit integers and returns one.
    pub closed spec fn callable(&self, name: Seq<char>) -> bool {
        exported_func(self.instance, name) matches Some(func) && has_binary_signature(func)
    }

    /// The current contents of the module's linear memory, or `None` where
    /// the module exports none.
    pub closed spec fn memory(&self) -> Option<Seq<u8>> {
        match exported_memory(self.instance, memory_export()) {
            Some(memory) => Some(memory_bytes(self.store, memory)),
            None => None,
        }
    }

    /// The tasks that the module's scheduler holds.
    pub closed spec fn queued(&self) -> Seq<(u8, Seq<char>)> {
        self.execution_flow@
    }

    /// Compiles the binary and instantiates it, without imports, in a
    /// sandbox of its own. Whether the binary is acceptable is the engine's
    /// decision; where it is not, or the instantiation fails, the error is a
    /// `LoadFailure` and nothing of the attempt is kept.
    ///
    /// Every module has an engine and a store to itself, so a process may
    /// hold many of them, one for each worker. The engine is therefore set
    /// up to take little address space for a linear memory, and to move the
    /// memory when it grows beyond that.
    pub fn new(wasm_bytes: &[u8]) -> (result: Result<Self, WasmError>)
        ensures
            match result {
                Ok(module) => module.wf() && module.queued().len() == 0,
                Err(e) => e.kind == ErrorKind::LoadFailure,
            },
    {
        let engine = match or_failure(
            new_engine(MEMORY_RESERVATION, MEMORY_GUARD, MEMORY_GROWTH),
            ErrorKind::LoadFailure,
        ) {
            Ok(engine) => engine,
            Err(e) => {
                return Err(e);
            },
        };
        let module = match or_failure(compile(&engine, wasm_bytes), ErrorKind::LoadFailure) {
            Ok(module) => module,
            Err(e) => {
                return Err(e);
            },
        };
        let mut store = match or_failure(new_store(&engine), ErrorKind::LoadFailure) {
            Ok(store) => store,
            Err(e) => {
                return Err(e);
            },
        };
        let instance = match or_failure(instantiate(&mut store, &module), ErrorKind::LoadFailure) {
            Ok(instance) => instance,
            Err(e) => {
                return Err(e);
            },
        };
        let execution_flow = ExecutionFlow::new(MODULE_WORKERS);
        Ok(WasmModule { engine, store, instance, execution_flow })
    }

    /// Calls the exported function of the given name with two integers and
    /// returns the integer that it yields.
    ///
    /// The call fails with `NotFound` where the module exports no function
    /// of that name, and with `TypeMismatch` where it exports one of another
    /// signature. Otherwise the function runs in the sandbox: what it yields
    /// is the guest's doing, and a trap comes back as `TrapError`. The call
    /// may change the contents of the linear memory; the module stays usable
    /// whatever the outcome.
    pub fn invoke_function(&mut self, func_name: &str, args: (i32, i32)) -> (result: Result<
        i32,
        WasmError,
    >)
        requires
            old(self).wf(),
        ensures
            final(self).wf(),
            final(self).queued() == old(self).queued(),
            forall|name: Seq<char>|
                final(self).exports_function(name) == old(self).exports_function(name),
            forall|name: Seq<char>| final(self).callable(name) == old(self).callable(name),
            final(self).memory() is Some <==> old(self).memory() is Some,
            !old(self).exports_function(func_name@) ==> (result matches Err(e) && e.kind
                == ErrorKind::NotFound && e.message@ == not_found_message(func_name@)),
            old(self).exports_function(func_name@) && !old(self).callable(func_name@) ==> (
            result matches Err(e) && e.kind == ErrorKind::TypeMismatch),
            old(self).callable(func_name@) ==> (result matches Err(e) ==> e.kind
                == ErrorKind::TrapError),
    {
        let found = lookup_func(&self.instance, &mut self.store, func_name);
        let func = match or_not_found(found, func_name) {
            Ok(func) => func,
            Err(e) => {
                return Err(e);
            },
        };
        let typed = match or_failure(
            check_signature(&func, &self.store),
            ErrorKind::TypeMismatch,
        ) {
            Ok(typed) => typed,
            Err(e) => {
                return Err(e);
            },
        };
        or_failure(run(&typed, &mut self.store, args), ErrorKind::TrapError)
    }

    /// Copies `len` bytes at `offset` out of the module's linear memory.
    ///
    /// The read fails with `NoMemory` where the module exports no memory,
    /// and with `OutOfBounds` where the range does not lie within the
    /// memory's current size; it then copies nothing. The memory is left as
    /// it was.
    pub fn read_memory(&mut self, offset: usize, len: usize) -> (result: Result<Vec<u8>, WasmError>)
        requires
            old(self).wf(),
        ensures
            final(self).wf(),
            final(self).queued() == old(self).queued(),
            forall|name: Seq<char>|
                final(self).exports_function(name) == old(self).exports_function(name),
            forall|name: Seq<char>| final(self).callable(name) == old(self).callable(name),
            final(self).memory() == old(self).memory(),
            match old(self).memory() {
                Some(data) => match range_of(data, offset as int, len as int) {
                    Some(range) => result matches Ok(bytes) && bytes@ == range,
                    None => result matches Err(e) && e.kind == ErrorKind::OutOfBounds && e.message@
                        == "Memory access out of bounds"@,
                },
                None => result matches Err(e) && e.kind == ErrorKind::NoMemory && e.message@
                    == "Memory not found"@,
            },
    {
        let memory = match lookup_memory(&self.instance, &mut self.store, "memory") {
            Some(memory) => memory,
            None => {
                return Err(
                    WasmError {
                        kind: ErrorKind::NoMemory,
                        message: String::from_str("Memory not found"),
                    },
                );
            },
        };
        let data = memory_data(&memory, &self.store);
        read_range(data, offset, len)
    }

    /// Runs one dispatch round of the module's scheduler and returns the
    /// tasks in the order in which they were taken. A round over an empty
    /// queue takes nothing.
    pub fn manage_execution_flow(&mut self) -> (processed: Vec<(u8, String)>)
        requires
            old(self).wf(),
        ensures
            final(self).wf(),
            tasks_view(processed@) == old(self).queued(),
            final(self).queued().len() == 0,
            forall|name: Seq<char>|
                final(self).exports_function(name) == old(self).exports_function(name),
            forall|name: Seq<char>| final(self).callable(name) == old(self).callable(name),
            final(self).memory() == old(self).memory(),
    {
        self.execution_flow.manage_flow()
    }
}

/// Loads a module from its binary form: see `WasmModule::new`.
pub fn load_wasm_module(wasm_bytes: &[u8]) -> (result: Result<WasmModule, WasmError>)
    ensures
        match result {
            Ok(module) => module.wf() && module.queued().len() == 0,
            Err(e) => e.kind == ErrorKind::LoadFailure,
        },
{
    WasmModule::new(wasm_bytes)
}

} // verus!
