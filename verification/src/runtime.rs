//! The boundary to the WebAssembly engine.
//!
//! Everything in this file is believed, not proved: the engine's types are
//! opaque to the verifier, and each function below calls into the engine
//! and states what that call is known to do.
//!
//! The engine hands out handles (instances, functions, memories) that are
//! only valid with the store that made them, and panics when one is used
//! with another store. Every handle records its store, so the contracts
//! below speak of a store's identity and of the identity recorded in a
//! handle, and ask that the two agree wherever the engine would panic
//! otherwise.

use vstd::prelude::*;
use wasmtime::{Config, Engine, Error, Func, Instance, Memory, Module, Store, TypedFunc};

verus! {

#[verifier::external_type_specification]
#[verifier::external_body]
pub struct ExEngine(Engine);

#[verifier::external_type_specification]
#[verifier::external_body]
pub struct ExModule(Module);

#[verifier::external_type_specification]
#[verifier::external_body]
#[verifier::reject_recursive_types(T)]
pub struct ExStore<T: 'static>(Store<T>);

#[verifier::external_type_specification]
#[verifier::external_body]
pub struct ExInstance(Instance);

#[verifier::external_type_specification]
#[verifier::external_body]
pub struct ExFunc(Func);

#[verifier::external_type_specification]
#[verifier::external_body]
#[verifier::reject_recursive_types(Params)]
#[verifier::reject_recursive_types(Results)]
pub struct ExTypedFunc<Params, Results>(TypedFunc<Params, Results>);

#[verifier::external_type_specification]
#[verifier::external_body]
pub struct ExMemory(Memory);

#[verifier::external_type_specification]
#[verifier::external_body]
pub struct ExError(Error);

/// The identity of a store. It is given at creation and never changes.
pub uninterp spec fn store_id(store: Store<()>) -> int;

/// The identity of the store that an instance lives in.
pub uninterp spec fn instance_store(instance: Instance) -> int;

/// The identity of the store that a function belongs to.
pub uninterp spec fn func_store(func: Func) -> int;

/// The identity of the store that a type-checked function belongs to.
pub uninterp spec fn call_store(typed: TypedFunc<(i32, i32), i32>) -> int;

/// The identity of the store that a linear memory belongs to.
pub uninterp spec fn memory_store(memory: Memory) -> int;

/// The function that an instance exports under a name, if it exports one.
/// An instance's exports are fixed when it is made.
pub uninterp spec fn exported_func(instance: Instance, name: Seq<char>) -> Option<Func>;

/// The linear memory that an instance exports under a name, if it exports
/// one. An instance's exports are fixed when it is made.
pub uninterp spec fn exported_memory(instance: Instance, name: Seq<char>) -> Option<Memory>;

/// Whether a function takes two 32-bit integers and returns one: the
/// signature that the engine's type check asks for. A function's signature
/// never changes.
pub uninterp spec fn has_binary_signature(func: Func) -> bool;

/// The current contents of a linear memory, from its first byte to its last.
pub uninterp spec fn memory_bytes(store: Store<()>, memory: Memory) -> Seq<u8>;

/// The text that an engine error displays.
pub uninterp spec fn error_text(error: Error) -> Seq<char>;

/// `Engine::new` on a configuration made by `Config::new` and changed by
/// `Config::memory_reservation`, `Config::memory_guard_size` and
/// `Config::memory_reservation_for_growth`, each with the number of bytes
/// given: an engine whose linear memories take up that much address space.
/// Nothing is claimed of the outcome.
#[verifier::external_body]
pub(crate) fn new_engine(reservation: u64, guard: u64, growth: u64) -> Result<Engine, Error> {
    let mut config = Config::new();
    config.memory_reservation(reservation);
    config.memory_guard_size(guard);
    config.memory_reservation_for_growth(growth);
    Engine::new(&config)
}

/// `Store::try_new` with no host data: a fresh store for the engine, or an
/// error where the engine cannot allocate one. Nothing is claimed of the
/// outcome.
#[verifier::external_body]
pub(crate) fn new_store(engine: &Engine) -> Result<Store<()>, Error> {
    Store::try_new(engine, ())
}

/// `Module::from_binary`: validates and compiles a binary module. The engine
/// decides whether the bytes are acceptable; nothing is claimed of the
/// outcome.
#[verifier::external_body]
pub(crate) fn compile(engine: &Engine, binary: &[u8]) -> Result<Module, Error> {
    Module::from_binary(engine, binary)
}

/// `Instance::new` with no imports: instantiates the module in the store
/// and runs its start function, if it has one; the call comes back when that
/// function returns or traps. Whether it succeeds is the engine's decision.
/// The store keeps its identity, and an instance that comes back lives in
/// it.
#[verifier::external_body]
pub(crate) fn instantiate(store: &mut Store<()>, module: &Module) -> (outcome: Result<
    Instance,
    Error,
>)
    ensures
        store_id(*final(store)) == store_id(*old(store)),
        outcome matches Ok(instance) ==> instance_store(instance) == store_id(*old(store)),
{
    Instance::new(store, module, &[])
}

/// `Instance::get_func`: the function exported under `name`, or `None` where
/// there is no such export or it is not a function. The engine panics if the
/// instance is not the store's. A function that comes back belongs to the
/// store, which keeps its identity.
#[verifier::external_body]
pub(crate) fn lookup_func(instance: &Instance, store: &mut Store<()>, name: &str) -> (found:
    Option<Func>)
    requires
        instance_store(*instance) == store_id(*old(store)),
    ensures
        found == exported_func(*instance, name@),
        found matches Some(func) ==> func_store(func) == store_id(*old(store)),
        store_id(*final(store)) == store_id(*old(store)),
{
    instance.get_func(store, name)
}

/// `Instance::get_memory`: the linear memory exported under `name`, or `None`
/// where there is no such export or it is not a memory. The engine panics if
/// the instance is not the store's. A memory that comes back belongs to the
/// store, which keeps its identity; the lookup leaves the memory's contents
/// as they were.
#[verifier::external_body]
pub(crate) fn lookup_memory(instance: &Instance, store: &mut Store<()>, name: &str) -> (found:
    Option<Memory>)
    requires
        instance_store(*instance) == store_id(*old(store)),
    ensures
        found == exported_memory(*instance, name@),
        found matches Some(memory) ==> memory_store(memory) == store_id(*old(store))
            && memory_bytes(*final(store), memory) == memory_bytes(*old(store), memory),
        store_id(*final(store)) == store_id(*old(store)),
{
    instance.get_memory(store, name)
}

/// `Func::typed` for two 32-bit integers in and one out: checks the
/// function's signature against that shape, and fails exactly where the
/// signature is another. The engine panics if the function is not the
/// store's. A type-checked function that comes back belongs to the same
/// store.
#[verifier::external_body]
pub(crate) fn check_signature(func: &Func, store: &Store<()>) -> (outcome: Result<
    TypedFunc<(i32, i32), i32>,
    Error,
>)
    requires
        func_store(*func) == store_id(*store),
    ensures
        outcome is Ok <==> has_binary_signature(*func),
        outcome matches Ok(typed) ==> call_store(typed) == store_id(*store),
{
    func.typed::<(i32, i32), i32>(store)
}

/// `TypedFunc::call`: runs the function in the sandbox. The engine panics if
/// the function is not the store's. The call comes back when the guest code
/// returns or traps; what it yields, and what the guest did to the store's
/// memories, is the guest's doing. The store keeps its identity.
#[verifier::external_body]
pub(crate) fn run(
    typed: &TypedFunc<(i32, i32), i32>,
    store: &mut Store<()>,
    args: (i32, i32),
) -> (outcome: Result<i32, Error>)
    requires
        call_store(*typed) == store_id(*old(store)),
    ensures
        store_id(*final(store)) == store_id(*old(store)),
{
    typed.call(store, args)
}

/// `Memory::data`: the memory's current contents as a slice. The engine
/// panics if the memory is not the store's.
#[verifier::external_body]
pub(crate) fn memory_data<'a>(memory: &Memory, store: &'a Store<()>) -> (data: &'a [u8])
    requires
        memory_store(*memory) == store_id(*store),
    ensures
        data@ == memory_bytes(*store, *memory),
{
    memory.data(store)
}

/// `to_string` on an engine error: the text that it displays.
#[verifier::external_body]
pub(crate) fn describe(error: &Error) -> (text: String)
    ensures
        text@ == error_text(*error),
{
    error.to_string()
}

} // verus!
