//! The calls into the WebAssembly runtime. Nothing in this file is proved:
//! each contract states what the runtime's source shows of the call.

use crate::host::HostState;
use vstd::prelude::*;
use wasmtime::{Caller, Engine, Extern, Func, Instance, Memory, Module, Store, TypedFunc};

verus! {

#[verifier::external_type_specification]
#[verifier::external_body]
pub struct ExEngine(Engine);

#[verifier::external_type_specification]
#[verifier::external_body]
pub struct ExModule(Module);

#[verifier::external_type_specification]
#[verifier::external_body]
pub struct ExInstance(Instance);

#[verifier::external_type_specification]
#[verifier::external_body]
pub struct ExMemory(Memory);

#[verifier::external_type_specification]
#[verifier::external_body]
pub struct ExFunc(Func);

#[verifier::external_type_specification]
#[verifier::external_body]
pub struct ExError(wasmtime::Error);

#[verifier::external_type_specification]
#[verifier::external_body]
#[verifier::reject_recursive_types(T)]
pub struct ExStore<T: 'static>(Store<T>);

#[verifier::external_type_specification]
#[verifier::external_body]
#[verifier::reject_recursive_types(Params)]
#[verifier::reject_recursive_types(Results)]
pub struct ExTypedFunc<Params, Results>(TypedFunc<Params, Results>);

/// The identity of a store. The runtime gives each store an id and keeps it
/// for the store's life.
pub uninterp spec fn store_id(store: Store<HostState>) -> int;

/// The id of the store that an instance belongs to, which the handle holds.
pub uninterp spec fn instance_store(instance: Instance) -> int;

/// The id of the store that a memory belongs to, which the handle holds.
pub uninterp spec fn memory_store(memory: Memory) -> int;

/// The id of the store that an entry point with a 32-bit result belongs to.
pub uninterp spec fn entry_store(entry: TypedFunc<(), i32>) -> int;

/// The id of the store that an entry point without a result belongs to.
pub uninterp spec fn start_store(start: TypedFunc<(), ()>) -> int;

/// The bytes of a linear memory as the store holds them now.
pub uninterp spec fn memory_bytes(store: Store<HostState>, memory: Memory) -> Seq<u8>;

/// The host data that a store holds now.
pub uninterp spec fn host_data(store: Store<HostState>) -> HostState;

/// `Engine::default`: an engine with the default configuration.
#[verifier::external_body]
pub(crate) fn default_engine() -> Engine {
    Engine::default()
}

/// Whether an engine, configured as it is, takes `bytes` as a module: they
/// decode as binary or parse as text, validate, and compile.
pub uninterp spec fn accepted(engine: Engine, bytes: Seq<u8>) -> bool;

/// `Module::new`: decodes, validates and compiles a module given as binary
/// or as text. Whether it does is a matter of the engine and the bytes
/// alone; nothing is claimed of which bytes those are.
#[verifier::external_body]
pub(crate) fn compile(engine: &Engine, bytes: &[u8]) -> (r: Result<Module, wasmtime::Error>)
    ensures
        r is Ok == accepted(*engine, bytes@),
{
    Module::new(engine, bytes)
}

/// `Store::new`: a store that holds `data`.
#[verifier::external_body]
pub(crate) fn new_store(engine: &Engine, data: HostState) -> (store: Store<HostState>)
    ensures
        host_data(store) == data,
{
    Store::new(engine, data)
}

/// `Store::data`: the host data of the store.
#[verifier::external_body]
pub(crate) fn store_data(store: &Store<HostState>) -> (data: &HostState)
    ensures
        *data == host_data(*store),
{
    store.data()
}

/// `Func::wrap` with the crash reporter: a host function of two 32-bit
/// arguments and no result that hands both to `HostState::report_panic`.
/// Making it leaves the store's id and host data as they are.
#[verifier::external_body]
pub(crate) fn bind_panic_reporter(store: &mut Store<HostState>) -> (reporter: Func)
    ensures
        store_id(*final(store)) == store_id(*old(store)),
        host_data(*final(store)) == host_data(*old(store)),
{
    Func::wrap(store, |mut caller: Caller<'_, HostState>, ptr: i32, tag: i32| {
        caller.data_mut().report_panic(ptr, tag)
    })
}

/// `Func::wrap` with the greeting: a host function without arguments or
/// result that calls `HostState::greet`. Making it leaves the store's id and
/// host data as they are.
#[verifier::external_body]
pub(crate) fn bind_greeter(store: &mut Store<HostState>) -> (greeter: Func)
    ensures
        store_id(*final(store)) == store_id(*old(store)),
        host_data(*final(store)) == host_data(*old(store)),
{
    Func::wrap(store, |mut caller: Caller<'_, HostState>| caller.data_mut().greet())
}

/// `Instance::new` with `import` as the only import offered. An instance
/// that comes back belongs to `store`. The module's start function may have
/// run, so nothing is claimed of memory or host data.
#[verifier::external_body]
pub(crate) fn instantiate(store: &mut Store<HostState>, module: &Module, import: Func) -> (r:
    Result<Instance, wasmtime::Error>)
    ensures
        store_id(*final(store)) == store_id(*old(store)),
        r matches Ok(instance) ==> instance_store(instance) == store_id(*final(store)),
{
    Instance::new(store, module, &[Extern::Func(import)])
}

/// `Instance::get_memory`: the memory exported under `name`, if there is
/// one. It panics where the store does not own the instance. A memory that
/// comes back belongs to `store`. No guest code runs.
#[verifier::external_body]
pub(crate) fn memory_export(instance: &Instance, store: &mut Store<HostState>, name: &str) -> (r:
    Option<Memory>)
    requires
        instance_store(*instance) == store_id(*old(store)),
    ensures
        store_id(*final(store)) == store_id(*old(store)),
        host_data(*final(store)) == host_data(*old(store)),
        r matches Some(memory) ==> memory_store(memory) == store_id(*final(store)),
{
    instance.get_memory(store, name)
}

/// `Instance::get_typed_func` for no arguments and one 32-bit result. It
/// panics where the store does not own the instance. A function that comes
/// back belongs to `store`. No guest code runs.
#[verifier::external_body]
pub(crate) fn entry_export(instance: &Instance, store: &mut Store<HostState>, name: &str) -> (r:
    Result<TypedFunc<(), i32>, wasmtime::Error>)
    requires
        instance_store(*instance) == store_id(*old(store)),
    ensures
        store_id(*final(store)) == store_id(*old(store)),
        host_data(*final(store)) == host_data(*old(store)),
        r matches Ok(entry) ==> entry_store(entry) == store_id(*final(store)),
{
    instance.get_typed_func::<(), i32>(store, name)
}

/// `Instance::get_typed_func` for no arguments and no result, as
/// `entry_export`.
#[verifier::external_body]
pub(crate) fn start_export(instance: &Instance, store: &mut Store<HostState>, name: &str) -> (r:
    Result<TypedFunc<(), ()>, wasmtime::Error>)
    requires
        instance_store(*instance) == store_id(*old(store)),
    ensures
        store_id(*final(store)) == store_id(*old(store)),
        host_data(*final(store)) == host_data(*old(store)),
        r matches Ok(start) ==> start_store(start) == store_id(*final(store)),
{
    instance.get_typed_func::<(), ()>(store, name)
}

/// `TypedFunc::call` on an entry point with a 32-bit result. It panics where
/// the store does not own the function, and returns when the guest returns
/// or traps. The guest may change memory and host data; the store's id
/// stays.
#[verifier::external_body]
pub(crate) fn call_entry(entry: &TypedFunc<(), i32>, store: &mut Store<HostState>) -> (r: Result<
    i32,
    wasmtime::Error,
>)
    requires
        entry_store(*entry) == store_id(*old(store)),
    ensures
        store_id(*final(store)) == store_id(*old(store)),
{
    entry.call(store, ())
}

/// `TypedFunc::call` on an entry point without a result, as `call_entry`.
#[verifier::external_body]
pub(crate) fn call_start(start: &TypedFunc<(), ()>, store: &mut Store<HostState>) -> (r: Result<
    (),
    wasmtime::Error,
>)
    requires
        start_store(*start) == store_id(*old(store)),
    ensures
        store_id(*final(store)) == store_id(*old(store)),
{
    start.call(store, ())
}

/// `Memory::data`: the memory's bytes as a slice. It panics where the store
/// does not own the memory.
#[verifier::external_body]
pub(crate) fn memory_data<'a>(memory: &Memory, store: &'a Store<HostState>) -> (data: &'a [u8])
    requires
        memory_store(*memory) == store_id(*store),
    ensures
        data@ == memory_bytes(*store, *memory),
{
    memory.data(store)
}

/// The runtime's words for an error, with the chain of causes.
#[verifier::external_body]
pub(crate) fn error_text(error: &wasmtime::Error) -> String {
    format!("{:#}", error)
}

} // verus!
