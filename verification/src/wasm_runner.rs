//! The execution context: one store, one instance, its memory and its entry
//! point, and the address that the last run produced.

use crate::error::{load_failure, LoadError, LoadFailure, LoadStage, RequiredExport, RunError};
use crate::host::HostState;
use crate::memory::{
    address_after_run, address_of, address_or_zero, copy_prefix, reported_address, snapshot,
};
use crate::error::failure_at;
use crate::runtime::{
    accepted, bind_panic_reporter, call_entry, default_engine, entry_export, entry_store,
    error_text, host_data, instance_store, instantiate, memory_bytes, memory_data,
    memory_export, memory_store, new_store, store_data, store_id,
};
use crate::source::compile_module;
use vstd::prelude::*;
use wasmtime::{Engine, Instance, Memory, Store, TypedFunc};

verus! {

/// Whether `failure` can come out of creating an execution context: the
/// module was refused as malformed, the runtime refused to instantiate it
/// with the one function offered, or the instance lacks the memory or the
/// entry point.
pub open spec fn context_failure(failure: LoadFailure) -> bool {
    ||| failure is Validation
    ||| failure is ImportMismatch
    ||| failure == (LoadFailure::MissingExport { export: RequiredExport::Memory })
    ||| failure == (LoadFailure::MissingExport { export: RequiredExport::Wrapper })
}

/// Whether `r` is the refusal of bytes that are no well-formed module.
pub open spec fn refused_as_malformed(r: Result<WasmtimeApp, LoadError>) -> bool {
    r matches Err(error) && error@ is Validation
}

/// A running guest. `result_addr` is `None` until a run succeeds and again
/// after one that fails.
pub struct WasmtimeApp {
    store: Store<HostState>,
    instance: Instance,
    memory: Memory,
    wrapper_func: TypedFunc<(), i32>,
    result_addr: Option<usize>,
}

impl WasmtimeApp {
    /// The instance, the memory and the entry point belong to the store.
    /// Every value that `new` returns has this, and every method keeps it.
    pub closed spec fn wf(self) -> bool {
        &&& instance_store(self.instance) == store_id(self.store)
        &&& memory_store(self.memory) == store_id(self.store)
        &&& entry_store(self.wrapper_func) == store_id(self.store)
    }

    /// The address that the last run recorded.
    pub closed spec fn recorded(self) -> Option<usize> {
        self.result_addr
    }

    /// The guest's linear memory as it is now.
    pub closed spec fn live_memory(self) -> Seq<u8> {
        memory_bytes(self.store, self.memory)
    }

    /// The host data as it is now.
    pub closed spec fn host(self) -> HostState {
        host_data(self.store)
    }

    /// Creates a context on an engine with the default configuration, as
    /// `with_engine` does on a given one.
    pub fn new(wasm_module_bytes: &[u8]) -> (r: Result<WasmtimeApp, LoadError>)
        ensures
            r matches Ok(app) ==> app.wf() && app.recorded() is None,
            r matches Err(error) ==> context_failure(error@),
            exists|engine: Engine| refused_as_malformed(r) == !accepted(engine, wasm_module_bytes@),
    {
        let engine = default_engine();
        let r = WasmtimeApp::with_engine(&engine, wasm_module_bytes);
        assert(refused_as_malformed(r) == !accepted(engine, wasm_module_bytes@));
        r
    }

    /// Compiles `wasm_module_bytes` on `engine`, binds the crash reporter as
    /// the module's one import, instantiates, and looks up the memory
    /// `memory` and then the entry point `wrapper`. The first step that the
    /// runtime refuses gives the error; no context is produced then. A new
    /// context has no recorded address.
    pub fn with_engine(engine: &Engine, wasm_module_bytes: &[u8]) -> (r: Result<
        WasmtimeApp,
        LoadError,
    >)
        ensures
            r matches Ok(app) ==> app.wf() && app.recorded() is None,
            r matches Err(error) ==> context_failure(error@),
            refused_as_malformed(r) == !accepted(*engine, wasm_module_bytes@),
    {
        let module = match compile_module(engine, wasm_module_bytes) {
            Ok(module) => module,
            Err(error) => {
                return Err(error);
            },
        };
        let mut store = new_store(engine, HostState::new(String::new()));
        let reporter = bind_panic_reporter(&mut store);
        let outcome = match instantiate(&mut store, &module, reporter) {
            Ok(instance) => Ok(instance),
            Err(e) => Err(error_text(&e)),
        };
        let instance = match instantiated(outcome) {
            Ok(instance) => instance,
            Err(error) => {
                return Err(error);
            },
        };
        let found = memory_export(&instance, &mut store, RequiredExport::Memory.name());
        let memory = match found_memory(found) {
            Ok(memory) => memory,
            Err(error) => {
                return Err(error);
            },
        };
        let found = match entry_export(&instance, &mut store, RequiredExport::Wrapper.name()) {
            Ok(entry) => Ok(entry),
            Err(e) => Err(error_text(&e)),
        };
        let wrapper_func = match found_entry(found) {
            Ok(entry) => entry,
            Err(error) => {
                return Err(error);
            },
        };
        Ok(WasmtimeApp { store, instance, memory, wrapper_func, result_addr: None })
    }

    /// Calls the entry point. On success the guest's result, read as an
    /// unsigned address, is recorded and returned. On a trap the recorded
    /// address is cleared and the trap is returned.
    pub fn run(&mut self) -> (r: Result<usize, RunError>)
        requires
            old(self).wf(),
        ensures
            final(self).wf(),
            r matches Ok(address) ==> final(self).recorded() == Some(address) && address
                <= u32::MAX,
            r is Err ==> final(self).recorded() is None,
    {
        let outcome = call_entry(&self.wrapper_func, &mut self.store);
        self.result_addr = address_after_run(&outcome);
        match outcome {
            Ok(value) => Ok(address_of(value)),
            Err(e) => Err(RunError::Trap { detail: error_text(&e) }),
        }
    }

    /// Runs the guest and returns the recorded address, or `0` where the run
    /// failed: a failed run is no error of the host.
    pub fn wasmtime_run_app(&mut self) -> (address: usize)
        requires
            old(self).wf(),
        ensures
            final(self).wf(),
            address == reported_address(final(self).recorded()),
            address <= u32::MAX,
    {
        match self.run() {
            Ok(address) => address,
            Err(_) => 0,
        }
    }

    /// Copies the start of the guest's memory, as it is now, into `buffer`
    /// and returns the recorded address, or `0` where there is none. Guest
    /// memory, host data and the recorded address stay as they are.
    pub fn wasmtime_get_result_and_memory(&mut self, buffer: &mut [u8]) -> (address: usize)
        requires
            old(self).wf(),
        ensures
            final(self).wf(),
            address == reported_address(old(self).recorded()),
            final(buffer)@ == snapshot(old(buffer)@, old(self).live_memory()),
            final(self).recorded() == old(self).recorded(),
            final(self).live_memory() == old(self).live_memory(),
            final(self).host() == old(self).host(),
    {
        let data = memory_data(&self.memory, &self.store);
        let _ = copy_prefix(buffer, data);
        address_or_zero(self.result_addr)
    }

    /// The recorded address.
    pub fn result_addr(&self) -> (recorded: Option<usize>)
        ensures
            recorded == self.recorded(),
    {
        self.result_addr
    }

    /// The size of the guest's memory in bytes, as it is now.
    pub fn memory_size(&self) -> (size: usize)
        requires
            self.wf(),
        ensures
            size == self.live_memory().len(),
    {
        memory_data(&self.memory, &self.store).len()
    }

    /// The host data, with the crash reports the guest has made.
    pub fn host_state(&self) -> (state: &HostState)
        ensures
            *state == self.host(),
    {
        store_data(&self.store)
    }
}

/// Creates an execution context as `WasmtimeApp::new` does.
pub fn wasmtime_create_app(wasm_module_bytes: &[u8]) -> (r: Result<WasmtimeApp, LoadError>)
    ensures
        r matches Ok(app) ==> app.wf() && app.recorded() is None,
        r matches Err(error) ==> context_failure(error@),
        exists|engine: Engine| refused_as_malformed(r) == !accepted(engine, wasm_module_bytes@),
{
    WasmtimeApp::new(wasm_module_bytes)
}

/// What instantiating comes to, given the runtime's answer: the instance
/// that it made, or an import mismatch that holds the words of its refusal.
pub fn instantiated(outcome: Result<Instance, String>) -> (r: Result<Instance, LoadError>)
    ensures
        outcome matches Ok(instance) ==> r == Ok::<Instance, LoadError>(instance),
        outcome matches Err(detail) ==> r matches Err(error) && error@ == failure_at(
            LoadStage::Instantiate,
            detail@,
        ),
{
    match outcome {
        Ok(instance) => Ok(instance),
        Err(detail) => Err(load_failure(LoadStage::Instantiate, detail)),
    }
}

/// What the lookup of the memory comes to: the memory that was found, or
/// the error that names `memory` as missing.
pub fn found_memory(found: Option<Memory>) -> (r: Result<Memory, LoadError>)
    ensures
        found matches Some(memory) ==> r == Ok::<Memory, LoadError>(memory),
        found is None ==> (r matches Err(error) && error@ == (LoadFailure::MissingExport {
            export: RequiredExport::Memory,
        })),
{
    match found {
        Some(memory) => Ok(memory),
        None => Err(load_failure(LoadStage::Export(RequiredExport::Memory), String::new())),
    }
}

/// What the lookup of the entry point comes to: the function that was found
/// with no arguments and one 32-bit result, or the error that names
/// `wrapper` as missing, whatever the runtime said of the lookup.
pub fn found_entry(found: Result<TypedFunc<(), i32>, String>) -> (r: Result<
    TypedFunc<(), i32>,
    LoadError,
>)
    ensures
        found matches Ok(entry) ==> r == Ok::<TypedFunc<(), i32>, LoadError>(entry),
        found is Err ==> (r matches Err(error) && error@ == (LoadFailure::MissingExport {
            export: RequiredExport::Wrapper,
        })),
{
    match found {
        Ok(entry) => Ok(entry),
        Err(detail) => Err(load_failure(LoadStage::Export(RequiredExport::Wrapper), detail)),
    }
}

} // verus!
