//! The example guest: it imports a greeting and exports `run`, which asks
//! for the greeting.

use crate::cli::texts;
use crate::error::{load_failure, LoadError, LoadFailure, LoadStage, RequiredExport, RunError};
use crate::host::HostState;
use crate::runtime::{
    accepted, bind_greeter, call_start, default_engine, error_text, instantiate, new_store,
    start_export, store_data,
};
use crate::source::{option_view, PluginSource};
use crate::wasm_runner::instantiated;
use vstd::prelude::*;
use wasmtime::{Engine, TypedFunc};

verus! {

/// How a run of the example guest went.
#[derive(Clone, PartialEq, Eq, Debug)]
pub struct ExampleRun {
    /// How often the guest asked for the greeting, before it returned or
    /// trapped.
    pub greetings: usize,
    /// The trap, where the guest did not return normally.
    pub failure: Option<RunError>,
}

/// Whether `failure` can come out of loading the example guest from a source
/// whose bytes are `bytes`.
pub open spec fn example_failure(bytes: Result<Seq<u8>, LoadFailure>, failure: LoadFailure) -> bool {
    match bytes {
        Err(refused) => failure == refused,
        Ok(_) => {
            ||| failure is Validation
            ||| failure is ImportMismatch
            ||| failure == (LoadFailure::MissingExport { export: RequiredExport::Run })
        },
    }
}

/// Whether `r` is the refusal of bytes that are no well-formed module.
pub open spec fn refused_as_malformed(r: Result<ExampleRun, LoadError>) -> bool {
    r matches Err(error) && error@ is Validation
}

/// What the lookup of `run` comes to: the function that was found with no
/// arguments and no result, or the error that names `run` as missing,
/// whatever the runtime said of the lookup.
pub fn found_start(found: Result<TypedFunc<(), ()>, String>) -> (r: Result<
    TypedFunc<(), ()>,
    LoadError,
>)
    ensures
        found matches Ok(start) ==> r == Ok::<TypedFunc<(), ()>, LoadError>(start),
        found is Err ==> (r matches Err(error) && error@ == (LoadFailure::MissingExport {
            export: RequiredExport::Run,
        })),
{
    match found {
        Ok(start) => Ok(start),
        Err(detail) => Err(load_failure(LoadStage::Export(RequiredExport::Run), detail)),
    }
}

/// What a started guest comes to: the greetings that the host counted, and
/// the trap with the runtime's words where the call did not return normally.
pub fn example_run(greetings: usize, outcome: Result<(), String>) -> (run: ExampleRun)
    ensures
        run.greetings == greetings,
        outcome is Ok ==> run.failure is None,
        outcome matches Err(words) ==> (run.failure matches Some(RunError::Trap { detail })
            && detail@ == words@),
{
    match outcome {
        Ok(()) => ExampleRun { greetings, failure: None },
        Err(detail) => ExampleRun { greetings, failure: Some(RunError::Trap { detail }) },
    }
}

/// Resolves `source`, binds the greeting over a state named `name` as the
/// module's one import, instantiates, and calls the export `run`. The first
/// step that fails to load gives the error; a guest that was started gives
/// the number of greetings it asked for, and its trap if it trapped.
pub fn run_default_example(source: &PluginSource, file: Option<&[u8]>, name: String) -> (r: Result<
    ExampleRun,
    LoadError,
>)
    ensures
        source.spec_module_bytes(option_view(file)) is Err ==> r is Err,
        r matches Err(error) ==> example_failure(
            source.spec_module_bytes(option_view(file)),
            error@,
        ),
        source.spec_module_bytes(option_view(file)) matches Ok(bytes) ==> exists|engine: Engine|
            refused_as_malformed(r) == !#[trigger] accepted(engine, bytes),
{
    let engine = default_engine();
    let ghost bytes = source.spec_module_bytes(option_view(file));
    let module = match source.load_module(&engine, file) {
        Ok(module) => module,
        Err(error) => {
            assert(bytes matches Ok(b) ==> refused_as_malformed(Err::<ExampleRun, LoadError>(error))
                == !accepted(engine, b));
            return Err(error);
        },
    };
    let mut store = new_store(&engine, HostState::new(name));
    let greeter = bind_greeter(&mut store);
    let outcome = match instantiate(&mut store, &module, greeter) {
        Ok(instance) => Ok(instance),
        Err(e) => Err(error_text(&e)),
    };
    let instance = match instantiated(outcome) {
        Ok(instance) => instance,
        Err(error) => {
            assert(bytes matches Ok(b) ==> refused_as_malformed(Err::<ExampleRun, LoadError>(error))
                == !accepted(engine, b));
            return Err(error);
        },
    };
    let found = match start_export(&instance, &mut store, RequiredExport::Run.name()) {
        Ok(start) => Ok(start),
        Err(e) => Err(error_text(&e)),
    };
    let start = match found_start(found) {
        Ok(start) => start,
        Err(error) => {
            assert(bytes matches Ok(b) ==> refused_as_malformed(Err::<ExampleRun, LoadError>(error))
                == !accepted(engine, b));
            return Err(error);
        },
    };
    let outcome = match call_start(&start, &mut store) {
        Ok(()) => Ok(()),
        Err(e) => Err(error_text(&e)),
    };
    let run = example_run(store_data(&store).count(), outcome);
    assert(bytes matches Ok(b) ==> refused_as_malformed(Ok::<ExampleRun, LoadError>(run))
        == !accepted(engine, b));
    Ok(run)
}

/// The lines that tell how far the example has come, in order: one before
/// each step.
pub open spec fn progress() -> Seq<Seq<char>> {
    seq![
        "Compiling module..."@,
        "Initializing..."@,
        "Creating callback..."@,
        "Instantiating module..."@,
        "Extracting export..."@,
        "Calling export..."@,
    ]
}

/// How many lines of progress were due before `failure` came: one where
/// the module could not be had, four where it could not be instantiated,
/// five where the export was not found.
pub open spec fn steps_before(failure: LoadFailure) -> int {
    match failure {
        LoadFailure::ImportMismatch { .. } => 4,
        LoadFailure::MissingExport { .. } => 5,
        _ => 1,
    }
}

/// The two lines of each greeting, for `count` greetings over `name`.
pub open spec fn greeting_lines(name: Seq<char>, count: nat) -> Seq<Seq<char>>
    decreases count,
{
    if count == 0 {
        Seq::empty()
    } else {
        greeting_lines(name, (count - 1) as nat).push("Calling back..."@).push("> "@ + name)
    }
}

/// What the example prints for `result`: the progress up to the step that
/// failed, or all of it, then the greetings, then `Done.` unless the guest
/// trapped.
pub open spec fn transcript_of(name: Seq<char>, result: Result<ExampleRun, LoadError>) -> Seq<
    Seq<char>,
> {
    match result {
        Err(error) => progress().take(steps_before(error@)),
        Ok(run) => progress() + greeting_lines(name, run.greetings as nat) + (if run.failure
            is None {
            seq!["Done."@]
        } else {
            Seq::empty()
        }),
    }
}

/// How many lines of progress are due for `result`.
fn steps(result: &Result<ExampleRun, LoadError>) -> (n: usize)
    ensures
        result matches Err(error) ==> n == steps_before(error@),
        result is Ok ==> n == 6,
{
    match result {
        Ok(_) => 6,
        Err(LoadError::ImportMismatch { .. }) => 4,
        Err(LoadError::MissingExport { .. }) => 5,
        Err(_) => 1,
    }
}

/// The lines that the example prints for `result`, in order.
pub fn transcript(name: &str, result: &Result<ExampleRun, LoadError>) -> (lines: Vec<String>)
    ensures
        texts(lines@) == transcript_of(name@, *result),
{
    let shown = steps(result);
    let mut lines: Vec<String> = Vec::new();
    lines.push(String::from_str("Compiling module..."));
    if shown >= 4 {
        lines.push(String::from_str("Initializing..."));
        lines.push(String::from_str("Creating callback..."));
        lines.push(String::from_str("Instantiating module..."));
    }
    if shown >= 5 {
        lines.push(String::from_str("Extracting export..."));
    }
    if shown >= 6 {
        lines.push(String::from_str("Calling export..."));
    }
    assert(texts(lines@) =~= progress().take(shown as int));
    match result {
        Err(_) => {},
        Ok(run) => {
            assert(texts(lines@) =~= progress() + greeting_lines(name@, 0));
            let mut i: usize = 0;
            while i < run.greetings
                invariant
                    i <= run.greetings,
                    texts(lines@) == progress() + greeting_lines(name@, i as nat),
                decreases run.greetings - i,
            {
                let ghost before = texts(lines@);
                lines.push(String::from_str("Calling back..."));
                let mut line = String::from_str("> ");
                line.append(name);
                lines.push(line);
                i = i + 1;
                assert(texts(lines@) =~= before.push("Calling back..."@).push("> "@ + name@));
                assert(greeting_lines(name@, i as nat) == greeting_lines(
                    name@,
                    (i - 1) as nat,
                ).push("Calling back..."@).push("> "@ + name@));
                assert(texts(lines@) =~= progress() + greeting_lines(name@, i as nat));
            }
            if run.failure.is_none() {
                lines.push(String::from_str("Done."));
            }
            assert(texts(lines@) =~= transcript_of(name@, *result));
        },
    }
    lines
}

} // verus!
