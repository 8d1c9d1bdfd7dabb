//! Where the bytes of a module come from, and how they become a module.

use crate::error::{failure_at, load_failure, LoadError, LoadFailure, LoadStage};
use crate::runtime::{accepted, compile, error_text};
use vstd::prelude::*;
use wasmtime::{Engine, Module};

verus! {

/// One of the four origins of a module.
pub enum PluginSource<'a> {
    /// The path of a file that holds a module.
    FromWasmFile(&'a str),
    /// A module in memory.
    FromWasmBuffer(&'a [u8]),
    /// The path of a file that holds source text.
    FromRocSourceFile(&'a str),
    /// Source text in memory.
    FromRocSourceBuffer(&'a [u8]),
}

/// What is said of source text: this library holds no compiler for it.
pub open spec fn no_compiler() -> Seq<char> {
    "no compiler for source text is available"@
}

/// What stands for a source that has no path.
pub open spec fn in_memory() -> Seq<char> {
    "in-memory buffer"@
}

impl<'a> PluginSource<'a> {
    /// The file that has to be read before the source can be resolved.
    pub open spec fn spec_file_to_read(self) -> Option<Seq<char>> {
        match self {
            PluginSource::FromWasmFile(path) => Some(path@),
            _ => None,
        }
    }

    /// The name by which a report identifies the source: its path, or
    /// `in-memory buffer`.
    pub open spec fn spec_origin(self) -> Seq<char> {
        match self {
            PluginSource::FromWasmFile(path) => path@,
            PluginSource::FromRocSourceFile(path) => path@,
            _ => in_memory(),
        }
    }

    /// The bytes to compile, given the contents of the file to read: `None`
    /// where it could not be read. Source text is refused, since there is
    /// no compiler for it.
    pub open spec fn spec_module_bytes(self, file: Option<Seq<u8>>) -> Result<
        Seq<u8>,
        LoadFailure,
    > {
        match self {
            PluginSource::FromWasmFile(path) => match file {
                Some(bytes) => Ok(bytes),
                None => Err(LoadFailure::Io { path: path@ }),
            },
            PluginSource::FromWasmBuffer(bytes) => Ok(bytes@),
            _ => Err(LoadFailure::Compile { detail: no_compiler() }),
        }
    }

    /// The file that has to be read before the source can be resolved.
    pub fn file_to_read(&self) -> (path: Option<&'a str>)
        ensures
            path is Some == self.spec_file_to_read() is Some,
            path matches Some(p) ==> self.spec_file_to_read() == Some(p@),
    {
        match self {
            PluginSource::FromWasmFile(path) => Some(*path),
            _ => None,
        }
    }

    /// The name by which a report identifies the source.
    pub fn origin(&self) -> (name: &'a str)
        ensures
            name@ == self.spec_origin(),
    {
        match self {
            PluginSource::FromWasmFile(path) => *path,
            PluginSource::FromRocSourceFile(path) => *path,
            _ => "in-memory buffer",
        }
    }

    /// The bytes to compile. `file` holds the contents of the file to read,
    /// or `None` where it could not be read or there is none.
    pub fn module_bytes(&self, file: Option<&'a [u8]>) -> (r: Result<&'a [u8], LoadError>)
        ensures
            r matches Ok(bytes) ==> self.spec_module_bytes(option_view(file)) == Ok::<
                Seq<u8>,
                LoadFailure,
            >(bytes@),
            r matches Err(error) ==> self.spec_module_bytes(option_view(file)) == Err::<
                Seq<u8>,
                LoadFailure,
            >(error@),
    {
        match self {
            PluginSource::FromWasmFile(path) => match file {
                Some(bytes) => Ok(bytes),
                None => Err(LoadError::Io { path: String::from_str(*path) }),
            },
            PluginSource::FromWasmBuffer(bytes) => Ok(*bytes),
            _ => Err(
                LoadError::Compile {
                    detail: String::from_str("no compiler for source text is available"),
                },
            ),
        }
    }

    /// Resolves the source into a compiled module. Where there are no bytes
    /// to compile the error says why; where the runtime refuses the bytes
    /// the error is a validation error with the runtime's words.
    pub fn load_module(&self, engine: &Engine, file: Option<&'a [u8]>) -> (r: Result<
        Module,
        LoadError,
    >)
        ensures
            self.spec_module_bytes(option_view(file)) matches Err(failure) ==> r matches Err(error)
                && error@ == failure,
            self.spec_module_bytes(option_view(file)) matches Ok(bytes) ==> (r is Ok == accepted(
                *engine,
                bytes,
            )) && (r matches Err(error) ==> error@ is Validation),
    {
        let bytes = match self.module_bytes(file) {
            Ok(bytes) => bytes,
            Err(error) => {
                return Err(error);
            },
        };
        compile_module(engine, bytes)
    }
}

/// The contents of a file as plain values.
pub open spec fn option_view(file: Option<&[u8]>) -> Option<Seq<u8>> {
    match file {
        Some(bytes) => Some(bytes@),
        None => None,
    }
}

/// Compiles `bytes`, a module as binary or as text. It succeeds where the
/// engine accepts them; where it refuses them the error is a validation
/// error with the runtime's words.
pub fn compile_module(engine: &Engine, bytes: &[u8]) -> (r: Result<Module, LoadError>)
    ensures
        r is Ok == accepted(*engine, bytes@),
        r matches Err(error) ==> error@ is Validation,
{
    match compile(engine, bytes) {
        Ok(module) => compiled(Ok(module)),
        Err(e) => compiled(Err(error_text(&e))),
    }
}

/// What compiling comes to, given the runtime's answer: the module that it
/// made, or a validation error that holds the words of its refusal.
pub fn compiled(outcome: Result<Module, String>) -> (r: Result<Module, LoadError>)
    ensures
        outcome matches Ok(module) ==> r == Ok::<Module, LoadError>(module),
        outcome matches Err(detail) ==> r matches Err(error) && error@ == failure_at(
            LoadStage::Compile,
            detail@,
        ),
{
    match outcome {
        Ok(module) => Ok(module),
        Err(detail) => Err(load_failure(LoadStage::Compile, detail)),
    }
}

} // verus!
