//! What can go wrong while a module is loaded or run.

use vstd::prelude::*;

verus! {

/// An export that a guest has to offer.
#[derive(Clone, Copy, PartialEq, Eq, Debug, Structural)]
pub enum RequiredExport {
    /// The linear memory, exported as `memory`.
    Memory,
    /// The entry point, exported as `wrapper`: no arguments, one 32-bit result.
    Wrapper,
    /// The entry point of the example guest, exported as `run`: no arguments,
    /// no result.
    Run,
}

impl RequiredExport {
    /// The name under which the guest exports it.
    pub open spec fn spec_name(self) -> Seq<char> {
        match self {
            RequiredExport::Memory => "memory"@,
            RequiredExport::Wrapper => "wrapper"@,
            RequiredExport::Run => "run"@,
        }
    }

    /// The name under which the guest exports it.
    pub fn name(&self) -> (name: &'static str)
        ensures
            name@ == self.spec_name(),
    {
        match self {
            RequiredExport::Memory => "memory",
            RequiredExport::Wrapper => "wrapper",
            RequiredExport::Run => "run",
        }
    }
}

/// The step of loading at which the runtime refused a module.
#[derive(Clone, Copy, PartialEq, Eq, Debug, Structural)]
pub enum LoadStage {
    /// Decoding, validating and compiling the bytes.
    Compile,
    /// Instantiating the module with the functions the host offers.
    Instantiate,
    /// Looking up an export of the instance.
    Export(RequiredExport),
}

/// Why no module or no running instance was produced.
#[derive(Clone, PartialEq, Eq, Debug)]
pub enum LoadError {
    /// The file at `path` could not be read.
    Io { path: String },
    /// The bytes are not a well-formed module.
    Validation { detail: String },
    /// Source text could not be turned into a module.
    Compile { detail: String },
    /// The instance lacks a required export.
    MissingExport { export: RequiredExport },
    /// The runtime refused to instantiate the module with the functions the
    /// host offers. That is so where they do not match what the module
    /// imports; a start function that traps and a limit that is exceeded
    /// come under it too.
    ImportMismatch { detail: String },
}

/// A `LoadError` as plain values.
pub enum LoadFailure {
    Io { path: Seq<char> },
    Validation { detail: Seq<char> },
    Compile { detail: Seq<char> },
    MissingExport { export: RequiredExport },
    ImportMismatch { detail: Seq<char> },
}

impl View for LoadError {
    type V = LoadFailure;

    open spec fn view(&self) -> LoadFailure {
        match *self {
            LoadError::Io { path } => LoadFailure::Io { path: path@ },
            LoadError::Validation { detail } => LoadFailure::Validation { detail: detail@ },
            LoadError::Compile { detail } => LoadFailure::Compile { detail: detail@ },
            LoadError::MissingExport { export } => LoadFailure::MissingExport { export },
            LoadError::ImportMismatch { detail } => LoadFailure::ImportMismatch { detail: detail@ },
        }
    }
}

/// What is said of a failure to load.
pub open spec fn failure_text(failure: LoadFailure) -> Seq<char> {
    match failure {
        LoadFailure::Io { path } => "cannot read "@ + path,
        LoadFailure::Validation { detail } => "not a well-formed module: "@ + detail,
        LoadFailure::Compile { detail } => "compilation failed: "@ + detail,
        LoadFailure::MissingExport { export } => "the module does not export `"@
            + export.spec_name() + "`"@,
        LoadFailure::ImportMismatch { detail } => "the module could not be instantiated: "@
            + detail,
    }
}

/// The report of a failure to load from the source named `origin`: the
/// origin, a colon and a space, and what is said of the failure.
pub open spec fn load_report(origin: Seq<char>, failure: LoadFailure) -> Seq<char> {
    origin + ": "@ + failure_text(failure)
}

impl LoadError {
    /// The report of this failure to load from the source named `origin`.
    pub fn report(&self, origin: &str) -> (text: String)
        ensures
            text@ == load_report(origin@, self@),
    {
        let mut text = String::from_str(origin);
        text.append(": ");
        match self {
            LoadError::Io { path } => {
                text.append("cannot read ");
                text.append(path.as_str());
            },
            LoadError::Validation { detail } => {
                text.append("not a well-formed module: ");
                text.append(detail.as_str());
            },
            LoadError::Compile { detail } => {
                text.append("compilation failed: ");
                text.append(detail.as_str());
            },
            LoadError::MissingExport { export } => {
                text.append("the module does not export `");
                text.append(export.name());
                text.append("`");
            },
            LoadError::ImportMismatch { detail } => {
                text.append("the module could not be instantiated: ");
                text.append(detail.as_str());
            },
        }
        assert(text@ =~= load_report(origin@, self@));
        text
    }
}

/// The error for a refusal at `stage`, with the runtime's own words as
/// `detail`. A failed lookup names the export and drops the words.
pub open spec fn failure_at(stage: LoadStage, detail: Seq<char>) -> LoadFailure {
    match stage {
        LoadStage::Compile => LoadFailure::Validation { detail },
        LoadStage::Instantiate => LoadFailure::ImportMismatch { detail },
        LoadStage::Export(export) => LoadFailure::MissingExport { export },
    }
}

/// The error for a refusal at `stage`.
pub fn load_failure(stage: LoadStage, detail: String) -> (error: LoadError)
    ensures
        error@ == failure_at(stage, detail@),
{
    match stage {
        LoadStage::Compile => LoadError::Validation { detail },
        LoadStage::Instantiate => LoadError::ImportMismatch { detail },
        LoadStage::Export(export) => LoadError::MissingExport { export },
    }
}

/// A guest that faulted, or a host function that failed, during a run.
#[derive(Clone, PartialEq, Eq, Debug)]
pub enum RunError {
    /// The run ended abnormally; `detail` holds the runtime's own words.
    Trap { detail: String },
}

} // verus!
