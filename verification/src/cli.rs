//! The decisions of the command line: which mode the arguments ask for,
//! and how a run over a file ends.

use vstd::prelude::*;

verus! {

/// What the program was asked to do.
#[derive(Clone, PartialEq, Eq, Debug)]
pub enum Mode {
    /// `--stdin`: the interactive loop.
    Interactive,
    /// `--file <path>`: one run over the contents of the file.
    File { path: String },
    /// `--help` or `-h`: print the usage and leave.
    Usage,
    /// Anything else: run the example guest.
    Example,
}

/// A `Mode` as plain values.
pub enum ModeView {
    Interactive,
    File { path: Seq<char> },
    Usage,
    Example,
}

impl View for Mode {
    type V = ModeView;

    open spec fn view(&self) -> ModeView {
        match *self {
            Mode::Interactive => ModeView::Interactive,
            Mode::File { path } => ModeView::File { path: path@ },
            Mode::Usage => ModeView::Usage,
            Mode::Example => ModeView::Example,
        }
    }
}

/// The mode for the arguments of the process, the program's own name
/// first. Only the argument after the name decides, and `--file` counts
/// only with a path behind it.
pub open spec fn mode_for(args: Seq<Seq<char>>) -> ModeView {
    if args.len() > 1 && args[1] == "--stdin"@ {
        ModeView::Interactive
    } else if args.len() > 2 && args[1] == "--file"@ {
        ModeView::File { path: args[2] }
    } else if args.len() > 1 && (args[1] == "--help"@ || args[1] == "-h"@) {
        ModeView::Usage
    } else {
        ModeView::Example
    }
}

/// The usage, without the newline that ends it.
pub open spec fn usage() -> Seq<char> {
    "Usage: cargo run [OPTIONS]\n\nOPTIONS:\n  --stdin              Run in interactive REPL mode\n  --file <FILE_PATH>   Process Roc code from the specified file\n  --help, -h           Show this help message\n\nWithout any options, the program runs a simple WebAssembly example."@
}

/// The usage, without the newline that ends it.
pub fn usage_text() -> (text: &'static str)
    ensures
        text@ == usage(),
{
    "Usage: cargo run [OPTIONS]\n\nOPTIONS:\n  --stdin              Run in interactive REPL mode\n  --file <FILE_PATH>   Process Roc code from the specified file\n  --help, -h           Show this help message\n\nWithout any options, the program runs a simple WebAssembly example."
}

/// Whether `arg` is the option `option`.
fn is_option(arg: &String, option: &str) -> (same: bool)
    ensures
        same == (arg@ == option@),
{
    let wanted = String::from_str(option);
    *arg == wanted
}

/// The arguments as plain values.
pub open spec fn texts(args: Seq<String>) -> Seq<Seq<char>> {
    Seq::new(args.len(), |i: int| args[i]@)
}

/// Chooses the mode for the arguments of the process.
pub fn select_mode(args: &Vec<String>) -> (mode: Mode)
    ensures
        mode@ == mode_for(texts(args@)),
{
    if args.len() > 1 && is_option(&args[1], "--stdin") {
        Mode::Interactive
    } else if args.len() > 2 && is_option(&args[1], "--file") {
        Mode::File { path: args[2].clone() }
    } else if args.len() > 1 && (is_option(&args[1], "--help") || is_option(&args[1], "-h")) {
        Mode::Usage
    } else {
        Mode::Example
    }
}

/// How a run ends.
#[derive(Clone, PartialEq, Eq, Debug)]
pub enum Finish {
    /// Print `text` and a newline on the standard output; status `0`.
    Print { text: String },
    /// Print nothing; status `0`.
    Silent,
    /// Print `message` and a newline on the standard error; status `1`.
    Fail { message: String },
}

/// A `Finish` as plain values.
pub enum FinishView {
    Print { text: Seq<char> },
    Silent,
    Fail { message: Seq<char> },
}

impl View for Finish {
    type V = FinishView;

    open spec fn view(&self) -> FinishView {
        match *self {
            Finish::Print { text } => FinishView::Print { text: text@ },
            Finish::Silent => FinishView::Silent,
            Finish::Fail { message } => FinishView::Fail { message: message@ },
        }
    }
}

/// The exit status of the process.
pub open spec fn status_of(finish: FinishView) -> int {
    if finish is Fail {
        1
    } else {
        0
    }
}

/// The report of a file that could not be read.
pub open spec fn read_failure(path: Seq<char>, reason: Seq<char>) -> Seq<char> {
    "Error reading file "@ + path + ": "@ + reason
}

/// The report of a file whose contents could not be processed.
pub open spec fn process_failure(path: Seq<char>, reason: Seq<char>) -> Seq<char> {
    "Error processing file "@ + path + ": "@ + reason
}

/// The report of an interactive loop that could not read or write.
pub open spec fn stdin_failure(reason: Seq<char>) -> Seq<char> {
    "Error processing stdin: "@ + reason
}

/// How a run over rendered text ends: an empty result prints nothing.
pub open spec fn finish_of(rendered: Seq<char>) -> FinishView {
    if rendered.len() == 0 {
        FinishView::Silent
    } else {
        FinishView::Print { text: rendered }
    }
}

impl Finish {
    /// The exit status of the process.
    pub fn status(&self) -> (status: i32)
        ensures
            status == status_of(self@),
    {
        match self {
            Finish::Fail { .. } => 1,
            _ => 0,
        }
    }
}

/// `prefix`, `path`, a colon and a space, and `reason`.
fn report(prefix: &str, path: &str, reason: &str) -> (message: String)
    ensures
        message@ == prefix@ + path@ + ": "@ + reason@,
{
    let mut message = String::from_str(prefix);
    message.append(path);
    message.append(": ");
    message.append(reason);
    message
}

/// What the run over the file at `path` goes on with once the file was read
/// or could not be: the text to evaluate, or the end of the run with a
/// report that names the path. In the second case nothing is evaluated.
pub fn file_source(path: &str, read: Result<String, String>) -> (r: Result<String, Finish>)
    ensures
        read matches Ok(content) ==> r == Ok::<String, Finish>(content),
        read matches Err(reason) ==> r matches Err(finish) && finish@ == (FinishView::Fail {
            message: read_failure(path@, reason@),
        }),
{
    match read {
        Ok(content) => Ok(content),
        Err(reason) => Err(
            Finish::Fail { message: report("Error reading file ", path, reason.as_str()) },
        ),
    }
}

/// How the run over the file at `path` ends once the evaluator has answered
/// with the rendered result or failed.
pub fn file_finish(path: &str, answer: Result<String, String>) -> (finish: Finish)
    ensures
        answer matches Ok(rendered) ==> finish@ == finish_of(rendered@),
        answer matches Err(reason) ==> finish@ == (FinishView::Fail {
            message: process_failure(path@, reason@),
        }),
{
    match answer {
        Ok(rendered) => {
            if rendered.as_str().unicode_len() == 0 {
                Finish::Silent
            } else {
                Finish::Print { text: rendered }
            }
        },
        Err(reason) => Finish::Fail {
            message: report("Error processing file ", path, reason.as_str()),
        },
    }
}

/// How the interactive mode ends: quietly where the loop ended by itself,
/// with a report where reading or writing failed.
pub fn stdin_finish(outcome: Result<(), String>) -> (finish: Finish)
    ensures
        outcome is Ok ==> finish@ == FinishView::Silent,
        outcome matches Err(reason) ==> finish@ == (FinishView::Fail {
            message: stdin_failure(reason@),
        }),
{
    match outcome {
        Ok(()) => Finish::Silent,
        Err(reason) => {
            let mut message = String::from_str("Error processing stdin: ");
            message.append(reason.as_str());
            Finish::Fail { message }
        },
    }
}

/// A run that fails ends with status `1`, any other with `0`; a file that
/// cannot be read fails with a report that holds its path.
pub proof fn lemma_unreadable_file_fails(path: Seq<char>, reason: Seq<char>)
    ensures
        status_of(FinishView::Fail { message: read_failure(path, reason) }) == 1,
        read_failure(path, reason).subrange(
            "Error reading file "@.len() as int,
            ("Error reading file "@.len() + path.len()) as int,
        ) == path,
{
    let prefix = "Error reading file "@;
    assert(read_failure(path, reason).subrange(
        prefix.len() as int,
        (prefix.len() + path.len()) as int,
    )
        =~= path);
}

} // verus!
