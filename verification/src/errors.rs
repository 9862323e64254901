//! The error taxonomy of the pipeline and the text each error surfaces.
//!
//! Every stage fails fast: the first error aborts the run and is surfaced
//! with its stage context and the raw output of the external tool. A failed
//! compilation carries both captured streams verbatim.

use vstd::prelude::*;

verus! {

/// The mathematical value of a build error: the variant and the captured
/// text, as character sequences.
pub enum ErrorModel {
    Io { message: Seq<char> },
    GeneratorSpawn { message: Seq<char> },
    Generation { stderr: Seq<char> },
    MissingSource { path: Seq<char> },
    Toolchain { message: Seq<char> },
    CompilerSpawn { message: Seq<char> },
    Compilation { stdout: Seq<char>, stderr: Seq<char> },
}

/// Why a build aborted. Each variant carries what the failing stage captured.
#[derive(Debug)]
pub enum BuildError {
    /// A directory could not be created.
    Io { message: String },
    /// The external generator could not be spawned.
    GeneratorSpawn { message: String },
    /// The external generator exited non-zero; carries its standard error.
    Generation { stderr: String },
    /// The required parser source is absent after generation.
    MissingSource { path: String },
    /// No native compiler could be resolved for the target triple.
    Toolchain { message: String },
    /// The native compiler could not be spawned.
    CompilerSpawn { message: String },
    /// The native compiler exited non-zero; carries both captured streams.
    Compilation { stdout: String, stderr: String },
}

impl View for BuildError {
    type V = ErrorModel;

    open spec fn view(&self) -> ErrorModel {
        match self {
            BuildError::Io { message } => ErrorModel::Io { message: message@ },
            BuildError::GeneratorSpawn { message } => ErrorModel::GeneratorSpawn {
                message: message@,
            },
            BuildError::Generation { stderr } => ErrorModel::Generation { stderr: stderr@ },
            BuildError::MissingSource { path } => ErrorModel::MissingSource { path: path@ },
            BuildError::Toolchain { message } => ErrorModel::Toolchain { message: message@ },
            BuildError::CompilerSpawn { message } => ErrorModel::CompilerSpawn {
                message: message@,
            },
            BuildError::Compilation { stdout, stderr } => ErrorModel::Compilation {
                stdout: stdout@,
                stderr: stderr@,
            },
        }
    }
}

/// The text an error surfaces to the user: stage context first, then the raw
/// output of the failing tool, verbatim.
pub open spec fn spec_error_message(e: ErrorModel) -> Seq<char> {
    match e {
        ErrorModel::Io { message } => message,
        ErrorModel::GeneratorSpawn { message } => "Failed to run \"tree-sitter generate\": "@
            + message,
        ErrorModel::Generation { stderr } => "Failed to run \"tree-sitter generate\": "@ + stderr,
        ErrorModel::MissingSource { path } => "Missing required parser source: "@ + path,
        ErrorModel::Toolchain { message } => "Failed to resolve a native compiler: "@ + message,
        ErrorModel::CompilerSpawn { message } => "Failed to execute C compiler: "@ + message,
        ErrorModel::Compilation { stdout, stderr } => "Parser compilation failed.\nStdout: "@
            + stdout + "\nStderr: "@ + stderr,
    }
}

impl BuildError {
    /// Renders the error as the single terminal message of the run.
    pub fn message(&self) -> (r: String)
        ensures
            r@ == spec_error_message(self@),
    {
        match self {
            BuildError::Io { message } => String::from_str(message.as_str()),
            BuildError::GeneratorSpawn { message } => String::from_str(
                "Failed to run \"tree-sitter generate\": ",
            ).concat(message.as_str()),
            BuildError::Generation { stderr } => String::from_str(
                "Failed to run \"tree-sitter generate\": ",
            ).concat(stderr.as_str()),
            BuildError::MissingSource { path } => String::from_str(
                "Missing required parser source: ",
            ).concat(path.as_str()),
            BuildError::Toolchain { message } => String::from_str(
                "Failed to resolve a native compiler: ",
            ).concat(message.as_str()),
            BuildError::CompilerSpawn { message } => String::from_str(
                "Failed to execute C compiler: ",
            ).concat(message.as_str()),
            BuildError::Compilation { stdout, stderr } => {
                let r = String::from_str("Parser compilation failed.\nStdout: ").concat(
                    stdout.as_str(),
                ).concat("\nStderr: ").concat(stderr.as_str());
                proof {
                    assert(r@ =~= spec_error_message(self@));
                }
                r
            },
        }
    }
}

/// A failed compilation surfaces both captured streams verbatim: the message
/// holds the captured standard output and standard error as contiguous
/// stretches, at the offsets fixed by the surrounding context text.
pub proof fn lemma_compilation_message_verbatim(stdout: Seq<char>, stderr: Seq<char>)
    ensures
        ({
            let m = spec_error_message(ErrorModel::Compilation { stdout, stderr });
            let p1 = "Parser compilation failed.\nStdout: "@;
            let p2 = "\nStderr: "@;
            &&& m.len() == p1.len() + stdout.len() + p2.len() + stderr.len()
            &&& m.subrange(p1.len() as int, (p1.len() + stdout.len()) as int) == stdout
            &&& m.subrange(m.len() - stderr.len(), m.len() as int) == stderr
        }),
{
    let m = spec_error_message(ErrorModel::Compilation { stdout, stderr });
    let p1 = "Parser compilation failed.\nStdout: "@;
    assert(m.subrange(p1.len() as int, (p1.len() + stdout.len()) as int) =~= stdout);
    assert(m.subrange(m.len() - stderr.len(), m.len() as int) =~= stderr);
}

/// A failed generation surfaces the generator's standard error verbatim: the
/// message ends with the captured stream, after the fixed stage context.
pub proof fn lemma_generation_message_verbatim(stderr: Seq<char>)
    ensures
        ({
            let m = spec_error_message(ErrorModel::Generation { stderr });
            let p = "Failed to run \"tree-sitter generate\": "@;
            &&& m.len() == p.len() + stderr.len()
            &&& m.subrange(p.len() as int, m.len() as int) == stderr
        }),
{
    let m = spec_error_message(ErrorModel::Generation { stderr });
    let p = "Failed to run \"tree-sitter generate\": "@;
    assert(m.subrange(p.len() as int, m.len() as int) =~= stderr);
}

} // verus!
