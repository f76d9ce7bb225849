//! How the external compiler is called, and what is made of its output.

use crate::diagnostic::{CompileError, Diagnostic};
use crate::layout::{LayoutView, Mode, WorkspaceLayout};
use crate::text::{optional_text, texts};
use vstd::prelude::*;
use vstd::string::StringExecFns;

verus! {

/// The program that compiles a document. It must be installed and found on
/// the search path.
pub const COMPILER_PROGRAM: &'static str = "tectonic";

/// The flag that precedes the output directory.
pub const OUTPUT_DIRECTORY_FLAG: &'static str = "-o";

/// The flag that keeps the intermediate files of the build.
pub const KEEP_INTERMEDIATES_FLAG: &'static str = "--keep-intermediates";

/// The flag that asks for the cross-reference between source and artifact
/// positions.
pub const SYNCTEX_FLAG: &'static str = "--synctex";

/// What precedes the program's name in the message of a failed launch.
pub const LAUNCH_FAILURE_INTRODUCTION: &'static str = "could not start `";

/// What follows the program's name in the message of a failed launch.
pub const LAUNCH_FAILURE_ADVICE: &'static str = "` (is it installed and on the PATH?): ";

/// One call of the external compiler.
#[derive(Clone, Debug, PartialEq, Eq)]
pub struct Invocation {
    pub program: String,
    pub arguments: Vec<String>,
    /// The directory to run in, or `None` to run where the caller is.
    pub working_directory: Option<String>,
}

/// What an `Invocation` holds, as mathematical values.
pub struct InvocationView {
    pub program: Seq<char>,
    pub arguments: Seq<Seq<char>>,
    pub working_directory: Option<Seq<char>>,
}

impl View for Invocation {
    type V = InvocationView;

    open spec fn view(&self) -> InvocationView {
        InvocationView {
            program: self.program@,
            arguments: texts(self.arguments@),
            working_directory: optional_text(self.working_directory),
        }
    }
}

/// The call of the compiler for a layout. In the scratch directory the
/// compiler gets the source file alone and runs in that directory, where it
/// writes beside its input. For a saved document it is told the output
/// directory, keeps its intermediate files, writes the position
/// cross-reference, and runs where the caller is.
pub open spec fn invocation_of(mode: Mode, layout: LayoutView) -> InvocationView {
    match mode {
        Mode::Scratch => InvocationView {
            program: COMPILER_PROGRAM@,
            arguments: seq![layout.source_file_path],
            working_directory: Some(layout.output_directory),
        },
        Mode::FileBacked => InvocationView {
            program: COMPILER_PROGRAM@,
            arguments: seq![
                OUTPUT_DIRECTORY_FLAG@,
                layout.output_directory,
                KEEP_INTERMEDIATES_FLAG@,
                SYNCTEX_FLAG@,
                layout.source_file_path,
            ],
            working_directory: None,
        },
    }
}

/// The call of the compiler for a layout.
pub fn invocation_for(mode: Mode, layout: &WorkspaceLayout) -> (call: Invocation)
    ensures
        call@ == invocation_of(mode, layout@),
{
    let mut arguments: Vec<String> = Vec::new();
    match mode {
        Mode::Scratch => {
            arguments.push(layout.source_file_path.clone());
            proof {
                assert(texts(arguments@) =~= seq![layout@.source_file_path]);
            }
            Invocation {
                program: COMPILER_PROGRAM.to_string(),
                arguments,
                working_directory: Some(layout.output_directory.clone()),
            }
        },
        Mode::FileBacked => {
            arguments.push(OUTPUT_DIRECTORY_FLAG.to_string());
            arguments.push(layout.output_directory.clone());
            arguments.push(KEEP_INTERMEDIATES_FLAG.to_string());
            arguments.push(SYNCTEX_FLAG.to_string());
            arguments.push(layout.source_file_path.clone());
            proof {
                assert(texts(arguments@) =~= seq![
                    OUTPUT_DIRECTORY_FLAG@,
                    layout@.output_directory,
                    KEEP_INTERMEDIATES_FLAG@,
                    SYNCTEX_FLAG@,
                    layout@.source_file_path,
                ]);
            }
            Invocation { program: COMPILER_PROGRAM.to_string(), arguments, working_directory: None }
        },
    }
}

/// The text that `String::from_utf8_lossy` makes of bytes: the text they
/// encode in UTF-8, with the replacement character in place of what is no
/// valid encoding.
pub uninterp spec fn lossy_text(bytes: Seq<u8>) -> Seq<char>;

/// Decodes bytes with `String::from_utf8_lossy`.
#[verifier::external_body]
fn decode_lossy(bytes: &[u8]) -> (text: String)
    ensures
        text@ == lossy_text(bytes@),
{
    String::from_utf8_lossy(bytes).into_owned()
}

/// The log of a run: what the compiler wrote to its standard output, a line
/// feed, and what it wrote to its standard error.
pub open spec fn joined_log(standard_output: Seq<char>, standard_error: Seq<char>) -> Seq<char> {
    standard_output + seq!['\n'] + standard_error
}

/// The log of a run whose two streams hold the given bytes.
pub open spec fn log_of(standard_output: Seq<u8>, standard_error: Seq<u8>) -> Seq<char> {
    joined_log(lossy_text(standard_output), lossy_text(standard_error))
}

/// Joins the texts of the two streams into one log.
pub fn join_log(standard_output: &str, standard_error: &str) -> (log: String)
    ensures
        log@ == joined_log(standard_output@, standard_error@),
{
    let mut log = standard_output.to_string();
    log.push('\n');
    log.append(standard_error);
    proof {
        assert(standard_output@.push('\n') =~= standard_output@ + seq!['\n']);
    }
    log
}

/// The log of a run, from the bytes of its two streams.
pub fn combined_log(standard_output: &[u8], standard_error: &[u8]) -> (log: String)
    ensures
        log@ == log_of(standard_output@, standard_error@),
{
    let out = decode_lossy(standard_output);
    let err = decode_lossy(standard_error);
    join_log(out.as_str(), err.as_str())
}

/// The message for a compiler that could not be started: it names the
/// program that is expected, then gives the system's description.
pub open spec fn launch_failure_message(description: Seq<char>) -> Seq<char> {
    LAUNCH_FAILURE_INTRODUCTION@ + COMPILER_PROGRAM@ + LAUNCH_FAILURE_ADVICE@ + description
}

/// The error for a compiler that could not be started.
pub fn launch_failure(description: &str) -> (e: CompileError)
    ensures
        e@ == Diagnostic::unlocalized(launch_failure_message(description@)),
{
    let mut message = LAUNCH_FAILURE_INTRODUCTION.to_string();
    message.append(COMPILER_PROGRAM);
    message.append(LAUNCH_FAILURE_ADVICE);
    message.append(description);
    CompileError::simple(message.as_str())
}

/// The message of a failed launch holds the name of the expected program.
pub proof fn lemma_launch_failure_names_program(description: Seq<char>)
    ensures
        exists|before: Seq<char>, after: Seq<char>|
            launch_failure_message(description) == before + COMPILER_PROGRAM@ + after,
{
    let before = LAUNCH_FAILURE_INTRODUCTION@;
    let after = LAUNCH_FAILURE_ADVICE@ + description;
    assert(launch_failure_message(description) =~= before + COMPILER_PROGRAM@ + after);
}

} // verus!
