//! The diagnostic record that every failure is reported as.

use vstd::prelude::*;

verus! {

/// How serious a diagnostic is. There is one level today; the type leaves
/// room for more.
#[derive(Clone, Copy, Debug, PartialEq, Eq, Structural)]
pub enum Severity {
    Error,
}

/// The label under which `Severity::Error` is shown.
pub const ERROR_LABEL: &'static str = "error";

impl Severity {
    /// The text shown for this severity.
    pub fn label(&self) -> (r: &'static str)
        ensures
            r@ == self.label_text(),
    {
        match self {
            Severity::Error => ERROR_LABEL,
        }
    }

    /// The text that `label` returns.
    pub open spec fn label_text(&self) -> Seq<char> {
        match self {
            Severity::Error => ERROR_LABEL@,
        }
    }
}

/// What a `CompileError` says, as mathematical values.
pub struct Diagnostic {
    /// The source line, or 0 where the problem has no known line.
    pub line: u32,
    pub message: Seq<char>,
    pub severity: Severity,
}

impl Diagnostic {
    /// An error that belongs to no line of the source.
    pub open spec fn unlocalized(message: Seq<char>) -> Diagnostic {
        Diagnostic { line: 0, message, severity: Severity::Error }
    }

    /// An error at a line of the source.
    pub open spec fn at_line(line: u32, message: Seq<char>) -> Diagnostic {
        Diagnostic { line, message, severity: Severity::Error }
    }
}

/// One problem found while compiling a document.
#[derive(Clone, Debug, PartialEq, Eq)]
pub struct CompileError {
    /// The source line, or 0 where the problem has no known line.
    pub line: u32,
    pub message: String,
    pub severity: Severity,
}

impl View for CompileError {
    type V = Diagnostic;

    open spec fn view(&self) -> Diagnostic {
        Diagnostic { line: self.line, message: self.message@, severity: self.severity }
    }
}

/// The diagnostics that a list of errors stands for, in order.
pub open spec fn diagnostics(errors: Seq<CompileError>) -> Seq<Diagnostic> {
    errors.map_values(|e: CompileError| e@)
}

#[verifier::external_type_specification]
#[verifier::external_body]
pub struct ExIoError(std::io::Error);

impl CompileError {
    /// An error with the given message that belongs to no line.
    pub fn simple(msg: &str) -> (r: CompileError)
        ensures
            r@ == Diagnostic::unlocalized(msg@),
    {
        CompileError { line: 0, message: msg.to_string(), severity: Severity::Error }
    }

    /// An error that reports a failed I/O operation. It belongs to no line
    /// and its message is the description that the error displays, which
    /// comes from the operating system.
    pub fn sys(e: std::io::Error) -> (r: CompileError)
        ensures
            r@.line == 0,
            r@.severity == Severity::Error,
            vstd::string::to_string_from_display_ensures::<std::io::Error>(&e, r.message),
    {
        CompileError { line: 0, message: e.to_string(), severity: Severity::Error }
    }

    /// An error at a line of the source.
    pub fn at_line(line: u32, message: String) -> (r: CompileError)
        ensures
            r@ == Diagnostic::at_line(line, message@),
    {
        CompileError { line, message, severity: Severity::Error }
    }
}

} // verus!
