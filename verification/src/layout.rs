//! Where a compilation reads and writes.
//!
//! A document that was never saved is compiled in a scratch directory that
//! all such documents share. A saved document is compiled where it lies, with
//! the compiler's output in an auxiliary directory beside it.

use crate::diagnostic::{CompileError, Diagnostic};
use crate::text::optional_text;
use std::path::Path;
use vstd::prelude::*;
use vstd::string::StringExecFns;

verus! {

/// The name of the scratch directory inside the system's temporary
/// directory. The caller joins the two and hands the result in.
pub const SCRATCH_DIRECTORY_NAME: &'static str = "tauri_latex_build";

/// The name of the source file in the scratch directory.
pub const SCRATCH_SOURCE_NAME: &'static str = "input.tex";

/// The name of the artifact in the scratch directory.
pub const SCRATCH_ARTIFACT_NAME: &'static str = "input.pdf";

/// The name of the auxiliary directory beside a saved document.
pub const AUXILIARY_DIRECTORY_NAME: &'static str = "AuxiliaryFiles";

/// What follows the source file's stem in the artifact's name.
pub const ARTIFACT_EXTENSION: &'static str = ".pdf";

/// The directory of a path that names none.
pub const CURRENT_DIRECTORY: &'static str = ".";

/// The message for a source location from which no file name can be taken.
pub const NO_FILE_NAME: &'static str = "无法获取文件名";

/// The two ways a document is compiled.
#[derive(Clone, Copy, Debug, PartialEq, Eq, Structural)]
pub enum Mode {
    /// The document has no file: it is compiled in the scratch directory.
    Scratch,
    /// The document is a file: it is compiled beside that file.
    FileBacked,
}

/// A request to compile a document.
#[derive(Clone, Debug, PartialEq, Eq)]
pub struct CompilationRequest {
    /// The document's text.
    pub source_text: String,
    /// The document's file, if it has one.
    pub source_location: Option<String>,
}

/// What a `CompilationRequest` holds, as mathematical values.
pub struct RequestView {
    pub source_text: Seq<char>,
    pub source_location: Option<Seq<char>>,
}

impl View for CompilationRequest {
    type V = RequestView;

    open spec fn view(&self) -> RequestView {
        RequestView {
            source_text: self.source_text@,
            source_location: optional_text(self.source_location),
        }
    }
}

impl CompilationRequest {
    /// The mode in which this request is compiled.
    pub fn mode(&self) -> (m: Mode)
        ensures
            m == mode_of(self@),
    {
        match &self.source_location {
            Some(_) => Mode::FileBacked,
            None => Mode::Scratch,
        }
    }
}

/// The mode in which a request is compiled: beside its file where it names
/// one, in the scratch directory where it names none.
pub open spec fn mode_of(request: RequestView) -> Mode {
    match request.source_location {
        Some(_) => Mode::FileBacked,
        None => Mode::Scratch,
    }
}

/// The paths of one compilation.
#[derive(Clone, Debug, PartialEq, Eq)]
pub struct WorkspaceLayout {
    /// The file that the compiler reads.
    pub source_file_path: String,
    /// The directory that the compiler writes to.
    pub output_directory: String,
    /// The file that the compiler is expected to produce.
    pub artifact_file_path: String,
}

/// What a `WorkspaceLayout` holds, as mathematical values.
pub struct LayoutView {
    pub source_file_path: Seq<char>,
    pub output_directory: Seq<char>,
    pub artifact_file_path: Seq<char>,
}

impl View for WorkspaceLayout {
    type V = LayoutView;

    open spec fn view(&self) -> LayoutView {
        LayoutView {
            source_file_path: self.source_file_path@,
            output_directory: self.output_directory@,
            artifact_file_path: self.artifact_file_path@,
        }
    }
}

/// The directory part of `path` as `Path::parent` of `std::path` gives it,
/// by the path rules of the platform that the library is built for: `None`
/// where the path ends in a root or is empty.
pub uninterp spec fn path_parent(path: Seq<char>) -> Option<Seq<char>>;

/// The file name of `path` without its extension as `Path::file_stem` of
/// `std::path` gives it, by the path rules of the platform that the library
/// is built for: `None` where the path has no file name.
pub uninterp spec fn path_file_stem(path: Seq<char>) -> Option<Seq<char>>;

/// The path of `name` inside `directory` as `Path::join` of `std::path`
/// gives it, by the path rules of the platform that the library is built
/// for.
pub uninterp spec fn path_joined(directory: Seq<char>, name: Seq<char>) -> Seq<char>;

/// Calls `Path::parent` and hands out the result as text.
#[verifier::external_body]
fn parent_of(path: &str) -> (parent: Option<String>)
    ensures
        optional_text(parent) == path_parent(path@),
{
    Path::new(path).parent().map(|p| p.to_string_lossy().into_owned())
}

/// Calls `Path::file_stem` and hands out the result as text.
#[verifier::external_body]
fn file_stem_of(path: &str) -> (stem: Option<String>)
    ensures
        optional_text(stem) == path_file_stem(path@),
{
    Path::new(path).file_stem().map(|s| s.to_string_lossy().into_owned())
}

/// Calls `Path::join` and hands out the result as text.
#[verifier::external_body]
fn join_path(directory: &str, name: &str) -> (joined: String)
    ensures
        joined@ == path_joined(directory@, name@),
{
    Path::new(directory).join(name).to_string_lossy().into_owned()
}

/// The layout of a compilation in the scratch directory: the source and the
/// artifact lie in that directory under their fixed names, and the compiler
/// writes there.
pub open spec fn scratch_layout_of(scratch_directory: Seq<char>) -> LayoutView {
    LayoutView {
        source_file_path: path_joined(scratch_directory, SCRATCH_SOURCE_NAME@),
        output_directory: scratch_directory,
        artifact_file_path: path_joined(scratch_directory, SCRATCH_ARTIFACT_NAME@),
    }
}

/// The directory in which the file at `location` lies: the directory part
/// of the location, or the current directory where it has none.
pub open spec fn directory_of(location: Seq<char>) -> Seq<char> {
    match path_parent(location) {
        Some(parent) => parent,
        None => CURRENT_DIRECTORY@,
    }
}

/// The auxiliary directory of the document at `location`: the directory of
/// that name in the document's directory.
pub open spec fn auxiliary_directory_of(location: Seq<char>) -> Seq<char> {
    path_joined(directory_of(location), AUXILIARY_DIRECTORY_NAME@)
}

/// The layout of a compilation beside the saved document at `location`, or
/// the refusal of a location from which no file name can be taken. The
/// source is the document itself; the compiler writes to the document's
/// auxiliary directory; the artifact lies there under the document's stem
/// with the artifact's extension.
pub open spec fn file_backed_layout_of(location: Seq<char>) -> Result<LayoutView, Diagnostic> {
    match path_file_stem(location) {
        Some(stem) => Ok(
            LayoutView {
                source_file_path: location,
                output_directory: auxiliary_directory_of(location),
                artifact_file_path: path_joined(
                    auxiliary_directory_of(location),
                    stem + ARTIFACT_EXTENSION@,
                ),
            },
        ),
        None => Err(Diagnostic::unlocalized(NO_FILE_NAME@)),
    }
}

/// The layout of the compilation that a request asks for.
pub open spec fn layout_of(request: RequestView, scratch_directory: Seq<char>) -> Result<
    LayoutView,
    Diagnostic,
> {
    match request.source_location {
        Some(location) => file_backed_layout_of(location),
        None => Ok(scratch_layout_of(scratch_directory)),
    }
}

/// What a resolved layout, or its refusal, holds.
pub open spec fn resolved(r: Result<WorkspaceLayout, CompileError>) -> Result<
    LayoutView,
    Diagnostic,
> {
    match r {
        Ok(layout) => Ok(layout@),
        Err(refusal) => Err(refusal@),
    }
}

/// The directory in which a file lies, given the directory part of its path:
/// that part, or the current directory where the path has none.
pub fn directory_or_current(parent: Option<String>) -> (r: String)
    ensures
        r@ == match parent {
            Some(p) => p@,
            None => CURRENT_DIRECTORY@,
        },
{
    match parent {
        Some(p) => p,
        None => CURRENT_DIRECTORY.to_string(),
    }
}

/// The file name of the artifact of a source file with the given stem.
pub fn artifact_name(stem: &str) -> (r: String)
    ensures
        r@ == stem@ + ARTIFACT_EXTENSION@,
{
    stem.to_string().concat(ARTIFACT_EXTENSION)
}

/// The stem of the source file, given what its path yields: the stem, or,
/// where the path yields none, the error that refuses the request.
pub fn stem_or_refusal(stem: Option<String>) -> (r: Result<String, CompileError>)
    ensures
        match stem {
            Some(s) => r matches Ok(t) && t@ == s@,
            None => r matches Err(e) && e@ == Diagnostic::unlocalized(NO_FILE_NAME@),
        },
{
    match stem {
        Some(s) => Ok(s),
        None => Err(CompileError::simple(NO_FILE_NAME)),
    }
}

/// The layout of a compilation in the scratch directory.
pub fn scratch_layout(scratch_directory: &str) -> (layout: WorkspaceLayout)
    ensures
        layout@ == scratch_layout_of(scratch_directory@),
{
    WorkspaceLayout {
        source_file_path: join_path(scratch_directory, SCRATCH_SOURCE_NAME),
        output_directory: scratch_directory.to_string(),
        artifact_file_path: join_path(scratch_directory, SCRATCH_ARTIFACT_NAME),
    }
}

/// The layout of a compilation beside a saved document. A location from
/// which no file name can be taken is refused.
pub fn file_backed_layout(source_location: &str) -> (r: Result<WorkspaceLayout, CompileError>)
    ensures
        resolved(r) == file_backed_layout_of(source_location@),
{
    let stem = match stem_or_refusal(file_stem_of(source_location)) {
        Ok(stem) => stem,
        Err(refusal) => {
            return Err(refusal);
        },
    };
    let directory = directory_or_current(parent_of(source_location));
    let output_directory = join_path(directory.as_str(), AUXILIARY_DIRECTORY_NAME);
    let artifact = artifact_name(stem.as_str());
    let artifact_file_path = join_path(output_directory.as_str(), artifact.as_str());
    Ok(
        WorkspaceLayout {
            source_file_path: source_location.to_string(),
            output_directory,
            artifact_file_path,
        },
    )
}

/// The layout of the compilation that a request asks for. A request without
/// a source location is always given one.
pub fn resolve_layout(request: &CompilationRequest, scratch_directory: &str) -> (r: Result<
    WorkspaceLayout,
    CompileError,
>)
    ensures
        resolved(r) == layout_of(request@, scratch_directory@),
{
    match &request.source_location {
        Some(location) => file_backed_layout(location.as_str()),
        None => Ok(scratch_layout(scratch_directory)),
    }
}

} // verus!
