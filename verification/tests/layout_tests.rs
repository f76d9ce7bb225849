use latex_backend::diagnostic::{CompileError, Severity};
use latex_backend::layout::{
    artifact_name, directory_or_current, file_backed_layout, resolve_layout, scratch_layout,
    stem_or_refusal, CompilationRequest, Mode, WorkspaceLayout, ARTIFACT_EXTENSION,
    AUXILIARY_DIRECTORY_NAME, CURRENT_DIRECTORY, NO_FILE_NAME, SCRATCH_ARTIFACT_NAME,
    SCRATCH_DIRECTORY_NAME, SCRATCH_SOURCE_NAME,
};

fn layout(source: &str, output: &str, artifact: &str) -> WorkspaceLayout {
    WorkspaceLayout {
        source_file_path: source.to_string(),
        output_directory: output.to_string(),
        artifact_file_path: artifact.to_string(),
    }
}

fn refusal() -> CompileError {
    CompileError { line: 0, message: "无法获取文件名".to_string(), severity: Severity::Error }
}

#[test]
fn fixed_names_are_as_documented() {
    assert_eq!(SCRATCH_DIRECTORY_NAME, "tauri_latex_build");
    assert_eq!(SCRATCH_SOURCE_NAME, "input.tex");
    assert_eq!(SCRATCH_ARTIFACT_NAME, "input.pdf");
    assert_eq!(AUXILIARY_DIRECTORY_NAME, "AuxiliaryFiles");
    assert_eq!(ARTIFACT_EXTENSION, ".pdf");
    assert_eq!(CURRENT_DIRECTORY, ".");
    assert_eq!(NO_FILE_NAME, "无法获取文件名");
}

#[test]
fn scratch_layout_lies_in_the_scratch_directory() {
    assert_eq!(
        scratch_layout("/tmp/tauri_latex_build"),
        layout(
            "/tmp/tauri_latex_build/input.tex",
            "/tmp/tauri_latex_build",
            "/tmp/tauri_latex_build/input.pdf"
        )
    );
}

#[test]
fn scratch_layout_is_the_same_on_every_call() {
    assert_eq!(scratch_layout("/var/scratch"), scratch_layout("/var/scratch"));
}

#[test]
fn file_backed_layout_uses_the_auxiliary_directory_beside_the_source() {
    assert_eq!(
        file_backed_layout("/home/ada/thesis/main.tex"),
        Ok(layout(
            "/home/ada/thesis/main.tex",
            "/home/ada/thesis/AuxiliaryFiles",
            "/home/ada/thesis/AuxiliaryFiles/main.pdf"
        ))
    );
}

#[test]
fn file_backed_layout_of_a_bare_file_name_is_relative() {
    assert_eq!(
        file_backed_layout("notes.tex"),
        Ok(layout("notes.tex", "AuxiliaryFiles", "AuxiliaryFiles/notes.pdf"))
    );
}

#[test]
fn file_backed_layout_takes_the_stem_before_the_last_dot() {
    assert_eq!(
        file_backed_layout("/d/report.final.tex").unwrap().artifact_file_path,
        "/d/AuxiliaryFiles/report.final.pdf"
    );
    assert_eq!(
        file_backed_layout("/d/noextension").unwrap().artifact_file_path,
        "/d/AuxiliaryFiles/noextension.pdf"
    );
    assert_eq!(
        file_backed_layout("/d/.hidden").unwrap().artifact_file_path,
        "/d/AuxiliaryFiles/.hidden.pdf"
    );
}

#[test]
fn file_backed_layout_keeps_the_source_location_unchanged() {
    let l = file_backed_layout("./a/../b/./doc.tex").unwrap();
    assert_eq!(l.source_file_path, "./a/../b/./doc.tex");
}

#[test]
fn file_backed_layout_refuses_a_location_without_file_name() {
    assert_eq!(file_backed_layout("/"), Err(refusal()));
    assert_eq!(file_backed_layout(""), Err(refusal()));
    assert_eq!(file_backed_layout("/home/ada/.."), Err(refusal()));
}

#[test]
fn file_backed_layouts_of_documents_in_different_directories_are_disjoint() {
    let a = file_backed_layout("/p/one/a.tex").unwrap();
    let b = file_backed_layout("/p/two/b.tex").unwrap();
    assert_ne!(a.output_directory, b.output_directory);
    assert_ne!(a.artifact_file_path, b.artifact_file_path);
    assert!(a.artifact_file_path.starts_with("/p/one/AuxiliaryFiles/"));
    assert!(b.artifact_file_path.starts_with("/p/two/AuxiliaryFiles/"));
}

#[test]
fn resolve_layout_without_location_is_the_scratch_layout() {
    let request = CompilationRequest { source_text: "x".to_string(), source_location: None };
    assert_eq!(request.mode(), Mode::Scratch);
    assert_eq!(resolve_layout(&request, "/s"), Ok(layout("/s/input.tex", "/s", "/s/input.pdf")));
}

#[test]
fn resolve_layout_with_location_is_the_file_backed_layout() {
    let request = CompilationRequest {
        source_text: "x".to_string(),
        source_location: Some("/w/doc.tex".to_string()),
    };
    assert_eq!(request.mode(), Mode::FileBacked);
    assert_eq!(
        resolve_layout(&request, "/s"),
        Ok(layout("/w/doc.tex", "/w/AuxiliaryFiles", "/w/AuxiliaryFiles/doc.pdf"))
    );
}

#[test]
fn resolve_layout_refuses_a_location_without_file_name() {
    let request = CompilationRequest {
        source_text: String::new(),
        source_location: Some("/".to_string()),
    };
    assert_eq!(resolve_layout(&request, "/s"), Err(refusal()));
}

#[test]
fn directory_or_current_defaults_to_the_current_directory() {
    assert_eq!(directory_or_current(Some("/a/b".to_string())), "/a/b");
    assert_eq!(directory_or_current(Some(String::new())), "");
    assert_eq!(directory_or_current(None), ".");
}

#[test]
fn artifact_name_appends_the_extension() {
    assert_eq!(artifact_name("main"), "main.pdf");
    assert_eq!(artifact_name(""), ".pdf");
    assert_eq!(artifact_name("a.b"), "a.b.pdf");
}

#[test]
fn stem_or_refusal_refuses_a_missing_stem() {
    assert_eq!(stem_or_refusal(Some("main".to_string())), Ok("main".to_string()));
    assert_eq!(stem_or_refusal(None), Err(refusal()));
}
