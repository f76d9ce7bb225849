use latex_backend::diagnostic::Severity;
use latex_backend::invoke::{
    combined_log, invocation_for, join_log, launch_failure, Invocation, COMPILER_PROGRAM,
};
use latex_backend::layout::{Mode, WorkspaceLayout};

fn layout(source: &str, output: &str, artifact: &str) -> WorkspaceLayout {
    WorkspaceLayout {
        source_file_path: source.to_string(),
        output_directory: output.to_string(),
        artifact_file_path: artifact.to_string(),
    }
}

#[test]
fn scratch_invocation_names_the_source_alone_and_runs_in_the_scratch_directory() {
    let l = layout("/s/input.tex", "/s", "/s/input.pdf");
    assert_eq!(
        invocation_for(Mode::Scratch, &l),
        Invocation {
            program: "tectonic".to_string(),
            arguments: vec!["/s/input.tex".to_string()],
            working_directory: Some("/s".to_string()),
        }
    );
}

#[test]
fn file_backed_invocation_names_the_output_directory_and_both_flags() {
    let l = layout("/w/doc.tex", "/w/AuxiliaryFiles", "/w/AuxiliaryFiles/doc.pdf");
    assert_eq!(
        invocation_for(Mode::FileBacked, &l),
        Invocation {
            program: "tectonic".to_string(),
            arguments: vec![
                "-o".to_string(),
                "/w/AuxiliaryFiles".to_string(),
                "--keep-intermediates".to_string(),
                "--synctex".to_string(),
                "/w/doc.tex".to_string(),
            ],
            working_directory: None,
        }
    );
}

#[test]
fn join_log_puts_a_line_feed_between_the_streams() {
    assert_eq!(join_log("out", "err"), "out\nerr");
    assert_eq!(join_log("", ""), "\n");
    assert_eq!(join_log("a\n", "b"), "a\n\nb");
}

#[test]
fn combined_log_decodes_both_streams() {
    assert_eq!(combined_log(b"hello", "wörld".as_bytes()), "hello\nwörld");
    assert_eq!(combined_log(b"", b"only stderr"), "\nonly stderr");
}

#[test]
fn combined_log_replaces_what_is_no_valid_text() {
    assert_eq!(combined_log(&[b'a', 0xff, b'b'], &[0xc3]), "a\u{fffd}b\n\u{fffd}");
}

#[test]
fn launch_failure_names_the_compiler() {
    let e = launch_failure("No such file or directory (os error 2)");
    assert_eq!(e.line, 0);
    assert_eq!(e.severity, Severity::Error);
    assert_eq!(
        e.message,
        "could not start `tectonic` (is it installed and on the PATH?): No such file or directory (os error 2)"
    );
    assert!(e.message.contains(COMPILER_PROGRAM));
}

#[test]
fn launch_failure_names_the_compiler_whatever_the_description() {
    assert!(launch_failure("").message.contains("tectonic"));
}
