use dynlib_builder::errors::BuildError;

#[test]
fn compilation_error_surfaces_both_streams_verbatim() {
    let e = BuildError::Compilation {
        stdout: "warning: something odd".to_string(),
        stderr: "parser.c:1: error: expected ';'".to_string(),
    };
    let m = e.message();
    assert_eq!(
        m,
        "Parser compilation failed.\nStdout: warning: something odd\nStderr: parser.c:1: error: expected ';'"
    );
    assert!(m.contains("warning: something odd"));
    assert!(m.contains("parser.c:1: error: expected ';'"));
}

#[test]
fn generation_error_surfaces_stderr_verbatim() {
    let e = BuildError::Generation { stderr: "bad grammar".to_string() };
    let m = e.message();
    assert_eq!(m, "Failed to run \"tree-sitter generate\": bad grammar");
    assert!(m.contains("bad grammar"));
}

#[test]
fn io_error_message_is_the_underlying_text() {
    let e = BuildError::Io { message: "permission denied".to_string() };
    assert_eq!(e.message(), "permission denied");
}

#[test]
fn missing_source_error_names_the_missing_file() {
    let e = BuildError::MissingSource { path: "/a/src/parser.c".to_string() };
    assert_eq!(e.message(), "Missing required parser source: /a/src/parser.c");
}

#[test]
fn toolchain_error_message_has_stage_context() {
    let e = BuildError::Toolchain { message: "no compiler found".to_string() };
    assert_eq!(e.message(), "Failed to resolve a native compiler: no compiler found");
}

#[test]
fn spawn_error_messages_have_stage_context() {
    let g = BuildError::GeneratorSpawn { message: "not found".to_string() };
    assert_eq!(g.message(), "Failed to run \"tree-sitter generate\": not found");
    let c = BuildError::CompilerSpawn { message: "not found".to_string() };
    assert_eq!(c.message(), "Failed to execute C compiler: not found");
}
