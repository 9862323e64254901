use dynlib_builder::command::Platform;
use dynlib_builder::pipeline::{Action, Event, Pipeline};
use dynlib_builder::request::BuildRequest;
use dynlib_builder::toolchain::{resolve_toolchain, Toolchain};
use dynlib_builder::errors::BuildError;

fn request(platform: Platform) -> BuildRequest {
    BuildRequest {
        grammar_path: "/g".to_string(),
        artifact_path: "/a".to_string(),
        grammar_name: "mylang".to_string(),
        target: "x86_64-unknown-linux-gnu".to_string(),
        platform,
    }
}

fn stub_toolchain() -> Toolchain {
    Toolchain {
        path: "cc".to_string(),
        env: vec![("INCLUDE".to_string(), "/usr/include".to_string())],
    }
}

/// Drives one pipeline through a whole successful build and returns the
/// compiler arguments it constructed.
fn run_successful_build(p: &mut Pipeline, scanner_c: bool, scanner_cpp: bool) -> Vec<String> {
    match p.next(Event::Start) {
        Action::CreateDir { path } => assert_eq!(path, "/a"),
        a => panic!("expected CreateDir, got {:?}", a),
    }
    match p.next(Event::DirCreated) {
        Action::RunGenerator { program, subcommand, grammar_js, working_dir } => {
            assert_eq!(program, "tree-sitter");
            assert_eq!(subcommand, "generate");
            assert_eq!(grammar_js, "/g/grammar.js");
            assert_eq!(working_dir, "/a");
        }
        a => panic!("expected RunGenerator, got {:?}", a),
    }
    match p.next(Event::GeneratorExited { success: true, stderr: String::new() }) {
        Action::CreateDir { path } => assert_eq!(path, "/a/c-dynlib"),
        a => panic!("expected CreateDir, got {:?}", a),
    }
    match p.next(Event::DirCreated) {
        Action::CheckSources { parser, scanner_c, scanner_cpp } => {
            assert_eq!(parser, "/g/src/parser.c");
            assert_eq!(scanner_c, "/g/src/scanner.c");
            assert_eq!(scanner_cpp, "/g/src/scanner.cc");
        }
        a => panic!("expected CheckSources, got {:?}", a),
    }
    match p.next(Event::SourcesChecked {
        parser_exists: true,
        scanner_c_exists: scanner_c,
        scanner_cpp_exists: scanner_cpp,
    }) {
        Action::ResolveToolchain { target } => assert_eq!(target, "x86_64-unknown-linux-gnu"),
        a => panic!("expected ResolveToolchain, got {:?}", a),
    }
    let args = match p.next(Event::ToolchainResolved { toolchain: stub_toolchain() }) {
        Action::RunCompiler { program, env, args } => {
            assert_eq!(program, "cc");
            assert_eq!(env, vec![("INCLUDE".to_string(), "/usr/include".to_string())]);
            args
        }
        a => panic!("expected RunCompiler, got {:?}", a),
    };
    match p.next(Event::CompilerExited {
        success: true,
        stdout: String::new(),
        stderr: String::new(),
    }) {
        Action::Succeed => {}
        a => panic!("expected Succeed, got {:?}", a),
    }
    assert!(p.is_done());
    assert!(p.error_message().is_none());
    args
}

#[test]
fn successful_posix_build_without_scanner() {
    let mut p = Pipeline::new(request(Platform::Posix));
    let args = run_successful_build(&mut p, false, false);
    let expected = vec![
        "-shared",
        "-fPIC",
        "-fno-exceptions",
        "-g",
        "-I",
        "/g/src",
        "-o",
        "/a/c-dynlib/mylang.so",
        "-O2",
        "-xc",
        "/g/src/parser.c",
    ];
    assert_eq!(args, expected);
}

#[test]
fn successful_posix_build_with_c_scanner() {
    let mut p = Pipeline::new(request(Platform::Posix));
    let args = run_successful_build(&mut p, true, false);
    let tail = vec!["-xc", "-std=c99", "/g/src/scanner.c", "-xc", "/g/src/parser.c"];
    assert_eq!(&args[args.len() - 5..], &tail[..]);
}

#[test]
fn successful_posix_build_with_cpp_scanner() {
    let mut p = Pipeline::new(request(Platform::Posix));
    let args = run_successful_build(&mut p, false, true);
    let tail = vec!["/g/src/scanner.cc", "-xc", "/g/src/parser.c"];
    assert_eq!(&args[args.len() - 3..], &tail[..]);
    assert!(!args.iter().any(|a| a == "-std=c99"));
}

#[test]
fn both_scanners_present_selects_c_dialect() {
    let mut p = Pipeline::new(request(Platform::Posix));
    let args = run_successful_build(&mut p, true, true);
    assert!(args.iter().any(|a| a == "/g/src/scanner.c"));
    assert!(!args.iter().any(|a| a == "/g/src/scanner.cc"));
    assert!(args.iter().any(|a| a == "-std=c99"));
}

#[test]
fn successful_windows_build_without_scanner() {
    let mut p = Pipeline::new(request(Platform::Windows));
    let args = run_successful_build(&mut p, false, false);
    let expected = vec![
        "/nologo",
        "/LD",
        "/I",
        "/g/src",
        "/O2",
        "/g/src/parser.c",
        "/link",
        "/out:/a/c-dynlib/mylang.so",
    ];
    assert_eq!(args, expected);
}

#[test]
fn building_twice_with_the_same_destination_succeeds_both_times() {
    let mut first = Pipeline::new(request(Platform::Posix));
    let first_args = run_successful_build(&mut first, false, false);
    let mut second = Pipeline::new(request(Platform::Posix));
    let second_args = run_successful_build(&mut second, false, false);
    assert_eq!(first_args, second_args);
    assert!(first.is_done());
    assert!(second.is_done());
}

#[test]
fn generator_failure_aborts_before_any_compiler_work() {
    let mut p = Pipeline::new(request(Platform::Posix));
    assert!(matches!(p.next(Event::Start), Action::CreateDir { .. }));
    assert!(matches!(p.next(Event::DirCreated), Action::RunGenerator { .. }));
    let a = p.next(Event::GeneratorExited { success: false, stderr: "bad grammar".to_string() });
    assert!(matches!(a, Action::Fail));
    let message = p.error_message().unwrap();
    assert_eq!(message, "Failed to run \"tree-sitter generate\": bad grammar");
    assert!(message.contains("bad grammar"));
    // The failed state is terminal: no later event makes the pipeline create
    // the destination directory or invoke the compiler.
    assert!(matches!(p.next(Event::DirCreated), Action::Fail));
    assert!(matches!(
        p.next(Event::ToolchainResolved { toolchain: stub_toolchain() }),
        Action::Fail
    ));
    assert!(!p.is_done());
}

#[test]
fn generator_spawn_failure_aborts() {
    let mut p = Pipeline::new(request(Platform::Posix));
    p.next(Event::Start);
    p.next(Event::DirCreated);
    let a = p.next(Event::GeneratorSpawnFailed { message: "no such program".to_string() });
    assert!(matches!(a, Action::Fail));
    assert_eq!(
        p.error_message().unwrap(),
        "Failed to run \"tree-sitter generate\": no such program"
    );
}

#[test]
fn missing_parser_source_aborts_before_any_compiler_invocation() {
    let mut p = Pipeline::new(request(Platform::Posix));
    p.next(Event::Start);
    p.next(Event::DirCreated);
    p.next(Event::GeneratorExited { success: true, stderr: String::new() });
    p.next(Event::DirCreated);
    let a = p.next(Event::SourcesChecked {
        parser_exists: false,
        scanner_c_exists: true,
        scanner_cpp_exists: true,
    });
    assert!(matches!(a, Action::Fail));
    assert_eq!(
        p.error_message().unwrap(),
        "Missing required parser source: /g/src/parser.c"
    );
    assert!(matches!(
        p.next(Event::ToolchainResolved { toolchain: stub_toolchain() }),
        Action::Fail
    ));
}

#[test]
fn artifact_dir_failure_aborts() {
    let mut p = Pipeline::new(request(Platform::Posix));
    p.next(Event::Start);
    let a = p.next(Event::DirFailed { message: "read-only filesystem".to_string() });
    assert!(matches!(a, Action::Fail));
    assert_eq!(p.error_message().unwrap(), "read-only filesystem");
}

#[test]
fn compiler_failure_surfaces_both_streams() {
    let mut p = Pipeline::new(request(Platform::Posix));
    p.next(Event::Start);
    p.next(Event::DirCreated);
    p.next(Event::GeneratorExited { success: true, stderr: String::new() });
    p.next(Event::DirCreated);
    p.next(Event::SourcesChecked {
        parser_exists: true,
        scanner_c_exists: false,
        scanner_cpp_exists: false,
    });
    p.next(Event::ToolchainResolved { toolchain: stub_toolchain() });
    let a = p.next(Event::CompilerExited {
        success: false,
        stdout: "some notes".to_string(),
        stderr: "undefined symbol".to_string(),
    });
    assert!(matches!(a, Action::Fail));
    let message = p.error_message().unwrap();
    assert_eq!(
        message,
        "Parser compilation failed.\nStdout: some notes\nStderr: undefined symbol"
    );
    assert!(message.contains("some notes"));
    assert!(message.contains("undefined symbol"));
}

#[test]
fn toolchain_failure_aborts_with_toolchain_error() {
    let mut p = Pipeline::new(request(Platform::Posix));
    p.next(Event::Start);
    p.next(Event::DirCreated);
    p.next(Event::GeneratorExited { success: true, stderr: String::new() });
    p.next(Event::DirCreated);
    p.next(Event::SourcesChecked {
        parser_exists: true,
        scanner_c_exists: false,
        scanner_cpp_exists: false,
    });
    let a = p.next(Event::ToolchainFailed {
        error: BuildError::Toolchain { message: "unknown target".to_string() },
    });
    assert!(matches!(a, Action::Fail));
    assert_eq!(
        p.error_message().unwrap(),
        "Failed to resolve a native compiler: unknown target"
    );
}

#[test]
fn request_derives_the_fixed_relative_paths() {
    let r = request(Platform::Posix);
    assert_eq!(r.grammar_js(), "/g/grammar.js");
    assert_eq!(r.src_dir(), "/g/src");
    assert_eq!(r.dest_dir(), "/a/c-dynlib");
    assert_eq!(r.lib_name(), "mylang.so");
    assert_eq!(r.lib_path(), "/a/c-dynlib/mylang.so");
    assert_eq!(r.parser_path(), "/g/src/parser.c");
    assert_eq!(r.scanner_c_path(), "/g/src/scanner.c");
    assert_eq!(r.scanner_cpp_path(), "/g/src/scanner.cc");
}

#[test]
fn toolchain_resolution_failure_is_always_a_toolchain_error() {
    // What the detection facility answers depends on the machine; only the
    // shape of the answer is fixed.
    match resolve_toolchain("x86_64-unknown-linux-gnu") {
        Ok(toolchain) => assert!(!toolchain.path.is_empty()),
        Err(e) => assert!(matches!(e, BuildError::Toolchain { .. })),
    }
}
