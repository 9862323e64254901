use dynlib_builder::command::{command_args, posix_args, windows_args, Platform, ScannerSource};
use dynlib_builder::sources::{resolve_scanner, ScannerDialect};

#[test]
fn resolve_scanner_none_when_no_file_exists() {
    assert!(resolve_scanner(false, false).is_none());
}

#[test]
fn resolve_scanner_picks_c_when_only_c_exists() {
    assert!(matches!(resolve_scanner(true, false), Some(ScannerDialect::C)));
}

#[test]
fn resolve_scanner_picks_cpp_when_only_cpp_exists() {
    assert!(matches!(resolve_scanner(false, true), Some(ScannerDialect::Cpp)));
}

#[test]
fn resolve_scanner_prefers_c_when_both_exist() {
    assert!(matches!(resolve_scanner(true, true), Some(ScannerDialect::C)));
}

#[test]
fn posix_args_without_scanner() {
    let args = posix_args("/g/src", "/a/c-dynlib/lang.so", "/g/src/parser.c", &None);
    let expected = vec![
        "-shared",
        "-fPIC",
        "-fno-exceptions",
        "-g",
        "-I",
        "/g/src",
        "-o",
        "/a/c-dynlib/lang.so",
        "-O2",
        "-xc",
        "/g/src/parser.c",
    ];
    assert_eq!(args, expected);
    let parser_count = args.iter().filter(|a| a.as_str() == "/g/src/parser.c").count();
    assert_eq!(parser_count, 1);
    assert!(args.iter().all(|a| !a.contains("scanner")));
}

#[test]
fn posix_args_with_c_scanner_force_c_dialect_before_parser() {
    let scanner = Some(ScannerSource {
        dialect: ScannerDialect::C,
        path: "/g/src/scanner.c".to_string(),
    });
    let args = posix_args("/g/src", "/a/c-dynlib/lang.so", "/g/src/parser.c", &scanner);
    let expected = vec![
        "-shared",
        "-fPIC",
        "-fno-exceptions",
        "-g",
        "-I",
        "/g/src",
        "-o",
        "/a/c-dynlib/lang.so",
        "-O2",
        "-xc",
        "-std=c99",
        "/g/src/scanner.c",
        "-xc",
        "/g/src/parser.c",
    ];
    assert_eq!(args, expected);
    let scanner_pos = args.iter().position(|a| a == "/g/src/scanner.c").unwrap();
    let parser_pos = args.iter().position(|a| a == "/g/src/parser.c").unwrap();
    assert!(scanner_pos < parser_pos);
    assert_eq!(args[scanner_pos - 1], "-std=c99");
    assert_eq!(args[scanner_pos - 2], "-xc");
}

#[test]
fn posix_args_with_cpp_scanner_has_no_c_dialect_flag_for_it() {
    let scanner = Some(ScannerSource {
        dialect: ScannerDialect::Cpp,
        path: "/g/src/scanner.cc".to_string(),
    });
    let args = posix_args("/g/src", "/a/c-dynlib/lang.so", "/g/src/parser.c", &scanner);
    let expected = vec![
        "-shared",
        "-fPIC",
        "-fno-exceptions",
        "-g",
        "-I",
        "/g/src",
        "-o",
        "/a/c-dynlib/lang.so",
        "-O2",
        "/g/src/scanner.cc",
        "-xc",
        "/g/src/parser.c",
    ];
    assert_eq!(args, expected);
    assert!(!args.iter().any(|a| a == "-std=c99"));
    let scanner_pos = args.iter().position(|a| a == "/g/src/scanner.cc").unwrap();
    let parser_pos = args.iter().position(|a| a == "/g/src/parser.c").unwrap();
    assert!(scanner_pos < parser_pos);
    assert_eq!(args[scanner_pos - 1], "-O2");
}

#[test]
fn windows_args_without_scanner() {
    let args = windows_args("g\\src", "a\\c-dynlib\\lang.so", "g\\src\\parser.c", &None);
    let expected = vec![
        "/nologo",
        "/LD",
        "/I",
        "g\\src",
        "/O2",
        "g\\src\\parser.c",
        "/link",
        "/out:a\\c-dynlib\\lang.so",
    ];
    assert_eq!(args, expected);
    let parser_count = args.iter().filter(|a| a.as_str() == "g\\src\\parser.c").count();
    assert_eq!(parser_count, 1);
}

#[test]
fn windows_args_with_scanner_after_parser() {
    let scanner = Some(ScannerSource {
        dialect: ScannerDialect::C,
        path: "g\\src\\scanner.c".to_string(),
    });
    let args = windows_args("g\\src", "a\\c-dynlib\\lang.so", "g\\src\\parser.c", &scanner);
    let expected = vec![
        "/nologo",
        "/LD",
        "/I",
        "g\\src",
        "/O2",
        "g\\src\\parser.c",
        "g\\src\\scanner.c",
        "/link",
        "/out:a\\c-dynlib\\lang.so",
    ];
    assert_eq!(args, expected);
}

#[test]
fn command_args_dispatches_on_platform() {
    let posix = command_args(Platform::Posix, "/g/src", "/o.so", "/p.c", &None);
    assert_eq!(posix[0], "-shared");
    let windows = command_args(Platform::Windows, "/g/src", "/o.so", "/p.c", &None);
    assert_eq!(windows[0], "/nologo");
}
