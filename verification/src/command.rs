//! Construction of the compiler command line.
//!
//! The invocation is a pure function from the source paths, the include
//! directory and the output path to an ordered argument list, in one of two
//! closed conventions: a Windows-style one and a POSIX-style one. The parser
//! source is always compiled as plain C; a C-dialect scanner is forced to the
//! 1999 C standard, a C++-dialect scanner is passed as is.

use vstd::prelude::*;
use crate::request::ReqModel;
use crate::sources::ScannerDialect;

verus! {

/// Which command-line convention the native compiler takes.
#[derive(Clone, Copy, PartialEq, Eq, Debug, Structural)]
pub enum Platform {
    Windows,
    Posix,
}

/// A scanner source selected for compilation: its dialect and its path.
pub struct ScannerSource {
    pub dialect: ScannerDialect,
    pub path: String,
}

impl ScannerSource {
    pub open spec fn view(&self) -> (ScannerDialect, Seq<char>) {
        (self.dialect, self.path@)
    }
}

/// The mathematical value of an optional scanner source.
pub open spec fn spec_scanner_view(scanner: Option<ScannerSource>) -> Option<
    (ScannerDialect, Seq<char>),
> {
    match scanner {
        Some(s) => Some(s.view()),
        None => None,
    }
}

/// The arguments that place a scanner source on a POSIX-style command line:
/// a C-dialect scanner is forced to be compiled as C with the 1999 standard;
/// a C++-dialect scanner is passed bare.
pub open spec fn spec_posix_scanner_args(dialect: ScannerDialect, path: Seq<char>) -> Seq<
    Seq<char>,
> {
    match dialect {
        ScannerDialect::C => seq!["-xc"@, "-std=c99"@, path],
        ScannerDialect::Cpp => seq![path],
    }
}

/// The full POSIX-style argument list: shared-object output,
/// position-independent code, no exceptions, debug symbols, the include
/// directory, the output path, optimization, then the scanner arguments if a
/// scanner was selected, and last the parser source forced to plain C.
pub open spec fn spec_posix_args(
    include_dir: Seq<char>,
    lib_path: Seq<char>,
    parser_path: Seq<char>,
    scanner: Option<(ScannerDialect, Seq<char>)>,
) -> Seq<Seq<char>> {
    seq![
        "-shared"@,
        "-fPIC"@,
        "-fno-exceptions"@,
        "-g"@,
        "-I"@,
        include_dir,
        "-o"@,
        lib_path,
        "-O2"@,
    ] + (match scanner {
        Some((dialect, path)) => spec_posix_scanner_args(dialect, path),
        None => Seq::empty(),
    }) + seq!["-xc"@, parser_path]
}

/// The full Windows-style argument list: suppressed banner, dynamic-library
/// output, the include directory, optimization, the parser source, the
/// scanner source if one was selected, then the link stage naming the output
/// library.
pub open spec fn spec_windows_args(
    include_dir: Seq<char>,
    lib_path: Seq<char>,
    parser_path: Seq<char>,
    scanner: Option<(ScannerDialect, Seq<char>)>,
) -> Seq<Seq<char>> {
    seq!["/nologo"@, "/LD"@, "/I"@, include_dir, "/O2"@, parser_path] + (match scanner {
        Some((_dialect, path)) => seq![path],
        None => Seq::empty(),
    }) + seq!["/link"@, "/out:"@ + lib_path]
}

/// The argument list for a platform convention.
pub open spec fn spec_command_args(
    platform: Platform,
    include_dir: Seq<char>,
    lib_path: Seq<char>,
    parser_path: Seq<char>,
    scanner: Option<(ScannerDialect, Seq<char>)>,
) -> Seq<Seq<char>> {
    match platform {
        Platform::Windows => spec_windows_args(include_dir, lib_path, parser_path, scanner),
        Platform::Posix => spec_posix_args(include_dir, lib_path, parser_path, scanner),
    }
}

/// Builds the ordered compiler argument list for one invocation.
pub fn command_args(
    platform: Platform,
    include_dir: &str,
    lib_path: &str,
    parser_path: &str,
    scanner: &Option<ScannerSource>,
) -> (r: Vec<String>)
    ensures
        r.deep_view() == spec_command_args(
            platform,
            include_dir@,
            lib_path@,
            parser_path@,
            match *scanner {
                Some(ref s) => Some(s.view()),
                None => None::<(ScannerDialect, Seq<char>)>,
            },
        ),
{
    match platform {
        Platform::Windows => windows_args(include_dir, lib_path, parser_path, scanner),
        Platform::Posix => posix_args(include_dir, lib_path, parser_path, scanner),
    }
}

/// Builds the POSIX-style argument list.
pub fn posix_args(
    include_dir: &str,
    lib_path: &str,
    parser_path: &str,
    scanner: &Option<ScannerSource>,
) -> (r: Vec<String>)
    ensures
        r.deep_view() == spec_posix_args(
            include_dir@,
            lib_path@,
            parser_path@,
            match *scanner {
                Some(ref s) => Some(s.view()),
                None => None::<(ScannerDialect, Seq<char>)>,
            },
        ),
{
    let mut r: Vec<String> = Vec::new();
    r.push(String::from_str("-shared"));
    r.push(String::from_str("-fPIC"));
    r.push(String::from_str("-fno-exceptions"));
    r.push(String::from_str("-g"));
    r.push(String::from_str("-I"));
    r.push(String::from_str(include_dir));
    r.push(String::from_str("-o"));
    r.push(String::from_str(lib_path));
    r.push(String::from_str("-O2"));
    match scanner {
        Some(s) => {
            match s.dialect {
                ScannerDialect::C => {
                    r.push(String::from_str("-xc"));
                    r.push(String::from_str("-std=c99"));
                    r.push(String::from_str(s.path.as_str()));
                },
                ScannerDialect::Cpp => {
                    r.push(String::from_str(s.path.as_str()));
                },
            }
        },
        None => {},
    }
    r.push(String::from_str("-xc"));
    r.push(String::from_str(parser_path));
    proof {
        assert(r.deep_view() =~~= spec_posix_args(
            include_dir@,
            lib_path@,
            parser_path@,
            match *scanner {
                Some(ref s) => Some(s.view()),
                None => None::<(ScannerDialect, Seq<char>)>,
            },
        ));
    }
    r
}

/// Builds the Windows-style argument list.
pub fn windows_args(
    include_dir: &str,
    lib_path: &str,
    parser_path: &str,
    scanner: &Option<ScannerSource>,
) -> (r: Vec<String>)
    ensures
        r.deep_view() == spec_windows_args(
            include_dir@,
            lib_path@,
            parser_path@,
            match *scanner {
                Some(ref s) => Some(s.view()),
                None => None::<(ScannerDialect, Seq<char>)>,
            },
        ),
{
    let mut r: Vec<String> = Vec::new();
    r.push(String::from_str("/nologo"));
    r.push(String::from_str("/LD"));
    r.push(String::from_str("/I"));
    r.push(String::from_str(include_dir));
    r.push(String::from_str("/O2"));
    r.push(String::from_str(parser_path));
    match scanner {
        Some(s) => {
            r.push(String::from_str(s.path.as_str()));
        },
        None => {},
    }
    r.push(String::from_str("/link"));
    r.push(String::from_str("/out:").concat(lib_path));
    proof {
        assert(r.deep_view() =~~= spec_windows_args(
            include_dir@,
            lib_path@,
            parser_path@,
            match *scanner {
                Some(ref s) => Some(s.view()),
                None => None::<(ScannerDialect, Seq<char>)>,
            },
        ));
    }
    r
}

/// Two character sequences differ when their lengths differ or their last
/// characters differ.
proof fn lemma_ne_sequences(a: Seq<char>, b: Seq<char>)
    requires
        a.len() != b.len() || (a.len() > 0 && a.last() != b.last()),
    ensures
        a != b,
{
    if a == b {
        assert(a.len() == b.len());
        if a.len() > 0 {
            assert(a.last() == b.last());
        }
    }
}

/// The shape of the paths a request derives: each source path ends in the
/// character `c` and is longer than the source directory by the length of its
/// fixed suffix, and the library path ends in the character `o`. These facts
/// keep the derived paths apart from each other and from every fixed flag.
proof fn lemma_path_shape(req: ReqModel)
    ensures
        req.src_dir().len() == req.grammar_path.len() + 4,
        req.parser_path().len() == req.src_dir().len() + 9,
        req.parser_path().last() == 'c',
        req.scanner_c_path().len() == req.src_dir().len() + 10,
        req.scanner_c_path().last() == 'c',
        req.scanner_cpp_path().len() == req.src_dir().len() + 11,
        req.scanner_cpp_path().last() == 'c',
        req.src_dir().len() > 0,
        req.src_dir().last() == 'c',
        req.lib_path().len() > 0,
        req.lib_path().last() == 'o',
{
    reveal_strlit("/src");
    reveal_strlit("/parser.c");
    reveal_strlit("/scanner.c");
    reveal_strlit("/scanner.cc");
    reveal_strlit("/c-dynlib");
    reveal_strlit("/");
    reveal_strlit(".so");
    assert(req.parser_path().last() == "/parser.c"@.last());
    assert(req.scanner_c_path().last() == "/scanner.c"@.last());
    assert(req.scanner_cpp_path().last() == "/scanner.cc"@.last());
    assert(req.src_dir().last() == "/src"@.last());
    assert(req.lib_path().last() == (req.grammar_name + ".so"@).last());
    assert((req.grammar_name + ".so"@).last() == ".so"@.last());
}

/// With a parser source and no scanner, the POSIX-style invocation holds the
/// parser source exactly once — as the last argument, forced to plain C — and
/// holds neither scanner candidate nor the C-dialect standard flag.
pub proof fn lemma_posix_invocation_no_scanner(req: ReqModel)
    ensures
        ({
            let m = spec_posix_args(req.src_dir(), req.lib_path(), req.parser_path(), None);
            &&& m.len() == 11
            &&& m[9] == "-xc"@
            &&& m[10] == req.parser_path()
            &&& forall|i: int| 0 <= i < m.len() && i != 10 ==> m[i] != req.parser_path()
            &&& forall|i: int| 0 <= i < m.len() ==> m[i] != req.scanner_c_path()
            &&& forall|i: int| 0 <= i < m.len() ==> m[i] != req.scanner_cpp_path()
            &&& forall|i: int| 0 <= i < m.len() ==> m[i] != "-std=c99"@
        }),
{
    let m = spec_posix_args(req.src_dir(), req.lib_path(), req.parser_path(), None);
    lemma_path_shape(req);
    reveal_strlit("-shared");
    reveal_strlit("-fPIC");
    reveal_strlit("-fno-exceptions");
    reveal_strlit("-g");
    reveal_strlit("-I");
    reveal_strlit("-o");
    reveal_strlit("-O2");
    reveal_strlit("-xc");
    reveal_strlit("-std=c99");
    assert(m =~= seq![
        "-shared"@,
        "-fPIC"@,
        "-fno-exceptions"@,
        "-g"@,
        "-I"@,
        req.src_dir(),
        "-o"@,
        req.lib_path(),
        "-O2"@,
        "-xc"@,
        req.parser_path(),
    ]);
    assert forall|i: int| 0 <= i < m.len() && i != 10 implies m[i] != req.parser_path() by {
        lemma_ne_sequences("-shared"@, req.parser_path());
        lemma_ne_sequences("-fPIC"@, req.parser_path());
        lemma_ne_sequences("-fno-exceptions"@, req.parser_path());
        lemma_ne_sequences("-g"@, req.parser_path());
        lemma_ne_sequences("-I"@, req.parser_path());
        lemma_ne_sequences(req.src_dir(), req.parser_path());
        lemma_ne_sequences("-o"@, req.parser_path());
        lemma_ne_sequences(req.lib_path(), req.parser_path());
        lemma_ne_sequences("-O2"@, req.parser_path());
        lemma_ne_sequences("-xc"@, req.parser_path());
    }
    assert forall|i: int| 0 <= i < m.len() implies m[i] != req.scanner_c_path() by {
        lemma_ne_sequences("-shared"@, req.scanner_c_path());
        lemma_ne_sequences("-fPIC"@, req.scanner_c_path());
        lemma_ne_sequences("-fno-exceptions"@, req.scanner_c_path());
        lemma_ne_sequences("-g"@, req.scanner_c_path());
        lemma_ne_sequences("-I"@, req.scanner_c_path());
        lemma_ne_sequences(req.src_dir(), req.scanner_c_path());
        lemma_ne_sequences("-o"@, req.scanner_c_path());
        lemma_ne_sequences(req.lib_path(), req.scanner_c_path());
        lemma_ne_sequences("-O2"@, req.scanner_c_path());
        lemma_ne_sequences("-xc"@, req.scanner_c_path());
        lemma_ne_sequences(req.parser_path(), req.scanner_c_path());
    }
    assert forall|i: int| 0 <= i < m.len() implies m[i] != req.scanner_cpp_path() by {
        lemma_ne_sequences("-shared"@, req.scanner_cpp_path());
        lemma_ne_sequences("-fPIC"@, req.scanner_cpp_path());
        lemma_ne_sequences("-fno-exceptions"@, req.scanner_cpp_path());
        lemma_ne_sequences("-g"@, req.scanner_cpp_path());
        lemma_ne_sequences("-I"@, req.scanner_cpp_path());
        lemma_ne_sequences(req.src_dir(), req.scanner_cpp_path());
        lemma_ne_sequences("-o"@, req.scanner_cpp_path());
        lemma_ne_sequences(req.lib_path(), req.scanner_cpp_path());
        lemma_ne_sequences("-O2"@, req.scanner_cpp_path());
        lemma_ne_sequences("-xc"@, req.scanner_cpp_path());
        lemma_ne_sequences(req.parser_path(), req.scanner_cpp_path());
    }
    assert forall|i: int| 0 <= i < m.len() implies m[i] != "-std=c99"@ by {
        lemma_ne_sequences("-shared"@, "-std=c99"@);
        lemma_ne_sequences("-fPIC"@, "-std=c99"@);
        lemma_ne_sequences("-fno-exceptions"@, "-std=c99"@);
        lemma_ne_sequences("-g"@, "-std=c99"@);
        lemma_ne_sequences("-I"@, "-std=c99"@);
        lemma_ne_sequences(req.src_dir(), "-std=c99"@);
        lemma_ne_sequences("-o"@, "-std=c99"@);
        lemma_ne_sequences(req.lib_path(), "-std=c99"@);
        lemma_ne_sequences("-O2"@, "-std=c99"@);
        lemma_ne_sequences("-xc"@, "-std=c99"@);
        lemma_ne_sequences(req.parser_path(), "-std=c99"@);
    }
}

/// With a parser source and no scanner, the Windows-style invocation holds
/// the parser source exactly once and holds neither scanner candidate.
pub proof fn lemma_windows_invocation_no_scanner(req: ReqModel)
    ensures
        ({
            let m = spec_windows_args(req.src_dir(), req.lib_path(), req.parser_path(), None);
            &&& m.len() == 8
            &&& m[5] == req.parser_path()
            &&& forall|i: int| 0 <= i < m.len() && i != 5 ==> m[i] != req.parser_path()
            &&& forall|i: int| 0 <= i < m.len() ==> m[i] != req.scanner_c_path()
            &&& forall|i: int| 0 <= i < m.len() ==> m[i] != req.scanner_cpp_path()
        }),
{
    let m = spec_windows_args(req.src_dir(), req.lib_path(), req.parser_path(), None);
    lemma_path_shape(req);
    reveal_strlit("/nologo");
    reveal_strlit("/LD");
    reveal_strlit("/I");
    reveal_strlit("/O2");
    reveal_strlit("/link");
    reveal_strlit("/out:");
    assert(m =~= seq![
        "/nologo"@,
        "/LD"@,
        "/I"@,
        req.src_dir(),
        "/O2"@,
        req.parser_path(),
        "/link"@,
        "/out:"@ + req.lib_path(),
    ]);
    assert(("/out:"@ + req.lib_path()).last() == req.lib_path().last());
    assert forall|i: int| 0 <= i < m.len() && i != 5 implies m[i] != req.parser_path() by {
        lemma_ne_sequences("/nologo"@, req.parser_path());
        lemma_ne_sequences("/LD"@, req.parser_path());
        lemma_ne_sequences("/I"@, req.parser_path());
        lemma_ne_sequences(req.src_dir(), req.parser_path());
        lemma_ne_sequences("/O2"@, req.parser_path());
        lemma_ne_sequences("/link"@, req.parser_path());
        lemma_ne_sequences("/out:"@ + req.lib_path(), req.parser_path());
    }
    assert forall|i: int| 0 <= i < m.len() implies m[i] != req.scanner_c_path() by {
        lemma_ne_sequences("/nologo"@, req.scanner_c_path());
        lemma_ne_sequences("/LD"@, req.scanner_c_path());
        lemma_ne_sequences("/I"@, req.scanner_c_path());
        lemma_ne_sequences(req.src_dir(), req.scanner_c_path());
        lemma_ne_sequences("/O2"@, req.scanner_c_path());
        lemma_ne_sequences(req.parser_path(), req.scanner_c_path());
        lemma_ne_sequences("/link"@, req.scanner_c_path());
        lemma_ne_sequences("/out:"@ + req.lib_path(), req.scanner_c_path());
    }
    assert forall|i: int| 0 <= i < m.len() implies m[i] != req.scanner_cpp_path() by {
        lemma_ne_sequences("/nologo"@, req.scanner_cpp_path());
        lemma_ne_sequences("/LD"@, req.scanner_cpp_path());
        lemma_ne_sequences("/I"@, req.scanner_cpp_path());
        lemma_ne_sequences(req.src_dir(), req.scanner_cpp_path());
        lemma_ne_sequences("/O2"@, req.scanner_cpp_path());
        lemma_ne_sequences(req.parser_path(), req.scanner_cpp_path());
        lemma_ne_sequences("/link"@, req.scanner_cpp_path());
        lemma_ne_sequences("/out:"@ + req.lib_path(), req.scanner_cpp_path());
    }
}

/// With only the C-dialect scanner, the POSIX-style invocation compiles the
/// scanner with the C-dialect flags — forced to C with the 1999 standard —
/// and the scanner stands before the parser source.
pub proof fn lemma_posix_invocation_scanner_c(req: ReqModel)
    ensures
        ({
            let m = spec_posix_args(
                req.src_dir(),
                req.lib_path(),
                req.parser_path(),
                Some((ScannerDialect::C, req.scanner_c_path())),
            );
            &&& m.len() == 14
            &&& m[9] == "-xc"@
            &&& m[10] == "-std=c99"@
            &&& m[11] == req.scanner_c_path()
            &&& m[12] == "-xc"@
            &&& m[13] == req.parser_path()
        }),
{
    let m = spec_posix_args(
        req.src_dir(),
        req.lib_path(),
        req.parser_path(),
        Some((ScannerDialect::C, req.scanner_c_path())),
    );
    assert(m =~= seq![
        "-shared"@,
        "-fPIC"@,
        "-fno-exceptions"@,
        "-g"@,
        "-I"@,
        req.src_dir(),
        "-o"@,
        req.lib_path(),
        "-O2"@,
        "-xc"@,
        "-std=c99"@,
        req.scanner_c_path(),
        "-xc"@,
        req.parser_path(),
    ]);
}

/// With only the C++-dialect scanner, the POSIX-style invocation includes the
/// scanner bare — the C-dialect standard flag occurs nowhere in the argument
/// list — and the scanner still stands before the parser source.
pub proof fn lemma_posix_invocation_scanner_cpp(req: ReqModel)
    ensures
        ({
            let m = spec_posix_args(
                req.src_dir(),
                req.lib_path(),
                req.parser_path(),
                Some((ScannerDialect::Cpp, req.scanner_cpp_path())),
            );
            &&& m.len() == 12
            &&& m[9] == req.scanner_cpp_path()
            &&& m[10] == "-xc"@
            &&& m[11] == req.parser_path()
            &&& forall|i: int| 0 <= i < m.len() ==> m[i] != "-std=c99"@
        }),
{
    let m = spec_posix_args(
        req.src_dir(),
        req.lib_path(),
        req.parser_path(),
        Some((ScannerDialect::Cpp, req.scanner_cpp_path())),
    );
    lemma_path_shape(req);
    reveal_strlit("-shared");
    reveal_strlit("-fPIC");
    reveal_strlit("-fno-exceptions");
    reveal_strlit("-g");
    reveal_strlit("-I");
    reveal_strlit("-o");
    reveal_strlit("-O2");
    reveal_strlit("-xc");
    reveal_strlit("-std=c99");
    assert(m =~= seq![
        "-shared"@,
        "-fPIC"@,
        "-fno-exceptions"@,
        "-g"@,
        "-I"@,
        req.src_dir(),
        "-o"@,
        req.lib_path(),
        "-O2"@,
        req.scanner_cpp_path(),
        "-xc"@,
        req.parser_path(),
    ]);
    assert forall|i: int| 0 <= i < m.len() implies m[i] != "-std=c99"@ by {
        lemma_ne_sequences("-shared"@, "-std=c99"@);
        lemma_ne_sequences("-fPIC"@, "-std=c99"@);
        lemma_ne_sequences("-fno-exceptions"@, "-std=c99"@);
        lemma_ne_sequences("-g"@, "-std=c99"@);
        lemma_ne_sequences("-I"@, "-std=c99"@);
        lemma_ne_sequences(req.src_dir(), "-std=c99"@);
        lemma_ne_sequences("-o"@, "-std=c99"@);
        lemma_ne_sequences(req.lib_path(), "-std=c99"@);
        lemma_ne_sequences("-O2"@, "-std=c99"@);
        lemma_ne_sequences(req.scanner_cpp_path(), "-std=c99"@);
        lemma_ne_sequences(req.parser_path(), "-std=c99"@);
    }
}

} // verus!
