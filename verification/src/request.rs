//! The immutable description of one build and the file paths derived from it.
//!
//! A build request names the grammar root, the artifact output directory, the
//! grammar and the target triple. Every path the pipeline touches is derived
//! from these by fixed relative conventions: the grammar definition at
//! `grammar.js` under the grammar root, the generated sources under `src/`,
//! and the produced library at `c-dynlib/<grammar-name>.so` under the
//! artifact directory.

use vstd::prelude::*;
use crate::command::Platform;

verus! {

/// The mathematical value of a build request: each path and name as a
/// character sequence, and the platform convention.
pub struct ReqModel {
    pub grammar_path: Seq<char>,
    pub artifact_path: Seq<char>,
    pub grammar_name: Seq<char>,
    pub target: Seq<char>,
    pub platform: Platform,
}

impl ReqModel {
    /// The grammar definition file handed to the generator.
    pub open spec fn grammar_js(self) -> Seq<char> {
        self.grammar_path + "/grammar.js"@
    }

    /// Directory the generated sources land in.
    pub open spec fn src_dir(self) -> Seq<char> {
        self.grammar_path + "/src"@
    }

    /// Directory the compiled library is written to.
    pub open spec fn dest_dir(self) -> Seq<char> {
        self.artifact_path + "/c-dynlib"@
    }

    /// File name of the compiled library.
    pub open spec fn lib_name(self) -> Seq<char> {
        self.grammar_name + ".so"@
    }

    /// Full path of the compiled library.
    pub open spec fn lib_path(self) -> Seq<char> {
        self.dest_dir() + "/"@ + self.lib_name()
    }

    /// The required parser source.
    pub open spec fn parser_path(self) -> Seq<char> {
        self.src_dir() + "/parser.c"@
    }

    /// The C-dialect scanner candidate.
    pub open spec fn scanner_c_path(self) -> Seq<char> {
        self.src_dir() + "/scanner.c"@
    }

    /// The C++-dialect scanner candidate.
    pub open spec fn scanner_cpp_path(self) -> Seq<char> {
        self.src_dir() + "/scanner.cc"@
    }
}

/// One build: where the grammar lives, where artifacts go, what the library
/// is called, and for which target triple and platform convention it is
/// compiled. Created once from user input and immutable for the run.
pub struct BuildRequest {
    /// Directory that holds the grammar definition and, after generation,
    /// the generated parser sources.
    pub grammar_path: String,
    /// Working and output directory for everything this build produces.
    pub artifact_path: String,
    /// Name of the grammar; names the produced library file.
    pub grammar_name: String,
    /// Target triple the library is compiled for.
    pub target: String,
    /// Which command-line convention the native compiler takes.
    pub platform: Platform,
}

impl View for BuildRequest {
    type V = ReqModel;

    open spec fn view(&self) -> ReqModel {
        ReqModel {
            grammar_path: self.grammar_path@,
            artifact_path: self.artifact_path@,
            grammar_name: self.grammar_name@,
            target: self.target@,
            platform: self.platform,
        }
    }
}

impl BuildRequest {
    pub fn grammar_js(&self) -> (r: String)
        ensures
            r@ == self@.grammar_js(),
    {
        String::from_str(self.grammar_path.as_str()).concat("/grammar.js")
    }

    pub fn src_dir(&self) -> (r: String)
        ensures
            r@ == self@.src_dir(),
    {
        String::from_str(self.grammar_path.as_str()).concat("/src")
    }

    pub fn dest_dir(&self) -> (r: String)
        ensures
            r@ == self@.dest_dir(),
    {
        String::from_str(self.artifact_path.as_str()).concat("/c-dynlib")
    }

    pub fn lib_name(&self) -> (r: String)
        ensures
            r@ == self@.lib_name(),
    {
        String::from_str(self.grammar_name.as_str()).concat(".so")
    }

    pub fn lib_path(&self) -> (r: String)
        ensures
            r@ == self@.lib_path(),
    {
        let r = self.dest_dir().concat("/").concat(self.lib_name().as_str());
        proof {
            assert(r@ =~= self@.lib_path());
        }
        r
    }

    pub fn parser_path(&self) -> (r: String)
        ensures
            r@ == self@.parser_path(),
    {
        let r = self.src_dir().concat("/parser.c");
        proof {
            assert(r@ =~= self@.parser_path());
        }
        r
    }

    pub fn scanner_c_path(&self) -> (r: String)
        ensures
            r@ == self@.scanner_c_path(),
    {
        let r = self.src_dir().concat("/scanner.c");
        proof {
            assert(r@ =~= self@.scanner_c_path());
        }
        r
    }

    pub fn scanner_cpp_path(&self) -> (r: String)
        ensures
            r@ == self@.scanner_cpp_path(),
    {
        let r = self.src_dir().concat("/scanner.cc");
        proof {
            assert(r@ =~= self@.scanner_cpp_path());
        }
        r
    }
}

} // verus!
