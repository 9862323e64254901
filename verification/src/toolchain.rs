//! Discovery of the native compiler for a target triple.
//!
//! The toolchain is found by an outside detection facility; what it returns
//! depends on the machine and its environment, so nothing is promised about
//! the path or the variables that come back. Host and target are deliberately
//! the same triple: the build is not a genuine cross-compilation.

use vstd::prelude::*;
use crate::errors::BuildError;

verus! {

/// The mathematical value of a resolved toolchain: the compiler path and its
/// environment variables, as character sequences.
pub struct ToolchainModel {
    pub path: Seq<char>,
    pub env: Seq<(Seq<char>, Seq<char>)>,
}

/// A resolved native compiler: its executable path and the environment
/// variables it must run with.
#[derive(Debug)]
pub struct Toolchain {
    pub path: String,
    pub env: Vec<(String, String)>,
}

impl View for Toolchain {
    type V = ToolchainModel;

    open spec fn view(&self) -> ToolchainModel {
        ToolchainModel { path: self.path@, env: self.env.deep_view() }
    }
}

/// Relies on cc::Build::try_get_compiler: configured for C++ with host equal
/// to target, it resolves a compiler executable and the environment variables
/// that compiler needs, or reports why none was found. The result depends on
/// the machine and its environment, so no ensures pins it down.
#[verifier::external_body]
fn discover_compiler(target: &str) -> (r: Result<(String, Vec<(String, String)>), String>) {
    let mut build = cc::Build::new();
    build.cpp(true).opt_level(2).cargo_metadata(false).target(target).host(target);
    match build.try_get_compiler() {
        Ok(tool) => {
            let path = tool.path().to_string_lossy().into_owned();
            let env = tool.env().iter().map(
                |(k, v)| (k.to_string_lossy().into_owned(), v.to_string_lossy().into_owned()),
            ).collect();
            Ok((path, env))
        },
        Err(e) => Err(format!("{}", e)),
    }
}

/// Resolves the native compiler for a target triple. Whatever the detection
/// facility answers, a failure is surfaced as a toolchain error and never as
/// any other kind.
pub fn resolve_toolchain(target: &str) -> (r: Result<Toolchain, BuildError>)
    ensures
        r matches Err(e) ==> e is Toolchain,
{
    match discover_compiler(target) {
        Ok((path, env)) => Ok(Toolchain { path, env }),
        Err(message) => Err(BuildError::Toolchain { message }),
    }
}

} // verus!
