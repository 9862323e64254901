//! Resolution of the optional scanner source.
//!
//! A build compiles a required parser source and at most one optional scanner
//! source. The scanner may exist in a C dialect or a C++ dialect; when both
//! files are present the C dialect takes precedence.

use vstd::prelude::*;

verus! {

/// The source dialect of an optional scanner file.
#[derive(Clone, Copy, PartialEq, Eq, Debug, Structural)]
pub enum ScannerDialect {
    C,
    Cpp,
}

/// Which scanner dialect a build uses, given which scanner files exist.
///
/// The C dialect takes precedence over the C++ dialect; with neither file
/// present the build proceeds without a scanner.
pub open spec fn spec_resolve_scanner(c_exists: bool, cpp_exists: bool) -> Option<ScannerDialect> {
    if c_exists {
        Some(ScannerDialect::C)
    } else if cpp_exists {
        Some(ScannerDialect::Cpp)
    } else {
        None
    }
}

/// Picks the scanner dialect to compile from the existence of the two
/// candidate scanner files.
pub fn resolve_scanner(c_exists: bool, cpp_exists: bool) -> (r: Option<ScannerDialect>)
    ensures
        r == spec_resolve_scanner(c_exists, cpp_exists),
{
    if c_exists {
        Some(ScannerDialect::C)
    } else if cpp_exists {
        Some(ScannerDialect::Cpp)
    } else {
        None
    }
}

/// Precedence law: whenever the C-dialect scanner exists, it is selected,
/// whatever the C++-dialect file does; in particular, with both files present
/// the C dialect wins. A scanner is selected exactly when some scanner file
/// exists.
pub proof fn lemma_scanner_precedence(c_exists: bool, cpp_exists: bool)
    ensures
        c_exists ==> spec_resolve_scanner(c_exists, cpp_exists) == Some(ScannerDialect::C),
        !c_exists && cpp_exists ==> spec_resolve_scanner(c_exists, cpp_exists) == Some(
            ScannerDialect::Cpp,
        ),
        spec_resolve_scanner(c_exists, cpp_exists) is Some <==> (c_exists || cpp_exists),
{
}

} // verus!
