//! The test-case data model: binaries, cases, and the catalog.

use vstd::prelude::*;

verus! {

/// One compiled test artifact: where it lives on disk, a stable logical
/// identifier used for reporting and partition hashing, and an optional
/// working-directory override. Immutable once constructed.
#[derive(Debug)]
pub struct TestBinary {
    pub path: String,
    pub binary_id: String,
    pub cwd: Option<String>,
}

/// One discoverable test inside a binary, identified by the pair
/// (binary_id, name); `ignored` is the flag the binary itself reports.
/// Immutable once constructed.
#[derive(Debug)]
pub struct TestCase {
    pub binary_id: String,
    pub name: String,
    pub ignored: bool,
}

/// True when `c` is the case of binary `bin` named `nm` with ignored flag
/// `ig`, compared by character content.
pub open spec fn case_is(c: TestCase, bin: Seq<char>, nm: Seq<char>, ig: bool) -> bool {
    &&& c.binary_id@ == bin
    &&& c.name@ == nm
    &&& c.ignored == ig
}

/// An ordered sequence of test cases: binary enumeration order first, then
/// discovery order within each binary. The order matters only for display.
#[derive(Debug)]
pub struct TestCatalog {
    pub cases: Vec<TestCase>,
}

impl TestCatalog {
    /// Number of cases in the catalog.
    pub fn len(&self) -> (n: usize)
        ensures
            n == self.cases@.len(),
    {
        self.cases.len()
    }
}

} // verus!
