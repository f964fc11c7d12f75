//! Catalog discovery: invoke each binary's self-listing capability and
//! collect the declared test cases. A failure for one binary aborts the
//! whole discovery — there are no partial catalogs.

use vstd::prelude::*;
use crate::invoke::{list_args, run_command_captured, CapturedRun};
use crate::listing::{parse_test_list, spec_parse_list};
use crate::model::{case_is, TestBinary, TestCase, TestCatalog};

verus! {

/// Why discovery failed, naming the offending binary: it could not be
/// executed in list mode, it exited unsuccessfully, or its output did not
/// follow the listing protocol.
#[derive(Debug)]
pub enum DiscoveryError {
    ListFailed { binary_id: String, message: String },
    ListExit { binary_id: String, exit_code: Option<i32> },
    Unparsable { binary_id: String },
}

impl DiscoveryError {
    /// The identifier of the binary the error names.
    pub open spec fn spec_binary_id(&self) -> Seq<char> {
        match self {
            DiscoveryError::ListFailed { binary_id, .. } => binary_id@,
            DiscoveryError::ListExit { binary_id, .. } => binary_id@,
            DiscoveryError::Unparsable { binary_id } => binary_id@,
        }
    }
}

/// Append one case per name to `cases`, all owned by `binary_id` and all
/// carrying the same ignored flag; earlier cases are untouched.
fn append_cases(cases: &mut Vec<TestCase>, binary_id: &String, names: &Vec<String>, ignored: bool)
    ensures
        final(cases)@.len() == old(cases)@.len() + names@.len(),
        forall|t: int| 0 <= t < old(cases)@.len() ==> final(cases)@[t] == old(cases)@[t],
        forall|k: int|
            0 <= k < names@.len() ==> case_is(final(cases)@[old(cases)@.len() + k], binary_id@,
                names.deep_view()[k], ignored),
{
    let mut k: usize = 0;
    while k < names.len()
        invariant
            k <= names@.len(),
            cases@.len() == old(cases)@.len() + k,
            forall|t: int| 0 <= t < old(cases)@.len() ==> cases@[t] == old(cases)@[t],
            forall|t: int|
                0 <= t < k ==> case_is(cases@[old(cases)@.len() + t], binary_id@,
                    names.deep_view()[t], ignored),
        decreases names@.len() - k,
    {
        let name = names[k].clone();
        cases.push(TestCase { binary_id: binary_id.clone(), name, ignored });
        k = k + 1;
    }
}

/// Why one listing invocation yields no names, before the binary is named:
/// the child exited unsuccessfully in list mode, or its output did not
/// follow the listing protocol.
#[derive(Debug, Clone, Copy, PartialEq, Eq)]
pub enum ListingError {
    BadExit { exit_code: Option<i32> },
    Unparsable,
}

/// Decide what one captured listing invocation means. This is the whole
/// dispatch on the outside call's result: anything but exit code 0 is a
/// BadExit carrying the code; exit code 0 with output that follows the
/// protocol yields exactly the parsed names, in declaration order; exit
/// code 0 with any other output is Unparsable.
pub fn classify_listing(cap: &CapturedRun) -> (r: Result<Vec<String>, ListingError>)
    ensures
        cap.exit_code != Some(0i32) ==> r == Err::<Vec<String>, ListingError>(
            ListingError::BadExit { exit_code: cap.exit_code },
        ),
        cap.exit_code == Some(0i32) && spec_parse_list(cap.stdout@) is None ==> r == Err::<
            Vec<String>,
            ListingError,
        >(ListingError::Unparsable),
        r matches Ok(names) ==> cap.exit_code == Some(0i32) && spec_parse_list(cap.stdout@)
            == Some(names.deep_view()),
        (r is Ok) <==> (cap.exit_code == Some(0i32) && spec_parse_list(cap.stdout@) is Some),
{
    let exit_ok = match cap.exit_code {
        Some(c) => c == 0,
        None => false,
    };
    if !exit_ok {
        return Err(ListingError::BadExit { exit_code: cap.exit_code });
    }
    match parse_test_list(cap.stdout.as_str()) {
        Some(names) => Ok(names),
        None => Err(ListingError::Unparsable),
    }
}

/// List one binary once — in default or ignored mode. The invocation and
/// its outcome are beyond the library's control, but every error names this
/// binary, and a success carries only a name set that some listing which
/// follows the protocol parses to.
fn list_one(bin: &TestBinary, ignored: bool) -> (r: Result<Vec<String>, DiscoveryError>)
    ensures
        r matches Err(e) ==> e.spec_binary_id() == bin.binary_id@,
        r matches Ok(names) ==> exists|s: Seq<char>| spec_parse_list(s) == Some(names.deep_view()),
{
    let args = list_args(ignored);
    match run_command_captured(&bin.path, &args, &bin.cwd) {
        Err(m) => Err(DiscoveryError::ListFailed { binary_id: bin.binary_id.clone(), message: m }),
        Ok(cap) => match classify_listing(&cap) {
            Ok(names) => {
                proof {
                    assert(spec_parse_list(cap.stdout@) == Some(names.deep_view()));
                }
                Ok(names)
            },
            Err(ListingError::BadExit { exit_code }) => Err(
                DiscoveryError::ListExit { binary_id: bin.binary_id.clone(), exit_code },
            ),
            Err(ListingError::Unparsable) => Err(
                DiscoveryError::Unparsable { binary_id: bin.binary_id.clone() },
            ),
        },
    }
}

/// Every case in `cases` belongs to one of `binaries`, by identifier.
pub open spec fn cases_from(binaries: Seq<TestBinary>, cases: Seq<TestCase>) -> bool {
    forall|k: int|
        0 <= k < cases.len() ==> exists|b: int|
            0 <= b < binaries.len() && (#[trigger] cases[k]).binary_id@ == binaries[b].binary_id@
}

impl TestCatalog {
    /// Build the catalog: invoke each binary's listing mode twice — once
    /// for its default tests, once for its ignored ones — in binary order.
    /// Every case of the catalog belongs to one of the given binaries; a
    /// failure for any binary fails the whole discovery, naming it.
    pub fn discover(binaries: &Vec<TestBinary>) -> (r: Result<TestCatalog, DiscoveryError>)
        ensures
            r matches Ok(c) ==> cases_from(binaries@, c.cases@),
            r matches Err(e) ==> exists|b: int|
                0 <= b < binaries@.len() && e.spec_binary_id() == binaries@[b].binary_id@,
    {
        let mut cases: Vec<TestCase> = Vec::new();
        let mut j: usize = 0;
        while j < binaries.len()
            invariant
                j <= binaries@.len(),
                cases_from(binaries@, cases@),
            decreases binaries@.len() - j,
        {
            let bin = &binaries[j];
            let ghost cases0 = cases@;
            let names = match list_one(bin, false) {
                Ok(names) => names,
                Err(e) => { return Err(e); },
            };
            append_cases(&mut cases, &bin.binary_id, &names, false);
            let ghost cases1 = cases@;
            let ignored_names = match list_one(bin, true) {
                Ok(names) => names,
                Err(e) => { return Err(e); },
            };
            append_cases(&mut cases, &bin.binary_id, &ignored_names, true);
            proof {
                assert forall|k: int| 0 <= k < cases@.len() implies exists|b: int|
                    0 <= b < binaries@.len() && (#[trigger] cases@[k]).binary_id@
                        == binaries@[b].binary_id@ by {
                    assert(cases_from(binaries@, cases0));
                    if k < cases0.len() {
                        assert(cases@[k] == cases0[k]);
                        let b = choose|b: int|
                            0 <= b < binaries@.len() && cases0[k].binary_id@
                                == binaries@[b].binary_id@;
                        assert(cases@[k].binary_id@ == binaries@[b].binary_id@);
                    } else if k < cases1.len() {
                        let t = k - cases0.len();
                        assert(case_is(cases1[cases0.len() + t], bin.binary_id@,
                            names.deep_view()[t], false));
                        assert(cases@[k] == cases1[k]);
                        assert(cases@[k].binary_id@ == binaries@[j as int].binary_id@);
                    } else {
                        let t = k - cases1.len();
                        assert(case_is(cases@[cases1.len() + t], bin.binary_id@,
                            ignored_names.deep_view()[t], true));
                        assert(cases@[k].binary_id@ == binaries@[j as int].binary_id@);
                    }
                }
            }
            j = j + 1;
        }
        let ghost cs = cases@;
        let c = TestCatalog { cases };
        proof {
            assert(c.cases@ == cs);
            assert(cases_from(binaries@, c.cases@));
        }
        Ok(c)
    }
}

} // verus!
