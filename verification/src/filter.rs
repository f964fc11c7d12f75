//! The selector's two filter predicates: ignored-status mode and name
//! substring filter, combined with the optional partition rule.

use vstd::prelude::*;
use crate::matching::{contains_sub, str_contains_sub};
use crate::partition::Partitioner;

verus! {

/// Which cases pass the ignored-status filter: only those not marked
/// ignored (the default), only the ignored ones, or all of them.
#[derive(Clone, Copy, PartialEq, Eq, Structural, Debug)]
pub enum RunIgnored {
    Default,
    IgnoredOnly,
    All,
}

/// Whether a case with the given ignored flag passes the mode.
pub open spec fn ignored_matches(mode: RunIgnored, ignored: bool) -> bool {
    match mode {
        RunIgnored::Default => !ignored,
        RunIgnored::IgnoredOnly => ignored,
        RunIgnored::All => true,
    }
}

/// Whether a name passes the name filter: the filter set is empty (no
/// restriction), or the name contains at least one of the substrings.
pub open spec fn name_filter_matches(filters: Seq<Seq<char>>, name: Seq<char>) -> bool {
    filters.len() == 0 || exists|k: int| 0 <= k < filters.len() && contains_sub(name, filters[k])
}

/// The filter and partition configuration that turns a catalog into a
/// selection. Built from already-validated values.
pub struct TestFilterBuilder {
    pub run_ignored: RunIgnored,
    pub name_filters: Vec<String>,
    pub partitioner: Option<Partitioner>,
}

impl TestFilterBuilder {
    /// The partition rule, if any, must have been validated.
    pub open spec fn wf(&self) -> bool {
        self.partitioner matches Some(p) ==> p.wf()
    }

    /// Build a filter from an ignored-status mode, an optional validated
    /// partition rule, and a set of name substrings.
    pub fn new(run_ignored: RunIgnored, partitioner: Option<Partitioner>, name_filters: Vec<
        String,
    >) -> (f: TestFilterBuilder)
        requires
            partitioner matches Some(p) ==> p.wf(),
        ensures
            f == (TestFilterBuilder { run_ignored, name_filters, partitioner }),
            f.wf(),
    {
        TestFilterBuilder { run_ignored, name_filters, partitioner }
    }

    /// Decide whether a case's ignored flag passes the mode.
    pub fn ignored_pass(&self, ignored: bool) -> (b: bool)
        ensures
            b == ignored_matches(self.run_ignored, ignored),
    {
        match self.run_ignored {
            RunIgnored::Default => !ignored,
            RunIgnored::IgnoredOnly => ignored,
            RunIgnored::All => true,
        }
    }

    /// Decide whether a test name passes the name filter.
    pub fn name_pass(&self, name: &str) -> (b: bool)
        ensures
            b == name_filter_matches(self.name_filters.deep_view(), name@),
    {
        let n = self.name_filters.len();
        if n == 0 {
            return true;
        }
        let mut k: usize = 0;
        while k < n
            invariant
                n == self.name_filters@.len(),
                k <= n,
                forall|t: int|
                    0 <= t < k ==> !contains_sub(name@, self.name_filters.deep_view()[t]),
        decreases n - k,
        {
            let f = &self.name_filters[k];
            if str_contains_sub(name, f.as_str()) {
                assert(contains_sub(name@, self.name_filters.deep_view()[k as int]));
                return true;
            }
            assert(!contains_sub(name@, self.name_filters.deep_view()[k as int]));
            k = k + 1;
        }
        false
    }
}

} // verus!
