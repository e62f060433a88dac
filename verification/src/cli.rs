use vstd::prelude::*;

verus! {

use vstd::string::StringExecFns;

/// The test runner's command line: a glob over test names, a verbosity
/// switch, and whether observed outputs overwrite the golden ones.
#[derive(Debug)]
pub struct Args {
    pub filter: Option<String>,
    pub debug: bool,
    pub update_expected: bool,
}

impl Args {
    /// The test filter to run with: the given glob, or `"*"` for everything.
    pub fn filter_or_default(&self) -> (r: String)
        ensures
            (match self.filter {
                Some(ref f) => r@ == f@,
                None => r@ == "*"@,
            }),
    {
        match &self.filter {
            Some(f) => f.clone(),
            None => String::from_str("*"),
        }
    }
}

} // verus!
