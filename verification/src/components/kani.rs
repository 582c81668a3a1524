//! Use model-checker Kani to check function equivalence.

use crate::check::CheckResult;
use crate::components::scan::{analyze_harness_report, harness_pattern, harness_scan};
use crate::pattern::compiles;
use vstd::prelude::*;

verus! {

/// Kani step: use Kani model-checker to check function equivalence.
#[derive(Debug)]
pub struct Kani;

impl Kani {
    /// Name of the component.
    pub fn name(&self) -> (out: &'static str)
        ensures
            out@ == "Kani"@,
    {
        "Kani"
    }

    /// Kani is a formal checker.
    pub fn is_formal(&self) -> (out: bool)
        ensures
            out,
    {
        true
    }

    /// Additional note to print.
    pub fn note(&self) -> (out: Option<&'static str>)
        ensures
            out matches Some(note) && note@
                == "Use Kani model-checker to check function consistency"@,
    {
        Some("Use Kani model-checker to check function consistency")
    }

    /// Analyze the output of Kani, given as its lines: a function passes
    /// where the block of its harness ends with a successful verification.
    /// The result is an infrastructure error exactly where the output has
    /// lines and the pattern that reads them does not compile.
    pub fn analyze_kani_output(&self, lines: &Vec<String>) -> (out: CheckResult)
        ensures
            out@.error is None <==> lines@.len() == 0 || compiles(harness_pattern()),
            out@.error is None ==> out@.ok == harness_scan(crate::model::views(lines@)).ok,
            out@.error is Some ==> out@.ok.len() == 0,
            out@.fail.len() == 0,
    {
        analyze_harness_report(lines)
    }
}

} // verus!
