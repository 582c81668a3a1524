//! Property-based testing step.

use crate::check::CheckResult;
use crate::components::scan::{analyze_mismatch_report, mismatch_pattern, mismatch_scan};
use crate::pattern::compiles;
use crate::defs::path::Path;
use vstd::prelude::*;

verus! {

/// Property-based testing step using Proptest.
#[derive(Debug)]
pub struct PropertyBasedTesting;

impl PropertyBasedTesting {
    /// Name of the component.
    pub fn name(&self) -> (out: &'static str)
        ensures
            out@ == "Property-Based Testing"@,
    {
        "Property-Based Testing"
    }

    /// Property-based testing samples inputs: it is no formal checker.
    pub fn is_formal(&self) -> (out: bool)
        ensures
            !out,
    {
        false
    }

    /// Additional note to print.
    pub fn note(&self) -> (out: Option<&'static str>)
        ensures
            out matches Some(note) && note@
                == "Uses Proptest to generate inputs and compare function behaviors."@,
    {
        Some("Uses Proptest to generate inputs and compare function behaviors.")
    }

    /// Analyze the output of the test run, given as its lines: of the
    /// functions that the harness checks, those with a reported mismatch
    /// fail and the others pass.
    /// The result is an infrastructure error exactly where the output has
    /// lines and the pattern that reads them does not compile.
    pub fn analyze_pbt_output(&self, functions: &Vec<Path>, lines: &Vec<String>) -> (out: CheckResult)
        ensures
            out@.error is None <==> lines@.len() == 0 || compiles(mismatch_pattern()),
            out@.error is None ==> {
                &&& out@.ok == mismatch_scan(
                    crate::model::views(functions@),
                    crate::model::views(lines@),
                ).ok
                &&& out@.fail == mismatch_scan(
                    crate::model::views(functions@),
                    crate::model::views(lines@),
                ).fail
            },
            out@.error is Some ==> out@.ok.len() == 0 && out@.fail.len() == 0,
    {
        analyze_mismatch_report(functions, lines)
    }
}

} // verus!
