//! Differential Fuzzing step.

use crate::check::CheckResult;
use crate::components::scan::{analyze_mismatch_report, mismatch_pattern, mismatch_scan};
use crate::pattern::compiles;
use crate::defs::path::Path;
use vstd::prelude::*;

verus! {

/// Where the differential fuzzing step works and what it leaves behind.
#[derive(Debug)]
pub struct DiffFuzzConfig {
    /// Directory of the generated harness project.
    pub harness_path: String,
    /// Directory of the fuzzer that drives the harness.
    pub fuzzer_path: String,
    /// File that receives the fuzzer's output.
    pub output_path: String,
    /// Keep the harness project after the run.
    pub keep_harness: bool,
    /// Keep the output file after the run.
    pub keep_output: bool,
}

/// Differential Fuzzing step.
#[derive(Debug)]
pub struct DifferentialFuzzing {
    /// The configuration of the step.
    pub config: DiffFuzzConfig,
}

impl DifferentialFuzzing {
    /// Create a new Differential Fuzzing component with the given configuration.
    pub fn new(config: DiffFuzzConfig) -> (out: DifferentialFuzzing)
        ensures
            out.config == config,
    {
        DifferentialFuzzing { config }
    }

    /// Name of the component.
    pub fn name(&self) -> (out: &'static str)
        ensures
            out@ == "Differential Fuzzing"@,
    {
        "Differential Fuzzing"
    }

    /// Fuzzing samples inputs: it is no formal checker.
    pub fn is_formal(&self) -> (out: bool)
        ensures
            !out,
    {
        false
    }

    /// Additional note to print.
    pub fn note(&self) -> (out: Option<&'static str>)
        ensures
            out matches Some(note) && note@
                == "Using differential fuzzing to find inconsistencies."@,
    {
        Some("Using differential fuzzing to find inconsistencies.")
    }

    /// Tells whether the fuzzer ran, given the exit code of its process if
    /// it ended with one: it did unless the code is 101, with which a
    /// build that does not compile ends.
    pub fn fuzzer_ran(&self, exit_code: Option<i32>) -> (out: bool)
        ensures
            out == (exit_code != Some(101i32)),
    {
        match exit_code {
            Some(code) => code != 101,
            None => true,
        }
    }

    /// Analyze the output of the fuzzer, given as its lines: of the
    /// functions that the harness checks, those with a reported mismatch
    /// fail and the others pass.
    /// The result is an infrastructure error exactly where the output has
    /// lines and the pattern that reads them does not compile.
    pub fn analyze_fuzzer_output(&self, functions: &Vec<Path>, lines: &Vec<String>) -> (out:
        CheckResult)
        ensures
            out@.error is None <==> lines@.len() == 0 || compiles(mismatch_pattern()),
            out@.error is None ==> {
                &&& out@.ok == mismatch_scan(
                    crate::model::views(functions@),
                    crate::model::views(lines@),
                ).ok
                &&& out@.fail == mismatch_scan(
                    crate::model::views(functions@),
                    crate::model::views(lines@),
                ).fail
            },
            out@.error is Some ==> out@.ok.len() == 0 && out@.fail.len() == 0,
    {
        analyze_mismatch_report(functions, lines)
    }
}

} // verus!
