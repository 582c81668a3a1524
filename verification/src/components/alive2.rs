//! Alive2 step: use alive-tv to check function equivalence.

use crate::check::CheckResult;
use crate::components::scan::{analyze_definition_report, definition_scan};
use vstd::prelude::*;

verus! {

/// Alive2 step: use alive-tv to check function equivalence.
#[derive(Debug)]
pub struct Alive2 {
    /// Alive-tv path
    pub path: String,
}

impl Alive2 {
    /// The step that runs the alive-tv binary at `path`.
    pub fn new(path: String) -> (out: Alive2)
        ensures
            out.path == path,
    {
        Alive2 { path }
    }

    /// Name of the component.
    pub fn name(&self) -> (out: &'static str)
        ensures
            out@ == "Alive2"@,
    {
        "Alive2"
    }

    /// Alive2 proves equivalence: it is a formal checker.
    pub fn is_formal(&self) -> (out: bool)
        ensures
            out,
    {
        true
    }

    /// Additional note to print.
    pub fn note(&self) -> (out: Option<&'static str>)
        ensures
            out matches Some(note) && note@ == "Use alive-tv to check function equivalence"@,
    {
        Some("Use alive-tv to check function equivalence")
    }

    /// Analyze the output of alive-tv, given as its lines: a function
    /// passes where its definition is followed by the correctness marker.
    pub fn analyze_alive2_output(&self, lines: &Vec<String>) -> (out: CheckResult)
        ensures
            out@.error is None,
            out@.ok == definition_scan(crate::model::views(lines@)).ok,
            out@.fail.len() == 0,
    {
        analyze_definition_report(lines)
    }
}

} // verus!
