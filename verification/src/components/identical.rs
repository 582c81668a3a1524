//! Structural comparison: a pair whose two bodies are the same text is
//! consistent.

use crate::check::{CheckResult, Checker, Component};
use crate::defs::function::{CommonFunctionView, names_of};
use crate::defs::path::Path;
use vstd::prelude::*;

verus! {

/// Identical step: if bodies are identical -> ok.
#[derive(Debug)]
pub struct Identical;

/// The test for the pairs whose two bodies are the same text.
pub open spec fn has_identical_bodies() -> spec_fn(CommonFunctionView) -> bool {
    |pair: CommonFunctionView| pair.body1 == pair.body2
}

impl Component for Identical {
    fn name(&self) -> (out: &str)
        ensures
            out@ == "Identical"@,
    {
        "Identical"
    }

    fn is_formal(&self) -> (out: bool)
        ensures
            out,
    {
        true
    }

    fn note(&self) -> (out: Option<&str>)
        ensures
            out matches Some(note) && note@ == "Compare function bodies for identity"@,
    {
        Some("Compare function bodies for identity")
    }

    /// Passes the unchecked pairs whose two bodies are identical, in their
    /// order; it never fails a pair and never has an infrastructure error.
    fn run(&self, checker: &Checker) -> (out: CheckResult)
        ensures
            out@.error is None,
            out@.ok == names_of(checker.progress().unchecked.filter(has_identical_bodies())),
            out@.fail.len() == 0,
    {
        let mut ok: Vec<Path> = Vec::new();
        let ghost all = checker.progress().unchecked;
        let ghost mut kept: Seq<CommonFunctionView> = Seq::empty();
        let mut i: usize = 0;
        proof {
            crate::model::filter_empty(has_identical_bodies());
        }
        while i < checker.unchecked_funcs.len()
            invariant
                i <= checker.unchecked_funcs.len(),
                all == checker.progress().unchecked,
                kept == all.take(i as int).filter(has_identical_bodies()),
                crate::model::views(ok@) == names_of(kept),
            decreases checker.unchecked_funcs.len() - i,
        {
            let ghost before = ok@;
            let pair = &checker.unchecked_funcs[i];
            proof {
                crate::model::filter_step(all, has_identical_bodies(), i as int);
            }
            if pair.body1 == pair.body2 {
                let name = pair.metadata.name.clone();
                ok.push(name);
                proof {
                    crate::model::views_push(before, name);
                    assert(names_of(kept.push(pair@)) =~= names_of(kept).push(name@));
                    kept = kept.push(pair@);
                }
            }
            i += 1;
        }
        proof {
            assert(all.take(all.len() as int) =~= all);
        }
        CheckResult { status: Ok(()), ok, fail: Vec::new() }
    }
}

} // verus!
