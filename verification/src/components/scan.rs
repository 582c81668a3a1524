//! Reading the reports of the engines line by line.
//!
//! A report is read as a sequence of lines. Lines that match nothing are
//! ignored.

use crate::check::{CheckResult, InfrastructureError};
use crate::defs::path::{Path, clone_paths};
use crate::pattern::{capture_first_group, compiles, error_message, first_group};
use crate::text::{first_occurrence, has_prefix, joined, occurs_in, replaced, split_parts};
use vstd::prelude::*;

verus! {

/// The state of reading a report in which each block names a function and
/// ends with a verdict.
#[derive(Debug)]
pub struct BlockScan {
    /// The function that the block being read is about, if one is open.
    pub current: Option<String>,
    /// The functions whose blocks ended with success.
    pub ok: Vec<Path>,
}

/// The mathematical value of a [`BlockScan`].
pub struct BlockScanView {
    pub current: Option<Seq<char>>,
    pub ok: Seq<Seq<Seq<char>>>,
}

impl View for BlockScan {
    type V = BlockScanView;

    open spec fn view(&self) -> BlockScanView {
        BlockScanView {
            current: crate::model::view_of(self.current),
            ok: crate::model::views(self.ok@),
        }
    }
}

/// The pattern of the line that opens the block of a harness.
pub open spec fn harness_pattern() -> Seq<char> {
    "Checking harness check_([0-9a-zA-Z_]+)\\."@
}

/// The text that marks a block as verified.
pub open spec fn success_marker() -> Seq<char> {
    "VERIFICATION:- SUCCESSFUL"@
}

/// The text that marks a block as failed.
pub open spec fn failure_marker() -> Seq<char> {
    "VERIFICATION:- FAILED"@
}

/// The qualified name that a flattened name stands for: each `___` gives
/// way to `::`.
pub open spec fn unflattened(flat: Seq<char>) -> Seq<char> {
    replaced(flat, "___"@, "::"@)
}

impl BlockScanView {
    /// The state before the first line.
    pub open spec fn start() -> BlockScanView {
        BlockScanView { current: None, ok: Seq::empty() }
    }

    /// The state after one line of a model-checker report, where `harness`
    /// is the flattened name that the line opens a block for, if it opens
    /// one. A line with the success marker closes the open block and
    /// passes its function; one with the failure marker closes it and
    /// passes nothing.
    pub open spec fn after_harness_line(
        self,
        line: Seq<char>,
        harness: Option<Seq<char>>,
    ) -> BlockScanView {
        let current = match harness {
            Some(flat) => Some(unflattened(flat)),
            None => self.current,
        };
        if occurs_in(line, success_marker()) && current is Some {
            BlockScanView { current: None, ok: self.ok.push(split_parts(current->Some_0, "::"@)) }
        } else if occurs_in(line, failure_marker()) && current is Some {
            BlockScanView { current: None, ok: self.ok }
        } else {
            BlockScanView { current, ok: self.ok }
        }
    }

    /// The state after one line of a binary-equivalence report. A
    /// definition header opens a block unless one is open, the correctness
    /// marker closes the open block and passes its function, an error
    /// closes it and passes nothing.
    pub open spec fn after_definition_line(self, line: Seq<char>) -> BlockScanView {
        if has_prefix(line, "define"@) {
            match (self.current, defined_name(line)) {
                (None, Some(name)) => BlockScanView { current: Some(name), ok: self.ok },
                _ => self,
            }
        } else if has_prefix(line, "Transformation seems to be correct!"@) {
            match self.current {
                Some(name) => BlockScanView {
                    current: None,
                    ok: self.ok.push(split_parts(name, "::"@)),
                },
                None => self,
            }
        } else if has_prefix(line, "ERROR"@) {
            BlockScanView { current: None, ok: self.ok }
        } else {
            self
        }
    }
}

/// The qualified name in a definition header: what stands between the
/// first `@` and the first `(`, unflattened. A header without the two in
/// this order names nothing.
pub open spec fn defined_name(line: Seq<char>) -> Option<Seq<char>> {
    match (first_occurrence(line, "@"@), first_occurrence(line, "("@)) {
        (Some(at), Some(paren)) => if 0 <= at && at + 1 <= paren && paren <= line.len() {
            Some(unflattened(line.subrange(at + 1, paren)))
        } else {
            None
        },
        _ => None,
    }
}

/// The state after the lines of a model-checker report.
pub open spec fn harness_scan(lines: Seq<Seq<char>>) -> BlockScanView
    decreases lines.len(),
{
    if lines.len() == 0 {
        BlockScanView::start()
    } else {
        harness_scan(lines.drop_last()).after_harness_line(
            lines.last(),
            first_group(harness_pattern(), lines.last()),
        )
    }
}

/// The state after the lines of a binary-equivalence report.
pub open spec fn definition_scan(lines: Seq<Seq<char>>) -> BlockScanView
    decreases lines.len(),
{
    if lines.len() == 0 {
        BlockScanView::start()
    } else {
        definition_scan(lines.drop_last()).after_definition_line(lines.last())
    }
}

impl BlockScan {
    /// The state before the first line.
    pub fn new() -> (out: BlockScan)
        ensures
            out@ == BlockScanView::start(),
    {
        let out = BlockScan { current: None, ok: Vec::new() };
        proof {
            assert(out@.ok =~= Seq::empty());
        }
        out
    }

    /// Reads one line of a model-checker report, see
    /// [`BlockScanView::after_harness_line`].
    pub fn feed_harness_line(&mut self, line: &str, harness: Option<String>)
        ensures
            final(self)@ == old(self)@.after_harness_line(line@, crate::model::view_of(harness)),
    {
        let ghost before = self.ok@;
        match harness {
            Some(flat) => {
                self.current = Some(crate::text::replace(flat.as_str(), "___", "::"));
            },
            None => {},
        }
        if self.current.is_some() {
            if crate::text::contains(line, "VERIFICATION:- SUCCESSFUL") {
                let name = self.current.take().unwrap();
                let path = Path::from_str(name.as_str());
                self.ok.push(path);
                proof {
                    crate::model::views_push(before, path);
                }
            } else if crate::text::contains(line, "VERIFICATION:- FAILED") {
                self.current = None;
            }
        }
    }

    /// Reads one line of a binary-equivalence report, see
    /// [`BlockScanView::after_definition_line`].
    pub fn feed_definition_line(&mut self, line: &str)
        ensures
            final(self)@ == old(self)@.after_definition_line(line@),
    {
        let ghost before = self.ok@;
        if crate::text::starts_with(line, "define") {
            if self.current.is_none() {
                proof {
                    reveal_strlit("@");
                    reveal_strlit("(");
                    crate::text::first_occurrence_is_least(line@, "@"@, 0);
                    crate::text::first_occurrence_is_least(line@, "("@, 0);
                }
                match (crate::text::find(line, "@"), crate::text::find(line, "(")) {
                    (Some(at), Some(paren)) => {
                        if at < paren {
                            let flat = line.substring_char(at + 1, paren);
                            self.current = Some(crate::text::replace(flat, "___", "::"));
                        }
                    },
                    _ => {},
                }
            }
        } else if crate::text::starts_with(line, "Transformation seems to be correct!") {
            if self.current.is_some() {
                let name = self.current.take().unwrap();
                let path = Path::from_str(name.as_str());
                self.ok.push(path);
                proof {
                    crate::model::views_push(before, path);
                }
            }
        } else if crate::text::starts_with(line, "ERROR") {
            self.current = None;
        }
    }
}

/// Reads the report of the model checker: the functions whose harness
/// block ends with the success marker pass, in the order of their blocks,
/// and none fails. The result is an infrastructure error exactly where
/// the report has lines and the pattern of the block header does not
/// compile.
pub fn analyze_harness_report(lines: &Vec<String>) -> (out: CheckResult)
    ensures
        out@.error is None <==> lines@.len() == 0 || compiles(harness_pattern()),
        out@.error is None ==> out@.ok == harness_scan(crate::model::views(lines@)).ok,
        out@.error is Some ==> out@.ok.len() == 0,
        out@.fail.len() == 0,
{
    let mut scan = BlockScan::new();
    let ghost all = crate::model::views(lines@);
    let mut i: usize = 0;
    while i < lines.len()
        invariant
            i <= lines.len(),
            all == crate::model::views(lines@),
            i > 0 ==> compiles(harness_pattern()),
            scan@ == harness_scan(all.take(i as int)),
        decreases lines.len() - i,
    {
        proof {
            assert(all.take(i + 1).drop_last() =~= all.take(i as int));
        }
        let line = lines[i].as_str();
        match capture_first_group("Checking harness check_([0-9a-zA-Z_]+)\\.", line) {
            Ok(harness) => {
                scan.feed_harness_line(line, harness);
            },
            Err(error) => {
                return CheckResult::failed(InfrastructureError { detail: error_message(&error) });
            },
        }
        i += 1;
    }
    proof {
        assert(all.take(lines.len() as int) =~= all);
    }
    CheckResult { status: Ok(()), ok: scan.ok, fail: Vec::new() }
}

/// Reads the report of the binary-equivalence checker: the functions whose
/// definition is followed by the correctness marker pass, in the order of
/// their blocks, and none fails.
pub fn analyze_definition_report(lines: &Vec<String>) -> (out: CheckResult)
    ensures
        out@.error is None,
        out@.ok == definition_scan(crate::model::views(lines@)).ok,
        out@.fail.len() == 0,
{
    let mut scan = BlockScan::new();
    let ghost all = crate::model::views(lines@);
    let mut i: usize = 0;
    while i < lines.len()
        invariant
            i <= lines.len(),
            all == crate::model::views(lines@),
            scan@ == definition_scan(all.take(i as int)),
        decreases lines.len() - i,
    {
        proof {
            assert(all.take(i + 1).drop_last() =~= all.take(i as int));
        }
        scan.feed_definition_line(lines[i].as_str());
        i += 1;
    }
    proof {
        assert(all.take(lines.len() as int) =~= all);
    }
    CheckResult { status: Ok(()), ok: scan.ok, fail: Vec::new() }
}

/// The state of reading the report of a sampling engine: the functions
/// that still pass, and those that a mismatch was reported for.
#[derive(Debug)]
pub struct MismatchScan {
    /// The functions that no mismatch was reported for yet.
    pub ok: Vec<Path>,
    /// The functions that a mismatch was reported for.
    pub fail: Vec<Path>,
}

/// The mathematical value of a [`MismatchScan`].
pub struct MismatchScanView {
    pub ok: Seq<Seq<Seq<char>>>,
    pub fail: Seq<Seq<Seq<char>>>,
}

impl View for MismatchScan {
    type V = MismatchScanView;

    open spec fn view(&self) -> MismatchScanView {
        MismatchScanView {
            ok: crate::model::views(self.ok@),
            fail: crate::model::views(self.fail@),
        }
    }
}

/// The pattern of the line that reports a mismatch.
pub open spec fn mismatch_pattern() -> Seq<char> {
    "MISMATCH:\\s*(\\S+)"@
}

/// The least index at or after `from` of a path that is written `name`.
pub open spec fn written_index_from(
    paths: Seq<Seq<Seq<char>>>,
    name: Seq<char>,
    from: int,
) -> Option<int>
    decreases paths.len() - from,
{
    if from < 0 || from >= paths.len() {
        None
    } else if joined(paths[from], "::"@) == name {
        Some(from)
    } else {
        written_index_from(paths, name, from + 1)
    }
}

impl MismatchScanView {
    /// The state after one line, where `mismatch` is the name that the
    /// line reports a mismatch for, if it reports one. The first function
    /// written like that name stops passing and fails: the last passing
    /// function takes its place, and the name joins the failures. A name
    /// that no passing function is written like changes nothing.
    pub open spec fn after_line(self, mismatch: Option<Seq<char>>) -> MismatchScanView {
        match mismatch {
            Some(name) => match written_index_from(self.ok, name, 0) {
                Some(at) => MismatchScanView {
                    ok: self.ok.update(at, self.ok.last()).drop_last(),
                    fail: self.fail.push(split_parts(name, "::"@)),
                },
                None => self,
            },
            None => self,
        }
    }
}

/// The state after the lines of the report of a sampling engine that
/// checked `functions`.
pub open spec fn mismatch_scan(
    functions: Seq<Seq<Seq<char>>>,
    lines: Seq<Seq<char>>,
) -> MismatchScanView
    decreases lines.len(),
{
    if lines.len() == 0 {
        MismatchScanView { ok: functions, fail: Seq::empty() }
    } else {
        mismatch_scan(functions, lines.drop_last()).after_line(
            first_group(mismatch_pattern(), lines.last()),
        )
    }
}

impl MismatchScan {
    /// The state before the first line: every checked function passes.
    pub fn new(functions: Vec<Path>) -> (out: MismatchScan)
        ensures
            out@ == (MismatchScanView {
                ok: crate::model::views(functions@),
                fail: Seq::empty(),
            }),
    {
        let out = MismatchScan { ok: functions, fail: Vec::new() };
        proof {
            assert(out@.fail =~= Seq::empty());
        }
        out
    }

    /// Reads one line, see [`MismatchScanView::after_line`].
    #[verifier::loop_isolation(false)]
    pub fn feed(&mut self, mismatch: Option<String>)
        ensures
            final(self)@ == old(self)@.after_line(crate::model::view_of(mismatch)),
    {
        let name = match mismatch {
            Some(name) => name,
            None => {
                return;
            },
        };
        let ghost ok0 = self.ok@;
        let ghost fail0 = self.fail@;
        let mut at: usize = 0;
        while at < self.ok.len()
            invariant
                at <= self.ok.len(),
                self.ok@ == ok0,
                self.fail@ == fail0,
                written_index_from(crate::model::views(ok0), name@, 0) == written_index_from(
                    crate::model::views(ok0),
                    name@,
                    at as int,
                ),
            decreases self.ok.len() - at,
        {
            if self.ok[at].to_string() == name {
                let _ = self.ok.swap_remove(at);
                let path = Path::from_str(name.as_str());
                self.fail.push(path);
                proof {
                    crate::model::views_push(fail0, path);
                    assert(crate::model::views(self.ok@) =~= crate::model::views(ok0).update(
                        at as int,
                        crate::model::views(ok0).last(),
                    ).drop_last());
                }
                return;
            }
            at += 1;
        }
    }
}

/// Reads the report of a sampling engine that checked `functions`: a
/// function passes unless a line reports a mismatch for it, and fails if
/// one does. The result is an infrastructure error exactly where the
/// report has lines and the pattern of the mismatch line does not compile.
pub fn analyze_mismatch_report(functions: &Vec<Path>, lines: &Vec<String>) -> (out: CheckResult)
    ensures
        out@.error is None <==> lines@.len() == 0 || compiles(mismatch_pattern()),
        out@.error is None ==> {
            &&& out@.ok == mismatch_scan(
                crate::model::views(functions@),
                crate::model::views(lines@),
            ).ok
            &&& out@.fail == mismatch_scan(
                crate::model::views(functions@),
                crate::model::views(lines@),
            ).fail
        },
        out@.error is Some ==> out@.ok.len() == 0 && out@.fail.len() == 0,
{
    let mut scan = MismatchScan::new(clone_paths(functions));
    let ghost all = crate::model::views(lines@);
    let mut i: usize = 0;
    while i < lines.len()
        invariant
            i <= lines.len(),
            all == crate::model::views(lines@),
            i > 0 ==> compiles(mismatch_pattern()),
            scan@ == mismatch_scan(crate::model::views(functions@), all.take(i as int)),
        decreases lines.len() - i,
    {
        proof {
            assert(all.take(i + 1).drop_last() =~= all.take(i as int));
        }
        match capture_first_group("MISMATCH:\\s*(\\S+)", lines[i].as_str()) {
            Ok(mismatch) => {
                scan.feed(mismatch);
            },
            Err(error) => {
                return CheckResult::failed(InfrastructureError { detail: error_message(&error) });
            },
        }
        i += 1;
    }
    proof {
        assert(all.take(lines.len() as int) =~= all);
    }
    CheckResult { status: Ok(()), ok: scan.ok, fail: scan.fail }
}

} // verus!
