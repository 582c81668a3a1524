//! The checker: the state of a run and the rules by which check components
//! change it.
//!
//! A run starts with every matched pair that is not a support function in
//! the bucket Unchecked. Components run one at a time in their configured
//! order. What a component reports as consistent moves from Unchecked to
//! Verified, if the component is formal, or to Tested. A component that
//! could not run changes nothing. The first component that reports an
//! inconsistency ends the run.

use crate::align::{align_pairs, align_preconditions, aligned_pairs, aligned_preconditions};
use crate::defs::function::{CommonFunction, CommonFunctionView, Function, names, names_of};
use crate::defs::path::{Path, clone_paths};
use crate::defs::precond::Precondition;
use crate::defs::types::InstantiatedType;
use crate::matching::{match_functions, matched_pairs, retain_unmatched, unmatched};
use vstd::multiset::Multiset;
use vstd::prelude::*;
use vstd::string::StringExecFns;

verus! {

/// A source unit with its function records, declared traits and
/// instantiated generic types.
#[derive(Debug)]
pub struct Source {
    /// File path.
    pub path: String,
    /// Full text content.
    pub content: String,
    /// The function records; once matched, those unique to this version.
    pub unique_funcs: Vec<Function>,
    /// The declared traits.
    pub symbols: Vec<Path>,
    /// Instantiated generic types.
    pub inst_types: Vec<InstantiatedType>,
}

impl Source {
    /// A source unit from what was read and collected from it.
    pub fn new(
        path: String,
        content: String,
        unique_funcs: Vec<Function>,
        symbols: Vec<Path>,
        inst_types: Vec<InstantiatedType>,
    ) -> (out: Source)
        ensures
            out.path == path,
            out.content == content,
            out.unique_funcs == unique_funcs,
            out.symbols == symbols,
            out.inst_types == inst_types,
    {
        Source { path, content, unique_funcs, symbols, inst_types }
    }

    /// Appends `code` to the text content.
    pub fn append_content(&mut self, code: &str)
        ensures
            final(self).content@ == old(self).content@ + code@,
            final(self).path == old(self).path,
            final(self).unique_funcs == old(self).unique_funcs,
            final(self).symbols == old(self).symbols,
            final(self).inst_types == old(self).inst_types,
    {
        self.content.append(code);
    }
}

/// A setup, build or tool failure that kept a component from checking
/// anything.
#[derive(Debug)]
pub struct InfrastructureError {
    /// What went wrong.
    pub detail: String,
}

impl Clone for InfrastructureError {
    fn clone(&self) -> (out: InfrastructureError)
        ensures
            out.detail@ == self.detail@,
    {
        InfrastructureError { detail: self.detail.clone() }
    }
}

/// What a check component returns.
#[derive(Debug)]
pub struct CheckResult {
    /// Whether the component could run at all.
    pub status: Result<(), InfrastructureError>,
    /// The functions that the component found consistent.
    pub ok: Vec<Path>,
    /// The functions that the component found to differ.
    pub fail: Vec<Path>,
}

/// The mathematical value of a [`CheckResult`].
pub struct CheckResultView {
    /// The detail of the infrastructure error, if the component had one.
    pub error: Option<Seq<char>>,
    pub ok: Seq<Seq<Seq<char>>>,
    pub fail: Seq<Seq<Seq<char>>>,
}

impl CheckResultView {
    /// The result reports an inconsistency that ends the run: the component
    /// ran, and names at least one function that differs.
    pub open spec fn is_fatal(self) -> bool {
        self.error is None && self.fail.len() > 0
    }
}

impl View for CheckResult {
    type V = CheckResultView;

    open spec fn view(&self) -> CheckResultView {
        CheckResultView {
            error: match self.status {
                Ok(_) => None,
                Err(e) => Some(e.detail@),
            },
            ok: crate::model::views(self.ok@),
            fail: crate::model::views(self.fail@),
        }
    }
}

impl Clone for CheckResult {
    fn clone(&self) -> (out: CheckResult)
        ensures
            out@ == self@,
    {
        let status = match &self.status {
            Ok(_) => Ok(()),
            Err(e) => Err(e.clone()),
        };
        CheckResult { status, ok: clone_paths(&self.ok), fail: clone_paths(&self.fail) }
    }
}

impl CheckResult {
    /// The result of a component that could not run: nothing passed, nothing
    /// failed.
    pub fn failed(e: InfrastructureError) -> (out: CheckResult)
        ensures
            out.status == Err::<(), InfrastructureError>(e),
            out.ok@.len() == 0,
            out.fail@.len() == 0,
    {
        CheckResult { status: Err(e), ok: Vec::new(), fail: Vec::new() }
    }

    /// Tells whether the result reports an inconsistency that ends the run.
    pub fn is_fatal(&self) -> (out: bool)
        ensures
            out == self@.is_fatal(),
    {
        self.status.is_ok() && self.fail.len() > 0
    }
}

/// A single check component, either formal or testing-based.
pub trait Component {
    /// Name of the component.
    fn name(&self) -> &str;

    /// If this component is a formal checker.
    fn is_formal(&self) -> bool;

    /// Additional note to print. A component that does not say otherwise
    /// has none.
    fn note(&self) -> (out: Option<&str>)
        default_ensures
            out is None,
    {
        None
    }

    /// Run the check component.
    fn run(&self, checker: &Checker) -> CheckResult;
}

/// A boxed component is the component in the box: each method hands on
/// what the component inside gives.
impl<T: Component + ?Sized> Component for Box<T> {
    fn name(&self) -> (out: &str)
        ensures
            call_ensures(T::name, (&**self,), out),
    {
        (**self).name()
    }

    fn is_formal(&self) -> (out: bool)
        ensures
            call_ensures(T::is_formal, (&**self,), out),
    {
        (**self).is_formal()
    }

    fn note(&self) -> (out: Option<&str>)
        ensures
            call_ensures(T::note, (&**self,), out),
    {
        (**self).note()
    }

    fn run(&self, checker: &Checker) -> (out: CheckResult)
        ensures
            call_ensures(T::run, (&**self, checker), out),
    {
        (**self).run(checker)
    }
}

/// The three buckets of a run, as sequences of pairs.
pub struct Progress {
    pub unchecked: Seq<CommonFunctionView>,
    pub verified: Seq<CommonFunctionView>,
    pub tested: Seq<CommonFunctionView>,
}

/// The test for the pairs that carry the name `name`.
pub open spec fn is_named(name: Seq<Seq<char>>) -> spec_fn(CommonFunctionView) -> bool {
    |pair: CommonFunctionView| pair.metadata.name == name
}

/// The test for the pairs that do not carry the name `name`.
pub open spec fn is_not_named(name: Seq<Seq<char>>) -> spec_fn(CommonFunctionView) -> bool {
    |pair: CommonFunctionView| pair.metadata.name != name
}

/// No name occurs both in `a` and in `b`.
pub open spec fn disjoint_names(a: Seq<CommonFunctionView>, b: Seq<CommonFunctionView>) -> bool {
    forall|i: int, j: int|
        0 <= i < a.len() && 0 <= j < b.len() ==> (#[trigger] a[i]).metadata.name != (
        #[trigger] b[j]).metadata.name
}

impl Progress {
    /// All pairs of the run, each as often as the buckets hold it.
    pub open spec fn all_pairs(self) -> Multiset<CommonFunctionView> {
        self.unchecked.to_multiset().add(self.verified.to_multiset()).add(
            self.tested.to_multiset(),
        )
    }

    /// The buckets are pairwise disjoint: no name occurs in two of them.
    pub open spec fn partitioned(self) -> bool {
        &&& disjoint_names(self.unchecked, self.verified)
        &&& disjoint_names(self.unchecked, self.tested)
        &&& disjoint_names(self.verified, self.tested)
    }

    /// The pairs named `name` leave Unchecked for Verified, if `formal`, or
    /// for Tested; where Unchecked holds none the buckets stay as they are.
    pub open spec fn promote(self, name: Seq<Seq<char>>, formal: bool) -> Progress {
        let moved = self.unchecked.filter(is_named(name));
        Progress {
            unchecked: self.unchecked.filter(is_not_named(name)),
            verified: if formal {
                self.verified + moved
            } else {
                self.verified
            },
            tested: if formal {
                self.tested
            } else {
                self.tested + moved
            },
        }
    }

    /// The names promoted one after another, in their order.
    pub open spec fn promote_all(self, names: Seq<Seq<Seq<char>>>, formal: bool) -> Progress
        decreases names.len(),
    {
        if names.len() == 0 {
            self
        } else {
            self.promote_all(names.drop_last(), formal).promote(names.last(), formal)
        }
    }

    /// The buckets after one component's result: unchanged where the
    /// component had an infrastructure error, else with the names it passed
    /// promoted.
    pub open spec fn after(self, formal: bool, result: CheckResultView) -> Progress {
        if result.error is Some {
            self
        } else {
            self.promote_all(result.ok, formal)
        }
    }

    /// Later buckets relate to earlier ones as a run allows: what is
    /// Unchecked was Unchecked before, and what was Verified or Tested
    /// still is, in the same place.
    pub open spec fn follows(self, earlier: Progress) -> bool {
        &&& forall|pair: CommonFunctionView|
            self.unchecked.contains(pair) ==> earlier.unchecked.contains(pair)
        &&& earlier.verified.is_prefix_of(self.verified)
        &&& earlier.tested.is_prefix_of(self.tested)
    }
}

/// Promoting a name keeps the partition: the same pairs as before, in
/// disjoint buckets, none back in Unchecked and none taken out of Verified
/// or Tested.
pub proof fn promote_keeps_partition(before: Progress, name: Seq<Seq<char>>, formal: bool)
    requires
        before.partitioned(),
    ensures
        before.promote(name, formal).partitioned(),
        before.promote(name, formal).all_pairs() == before.all_pairs(),
        before.promote(name, formal).follows(before),
{
    broadcast use vstd::multiset::group_multiset_axioms;
    broadcast use vstd::seq_lib::group_to_multiset_ensures;

    let after = before.promote(name, formal);
    let moved = before.unchecked.filter(is_named(name));
    crate::model::filter_members(before.unchecked, is_named(name));
    crate::model::filter_members(before.unchecked, is_not_named(name));
    crate::model::filter_partition(before.unchecked, is_not_named(name), is_named(name));
    vstd::seq_lib::lemma_multiset_commutative(before.verified, moved);
    vstd::seq_lib::lemma_multiset_commutative(before.tested, moved);
    assert(after.all_pairs() =~= before.all_pairs());
    assert forall|i: int| 0 <= i < after.unchecked.len() implies before.unchecked.contains(
        #[trigger] after.unchecked[i],
    ) && after.unchecked[i].metadata.name != name by {
        assert(after.unchecked.contains(after.unchecked[i]));
    }
    assert forall|i: int| 0 <= i < moved.len() implies before.unchecked.contains(
        #[trigger] moved[i],
    ) && moved[i].metadata.name == name by {
        assert(moved.contains(moved[i]));
    }
    assert(disjoint_names(after.unchecked, after.verified)) by {
        assert forall|i: int, j: int|
            0 <= i < after.unchecked.len() && 0 <= j < after.verified.len() implies (
        #[trigger] after.unchecked[i]).metadata.name != (
        #[trigger] after.verified[j]).metadata.name by {
            let at = choose|at: int|
                0 <= at < before.unchecked.len() && before.unchecked[at] == after.unchecked[i];
            if j < before.verified.len() {
                assert(before.unchecked[at].metadata.name != before.verified[j].metadata.name);
            } else {
                assert(after.verified[j] == moved[j - before.verified.len()]);
            }
        }
    }
    assert(disjoint_names(after.unchecked, after.tested)) by {
        assert forall|i: int, j: int|
            0 <= i < after.unchecked.len() && 0 <= j < after.tested.len() implies (
        #[trigger] after.unchecked[i]).metadata.name != (
        #[trigger] after.tested[j]).metadata.name by {
            let at = choose|at: int|
                0 <= at < before.unchecked.len() && before.unchecked[at] == after.unchecked[i];
            if j < before.tested.len() {
                assert(before.unchecked[at].metadata.name != before.tested[j].metadata.name);
            } else {
                assert(after.tested[j] == moved[j - before.tested.len()]);
            }
        }
    }
    assert(disjoint_names(after.verified, after.tested)) by {
        assert forall|i: int, j: int|
            0 <= i < after.verified.len() && 0 <= j < after.tested.len() implies (
        #[trigger] after.verified[i]).metadata.name != (
        #[trigger] after.tested[j]).metadata.name by {
            if i < before.verified.len() && j < before.tested.len() {
                assert(before.verified[i].metadata.name != before.tested[j].metadata.name);
            } else if i >= before.verified.len() {
                let m = moved[i - before.verified.len()];
                let at = choose|at: int|
                    0 <= at < before.unchecked.len() && before.unchecked[at] == m;
                assert(before.unchecked[at].metadata.name != before.tested[j].metadata.name);
            } else {
                let m = moved[j - before.tested.len()];
                let at = choose|at: int|
                    0 <= at < before.unchecked.len() && before.unchecked[at] == m;
                assert(before.unchecked[at].metadata.name != before.verified[i].metadata.name);
            }
        }
    }
    assert forall|pair: CommonFunctionView|
        after.unchecked.contains(pair) implies before.unchecked.contains(pair) by {}
}

/// A name that Unchecked does not hold is ignored: promoting it changes
/// nothing. So is a name that was promoted before: after its promotion
/// Unchecked holds it no more.
pub proof fn absent_name_is_ignored(before: Progress, name: Seq<Seq<char>>, formal: bool)
    ensures
        (forall|i: int|
            0 <= i < before.unchecked.len() ==> (#[trigger] before.unchecked[i]).metadata.name
                != name) ==> before.promote(name, formal) == before,
        forall|again: bool|
            #![trigger before.promote(name, formal).promote(name, again)]
            before.promote(name, formal).promote(name, again) == before.promote(name, formal),
{
    crate::model::filter_all_or_none(before.unchecked, is_named(name));
    crate::model::filter_all_or_none(before.unchecked, is_not_named(name));
    if forall|i: int|
        0 <= i < before.unchecked.len() ==> (#[trigger] before.unchecked[i]).metadata.name
            != name {
        assert(before.verified + Seq::<CommonFunctionView>::empty() =~= before.verified);
        assert(before.tested + Seq::<CommonFunctionView>::empty() =~= before.tested);
    }
    let after = before.promote(name, formal);
    crate::model::filter_members(before.unchecked, is_not_named(name));
    assert forall|i: int| 0 <= i < after.unchecked.len() implies (
    #[trigger] after.unchecked[i]).metadata.name != name by {
        assert(after.unchecked.contains(after.unchecked[i]));
    }
    crate::model::filter_all_or_none(after.unchecked, is_named(name));
    crate::model::filter_all_or_none(after.unchecked, is_not_named(name));
    assert(after.verified + Seq::<CommonFunctionView>::empty() =~= after.verified);
    assert(after.tested + Seq::<CommonFunctionView>::empty() =~= after.tested);
}

/// [`Progress::follows`] is transitive and holds of any buckets and
/// themselves.
pub proof fn follows_chains(first: Progress, second: Progress, third: Progress)
    requires
        second.follows(first),
        third.follows(second),
    ensures
        third.follows(first),
        first.follows(first),
{
}

/// Partition invariant. Whatever names a component passes, applying its
/// result keeps the buckets pairwise disjoint and their union what it was:
/// no pair is lost, none is duplicated, none returns to Unchecked and none
/// leaves Verified or Tested.
pub proof fn result_keeps_partition(before: Progress, formal: bool, result: CheckResultView)
    requires
        before.partitioned(),
    ensures
        before.after(formal, result).partitioned(),
        before.after(formal, result).all_pairs() == before.all_pairs(),
        before.after(formal, result).follows(before),
{
    if result.error is None {
        promote_all_keeps_partition(before, result.ok, formal);
    }
}

/// As [`result_keeps_partition`], for a sequence of promoted names.
pub proof fn promote_all_keeps_partition(before: Progress, names: Seq<Seq<Seq<char>>>, formal: bool)
    requires
        before.partitioned(),
    ensures
        before.promote_all(names, formal).partitioned(),
        before.promote_all(names, formal).all_pairs() == before.all_pairs(),
        before.promote_all(names, formal).follows(before),
    decreases names.len(),
{
    if names.len() > 0 {
        promote_all_keeps_partition(before, names.drop_last(), formal);
        let mid = before.promote_all(names.drop_last(), formal);
        promote_keeps_partition(mid, names.last(), formal);
        follows_chains(before, mid, mid.promote(names.last(), formal));
    }
}

/// What one component did in a run.
#[derive(Debug)]
pub struct ComponentRun {
    /// Name of the component.
    pub name: String,
    /// Whether the component is a formal checker.
    pub formal: bool,
    /// What the component returned.
    pub result: CheckResult,
}

/// The mathematical value of a [`ComponentRun`].
pub struct ComponentRunView {
    pub name: Seq<char>,
    pub formal: bool,
    pub result: CheckResultView,
}

impl View for ComponentRun {
    type V = ComponentRunView;

    open spec fn view(&self) -> ComponentRunView {
        ComponentRunView { name: self.name@, formal: self.formal, result: self.result@ }
    }
}

/// The buckets after the results of `runs`, applied in order.
pub open spec fn after_runs(start: Progress, runs: Seq<ComponentRunView>) -> Progress
    decreases runs.len(),
{
    if runs.len() == 0 {
        start
    } else {
        after_runs(start, runs.drop_last()).after(runs.last().formal, runs.last().result)
    }
}

/// Partition invariant over a whole run: whatever the components return,
/// the buckets stay pairwise disjoint and their union stays the set of
/// pairs that the run began with; no pair returns to Unchecked and none
/// leaves Verified or Tested.
pub proof fn runs_keep_partition(start: Progress, runs: Seq<ComponentRunView>)
    requires
        start.partitioned(),
    ensures
        after_runs(start, runs).partitioned(),
        after_runs(start, runs).all_pairs() == start.all_pairs(),
        after_runs(start, runs).follows(start),
    decreases runs.len(),
{
    if runs.len() > 0 {
        runs_keep_partition(start, runs.drop_last());
        let mid = after_runs(start, runs.drop_last());
        result_keeps_partition(mid, runs.last().formal, runs.last().result);
        follows_chains(start, mid, mid.after(runs.last().formal, runs.last().result));
    }
}

/// `run` records what `component` did when it saw `checker`: the result
/// is what the component returned for that checker, and the name and the
/// formal flag are what the component gave for itself.
pub open spec fn records<C: Component>(component: &C, checker: &Checker, run: ComponentRun) -> bool {
    &&& call_ensures(C::run, (component, checker), run.result)
    &&& call_ensures(C::is_formal, (component,), run.formal)
    &&& exists|name: &str| #[trigger] call_ensures(C::name, (component,), name) && name@ == run.name@
}

/// `run` is the run of `component` in a run of components that began with
/// the checker `start` and in which `earlier` ran before it: the
/// component saw the checker as those runs left it.
pub open spec fn is_run_of<C: Component>(
    component: &C,
    start: &Checker,
    earlier: Seq<ComponentRunView>,
    run: ComponentRun,
) -> bool {
    exists|seen: Checker|
        {
            &&& #[trigger] seen.same_setting(start)
            &&& seen.progress() == after_runs(start.progress(), earlier)
            &&& records(component, &seen, run)
        }
}

/// The structured summary of a run.
#[derive(Debug)]
pub struct RunReport {
    /// The components that ran, in order, each with what it returned.
    pub runs: Vec<ComponentRun>,
    /// The component that ended the run with an inconsistency, if one did.
    pub stopped_by: Option<String>,
    /// The names that this component reported as inconsistent.
    pub inconsistent: Vec<Path>,
    /// The names that formal components verified.
    pub verified: Vec<Path>,
    /// The names that testing components tested.
    pub tested: Vec<Path>,
    /// The names that never received a verdict.
    pub unchecked: Vec<Path>,
}

impl RunReport {
    /// The run succeeded: no inconsistency was recorded and every pair
    /// received a verdict.
    pub fn success(&self) -> (out: bool)
        ensures
            out == (self.inconsistent@.len() == 0 && self.unchecked@.len() == 0),
    {
        self.inconsistent.len() == 0 && self.unchecked.len() == 0
    }

    /// Some pair was shown to differ between the versions.
    pub fn found_inconsistency(&self) -> (out: bool)
        ensures
            out == (self.inconsistent@.len() > 0),
    {
        self.inconsistent.len() > 0
    }

    /// Some pair never received a verdict.
    pub fn incomplete_coverage(&self) -> (out: bool)
        ensures
            out == (self.unchecked@.len() > 0),
    {
        self.unchecked.len() > 0
    }
}

/// The test for the pairs that are constructors.
pub open spec fn is_constructor_pair() -> spec_fn(CommonFunctionView) -> bool {
    |pair: CommonFunctionView| pair.metadata.is_constructor()
}

/// The test for the pairs that are state getters.
pub open spec fn is_getter_pair() -> spec_fn(CommonFunctionView) -> bool {
    |pair: CommonFunctionView| pair.metadata.is_getter()
}

/// The test for the pairs that are checked: those that are no support
/// functions.
pub open spec fn is_checked_pair() -> spec_fn(CommonFunctionView) -> bool {
    |pair: CommonFunctionView| !pair.metadata.is_support()
}

/// The matched pairs of two sources, aligned with the aliases of both.
pub open spec fn initial_pairs(src1: Source, src2: Source) -> Seq<CommonFunctionView> {
    aligned_pairs(
        matched_pairs(
            crate::model::views(src1.unique_funcs@),
            crate::model::views(src2.unique_funcs@),
        ),
        crate::model::views(src1.inst_types@),
        crate::model::views(src2.inst_types@),
    )
}

/// The checker: two sources and the progress of checking the functions
/// that both define.
#[derive(Debug)]
pub struct Checker {
    /// First source file.
    pub src1: Source,
    /// Second source file.
    pub src2: Source,
    /// The pairs without a verdict.
    pub unchecked_funcs: Vec<CommonFunction>,
    /// The pairs that a formal component verified.
    pub verified_funcs: Vec<CommonFunction>,
    /// The pairs that a testing component passed.
    pub tested_funcs: Vec<CommonFunction>,
    /// The constructors: they build receivers and are not checked themselves.
    pub constructors: Vec<CommonFunction>,
    /// The state getters: they inspect receivers and are not checked themselves.
    pub getters: Vec<CommonFunction>,
    /// The preconditions of checked functions, aligned like the pairs.
    pub preconditions: Vec<Precondition>,
}

impl Checker {
    /// The three buckets of the run.
    pub open spec fn progress(&self) -> Progress {
        Progress {
            unchecked: crate::model::views(self.unchecked_funcs@),
            verified: crate::model::views(self.verified_funcs@),
            tested: crate::model::views(self.tested_funcs@),
        }
    }

    /// Everything but the three buckets is as in `other`.
    pub open spec fn same_setting(&self, other: &Checker) -> bool {
        &&& self.src1 == other.src1
        &&& self.src2 == other.src2
        &&& self.constructors == other.constructors
        &&& self.getters == other.getters
        &&& self.preconditions == other.preconditions
    }

    /// Matches the functions of the two sources, aligns the matched pairs
    /// and the preconditions with the aliases of both sources, sets the
    /// support functions apart and starts the run with every other pair
    /// Unchecked.
    pub fn new(src1: Source, src2: Source, preconditions: Vec<Precondition>) -> (checker: Checker)
        ensures
            checker.progress().unchecked == initial_pairs(src1, src2).filter(is_checked_pair()),
            checker.progress().verified.len() == 0,
            checker.progress().tested.len() == 0,
            checker.progress().partitioned(),
            crate::model::views(checker.constructors@) == initial_pairs(src1, src2).filter(
                is_constructor_pair(),
            ),
            crate::model::views(checker.getters@) == initial_pairs(src1, src2).filter(
                is_getter_pair(),
            ),
            crate::model::views(checker.preconditions@) == aligned_preconditions(
                crate::model::views(preconditions@),
                crate::model::views(src1.inst_types@),
                crate::model::views(src2.inst_types@),
            ),
            crate::model::views(checker.src1.unique_funcs@) == unmatched(
                crate::model::views(src1.unique_funcs@),
                matched_pairs(
                    crate::model::views(src1.unique_funcs@),
                    crate::model::views(src2.unique_funcs@),
                ),
            ),
            crate::model::views(checker.src2.unique_funcs@) == unmatched(
                crate::model::views(src2.unique_funcs@),
                matched_pairs(
                    crate::model::views(src1.unique_funcs@),
                    crate::model::views(src2.unique_funcs@),
                ),
            ),
            checker.src1.path == src1.path,
            checker.src1.content == src1.content,
            checker.src1.symbols == src1.symbols,
            checker.src1.inst_types == src1.inst_types,
            checker.src2.path == src2.path,
            checker.src2.content == src2.content,
            checker.src2.symbols == src2.symbols,
            checker.src2.inst_types == src2.inst_types,
    {
        let Source {
            path: path1,
            content: content1,
            unique_funcs: funcs1,
            symbols: symbols1,
            inst_types: types1,
        } = src1;
        let Source {
            path: path2,
            content: content2,
            unique_funcs: funcs2,
            symbols: symbols2,
            inst_types: types2,
        } = src2;
        let matched = match_functions(&funcs1, &funcs2);
        let unique1 = retain_unmatched(funcs1, &matched);
        let unique2 = retain_unmatched(funcs2, &matched);
        let aligned = align_pairs(matched, &types1, &types2);
        let preconditions = align_preconditions(preconditions, &types1, &types2);

        let mut unchecked_funcs: Vec<CommonFunction> = Vec::new();
        let mut constructors: Vec<CommonFunction> = Vec::new();
        let mut getters: Vec<CommonFunction> = Vec::new();
        let ghost all = crate::model::views(aligned@);
        proof {
            crate::model::filter_empty(is_checked_pair());
            crate::model::filter_empty(is_constructor_pair());
            crate::model::filter_empty(is_getter_pair());
        }
        for pair in it: aligned
            invariant
                crate::model::views(it.seq()) == all,
                crate::model::views(unchecked_funcs@) == all.take(it.index() as int).filter(
                    is_checked_pair(),
                ),
                crate::model::views(constructors@) == all.take(it.index() as int).filter(
                    is_constructor_pair(),
                ),
                crate::model::views(getters@) == all.take(it.index() as int).filter(
                    is_getter_pair(),
                ),
        {
            let ghost unchecked0 = unchecked_funcs@;
            let ghost constructors0 = constructors@;
            let ghost getters0 = getters@;
            proof {
                crate::model::filter_step(all, is_checked_pair(), it.index() as int);
                crate::model::filter_step(all, is_constructor_pair(), it.index() as int);
                crate::model::filter_step(all, is_getter_pair(), it.index() as int);
                reveal_strlit("verieasy_new");
                reveal_strlit("verieasy_get");
                assert("verieasy_new"@ != "verieasy_get"@) by {
                    assert("verieasy_new"@[9] == 'n');
                    assert("verieasy_get"@[9] == 'g');
                }
            }
            if pair.metadata.is_constructor() {
                constructors.push(pair);
                proof {
                    crate::model::views_push(constructors0, pair);
                }
            } else if pair.metadata.is_getter() {
                getters.push(pair);
                proof {
                    crate::model::views_push(getters0, pair);
                }
            } else {
                unchecked_funcs.push(pair);
                proof {
                    crate::model::views_push(unchecked0, pair);
                }
            }
        }
        proof {
            assert(all.take(all.len() as int) =~= all);
        }
        Checker {
            src1: Source {
                path: path1,
                content: content1,
                unique_funcs: unique1,
                symbols: symbols1,
                inst_types: types1,
            },
            src2: Source {
                path: path2,
                content: content2,
                unique_funcs: unique2,
                symbols: symbols2,
                inst_types: types2,
            },
            unchecked_funcs,
            verified_funcs: Vec::new(),
            tested_funcs: Vec::new(),
            constructors,
            getters,
            preconditions,
        }
    }

    /// Moves the pairs named `name` from Unchecked to Verified, if `formal`,
    /// or to Tested. A name that Unchecked does not hold changes nothing.
    pub fn promote(&mut self, name: &Path, formal: bool)
        ensures
            final(self).progress() == old(self).progress().promote(name@, formal),
            final(self).same_setting(old(self)),
    {
        let mut unchecked: Vec<CommonFunction> = Vec::new();
        core::mem::swap(&mut unchecked, &mut self.unchecked_funcs);
        let ghost all = crate::model::views(unchecked@);
        let ghost verified0 = crate::model::views(self.verified_funcs@);
        let ghost tested0 = crate::model::views(self.tested_funcs@);
        proof {
            crate::model::filter_empty(is_named(name@));
            crate::model::filter_empty(is_not_named(name@));
            assert(verified0 + Seq::<CommonFunctionView>::empty() =~= verified0);
            assert(tested0 + Seq::<CommonFunctionView>::empty() =~= tested0);
        }
        for pair in it: unchecked
            invariant
                crate::model::views(it.seq()) == all,
                self.same_setting(old(self)),
                crate::model::views(self.unchecked_funcs@) == all.take(it.index() as int).filter(
                    is_not_named(name@),
                ),
                crate::model::views(self.verified_funcs@) == if formal {
                    verified0 + all.take(it.index() as int).filter(is_named(name@))
                } else {
                    verified0
                },
                crate::model::views(self.tested_funcs@) == if formal {
                    tested0
                } else {
                    tested0 + all.take(it.index() as int).filter(is_named(name@))
                },
        {
            let ghost unchecked1 = self.unchecked_funcs@;
            let ghost verified1 = self.verified_funcs@;
            let ghost tested1 = self.tested_funcs@;
            let ghost moved1 = all.take(it.index() as int).filter(is_named(name@));
            proof {
                crate::model::filter_step(all, is_named(name@), it.index() as int);
                crate::model::filter_step(all, is_not_named(name@), it.index() as int);
            }
            if pair.metadata.name == *name {
                if formal {
                    self.verified_funcs.push(pair);
                    proof {
                        crate::model::views_push(verified1, pair);
                        assert((verified0 + moved1).push(pair@) =~= verified0 + moved1.push(
                            pair@,
                        ));
                    }
                } else {
                    self.tested_funcs.push(pair);
                    proof {
                        crate::model::views_push(tested1, pair);
                        assert((tested0 + moved1).push(pair@) =~= tested0 + moved1.push(pair@));
                    }
                }
            } else {
                self.unchecked_funcs.push(pair);
                proof {
                    crate::model::views_push(unchecked1, pair);
                }
            }
        }
        proof {
            assert(all.take(all.len() as int) =~= all);
        }
    }

    /// Applies one component's result: nothing changes where the component
    /// had an infrastructure error; else each name it passed is promoted,
    /// in order.
    pub fn apply_result(&mut self, formal: bool, result: &CheckResult)
        ensures
            final(self).progress() == old(self).progress().after(formal, result@),
            final(self).same_setting(old(self)),
    {
        if result.status.is_err() {
            return;
        }
        let mut i: usize = 0;
        while i < result.ok.len()
            invariant
                i <= result.ok.len(),
                self.same_setting(old(self)),
                self.progress() == old(self).progress().promote_all(
                    result@.ok.take(i as int),
                    formal,
                ),
            decreases result.ok.len() - i,
        {
            proof {
                assert(result@.ok.take(i + 1).drop_last() =~= result@.ok.take(i as int));
            }
            self.promote(&result.ok[i], formal);
            i += 1;
        }
        proof {
            assert(result@.ok.take(result.ok.len() as int) =~= result@.ok);
        }
    }

    /// Runs the components in order and keeps the buckets up to date.
    ///
    /// Each component sees the checker as the components before it left it.
    /// The run ends after the first component that reports an
    /// inconsistency; the components after it do not run. The report lists
    /// what each component that ran returned, the inconsistent names, and
    /// the names left Unchecked.
    pub fn run_all<C: Component>(&mut self, components: &Vec<C>) -> (report: RunReport)
        ensures
            report.runs@.len() <= components@.len(),
            forall|i: int|
                0 <= i < report.runs@.len() ==> is_run_of(
                    &components@[i],
                    old(self),
                    crate::model::views(report.runs@).take(i),
                    #[trigger] report.runs@[i],
                ),
            final(self).progress() == after_runs(
                old(self).progress(),
                crate::model::views(report.runs@),
            ),
            final(self).same_setting(old(self)),
            forall|i: int|
                0 <= i < report.runs@.len() - 1 ==> !(#[trigger] report.runs@[i])@.result.is_fatal(),
            report.runs@.len() > 0 && report.runs@.last()@.result.is_fatal() ==> {
                &&& crate::model::views(report.inconsistent@) == report.runs@.last()@.result.fail
                &&& crate::model::view_of(report.stopped_by) == Some(report.runs@.last()@.name)
            },
            !(report.runs@.len() > 0 && report.runs@.last()@.result.is_fatal()) ==> {
                &&& report.inconsistent@.len() == 0
                &&& report.stopped_by is None
                &&& report.runs@.len() == components@.len()
            },
            crate::model::views(report.verified@) == names_of(final(self).progress().verified),
            crate::model::views(report.tested@) == names_of(final(self).progress().tested),
            crate::model::views(report.unchecked@) == names_of(final(self).progress().unchecked),
            old(self).progress().partitioned() ==> {
                &&& final(self).progress().partitioned()
                &&& final(self).progress().all_pairs() == old(self).progress().all_pairs()
                &&& final(self).progress().follows(old(self).progress())
            },
    {
        let mut runs: Vec<ComponentRun> = Vec::new();
        let mut inconsistent: Vec<Path> = Vec::new();
        let mut stopped_by: Option<String> = None;
        let mut i: usize = 0;
        while i < components.len()
            invariant_except_break
                i <= components.len(),
                runs@.len() == i,
                inconsistent@.len() == 0,
                stopped_by is None,
                forall|k: int| 0 <= k < runs@.len() ==> !(#[trigger] runs@[k])@.result.is_fatal(),
            invariant
                self.same_setting(old(self)),
                self.progress() == after_runs(old(self).progress(), crate::model::views(runs@)),
                runs@.len() <= components@.len(),
                forall|k: int|
                    0 <= k < runs@.len() ==> is_run_of(
                        &components@[k],
                        old(self),
                        crate::model::views(runs@).take(k),
                        #[trigger] runs@[k],
                    ),
            ensures
                forall|k: int| 0 <= k < runs@.len() - 1 ==> !(#[trigger] runs@[k])@.result.is_fatal(),
                runs@.len() > 0 && runs@.last()@.result.is_fatal() ==> {
                    &&& crate::model::views(inconsistent@) == runs@.last()@.result.fail
                    &&& crate::model::view_of(stopped_by) == Some(runs@.last()@.name)
                },
                !(runs@.len() > 0 && runs@.last()@.result.is_fatal()) ==> {
                    &&& inconsistent@.len() == 0
                    &&& stopped_by is None
                    &&& runs@.len() == components@.len()
                },
            decreases components.len() - i,
        {
            let ghost runs0 = runs@;
            let ghost seen = *self;
            let component = &components[i];
            let result = component.run(&*self);
            let formal = component.is_formal();
            let name = component.name().to_owned();
            self.apply_result(formal, &result);
            let fatal = result.is_fatal();
            if fatal {
                inconsistent = clone_paths(&result.fail);
                stopped_by = Some(name.clone());
            }
            let run = ComponentRun { name, formal, result };
            runs.push(run);
            proof {
                crate::model::views_push(runs0, run);
                assert(crate::model::views(runs@).drop_last() =~= crate::model::views(runs0));
                assert(crate::model::views(runs@).take(i as int) =~= crate::model::views(runs0));
                assert(seen.same_setting(old(self)));
                assert(records(component, &seen, run));
                assert(is_run_of(component, old(self), crate::model::views(runs@).take(i as int), run));
                assert forall|k: int| 0 <= k < runs@.len() implies is_run_of(
                    &components@[k],
                    old(self),
                    crate::model::views(runs@).take(k),
                    #[trigger] runs@[k],
                ) by {
                    if k < i {
                        assert(runs@[k] == runs0[k]);
                        assert(crate::model::views(runs@).take(k) =~= crate::model::views(
                            runs0,
                        ).take(k));
                    }
                }
            }
            if fatal {
                break;
            }
            i += 1;
        }
        proof {
            if old(self).progress().partitioned() {
                runs_keep_partition(old(self).progress(), crate::model::views(runs@));
            }
        }
        RunReport {
            runs,
            stopped_by,
            inconsistent,
            verified: names(&self.verified_funcs),
            tested: names(&self.tested_funcs),
            unchecked: names(&self.unchecked_funcs),
        }
    }

    /// The pairs that a harness is generated from: the unchecked pairs, then
    /// the constructors, then the getters.
    pub fn harness_input(&self) -> (out: Vec<CommonFunction>)
        ensures
            crate::model::views(out@) == self.progress().unchecked + crate::model::views(
                self.constructors@,
            ) + crate::model::views(self.getters@),
    {
        let mut out = crate::defs::function::clone_all(&self.unchecked_funcs);
        let mut constructors = crate::defs::function::clone_all(&self.constructors);
        let mut getters = crate::defs::function::clone_all(&self.getters);
        let ghost a = out@;
        let ghost b = constructors@;
        let ghost c = getters@;
        out.append(&mut constructors);
        out.append(&mut getters);
        proof {
            crate::model::views_concat(a, b);
            crate::model::views_concat(a + b, c);
        }
        out
    }
}

} // verus!
