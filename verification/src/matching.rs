//! Pairing the functions of two versions by signature.
//!
//! Each record of the first list is paired with the first record of the
//! second list that has an equal signature. Records whose name no pair
//! carries stay behind as unique to their version.

use crate::defs::function::{CommonFunction, CommonFunctionView, Function, FunctionView, Signature,
    SignatureView};
use crate::defs::path::Path;
use vstd::prelude::*;

verus! {

/// The least index at or after `from` of a candidate whose signature equals `sig`.
pub open spec fn first_match_from(
    sig: SignatureView,
    candidates: Seq<FunctionView>,
    from: int,
) -> Option<int>
    decreases candidates.len() - from,
{
    if from < 0 || from >= candidates.len() {
        None
    } else if sig.matches(candidates[from].metadata.signature) {
        Some(from)
    } else {
        first_match_from(sig, candidates, from + 1)
    }
}

/// The least index of a candidate whose signature equals `sig`.
pub open spec fn first_match(sig: SignatureView, candidates: Seq<FunctionView>) -> Option<int> {
    first_match_from(sig, candidates, 0)
}

/// What [`first_match_from`] finds is a candidate with an equal signature and
/// none between `from` and it; where it finds nothing there is none at or
/// after `from`.
pub proof fn first_match_is_least(sig: SignatureView, candidates: Seq<FunctionView>, from: int)
    requires
        0 <= from,
    ensures
        match first_match_from(sig, candidates, from) {
            Some(at) => {
                &&& from <= at < candidates.len()
                &&& sig.matches(candidates[at].metadata.signature)
                &&& forall|j: int|
                    from <= j < at ==> !sig.matches((#[trigger] candidates[j]).metadata.signature)
            },
            None => forall|j: int|
                from <= j < candidates.len() ==> !sig.matches(
                    (#[trigger] candidates[j]).metadata.signature,
                ),
        },
    decreases candidates.len() - from,
{
    if from >= candidates.len() {
    } else if sig.matches(candidates[from].metadata.signature) {
    } else {
        first_match_is_least(sig, candidates, from + 1);
    }
}

/// The pair made of a record of the first version and its partner in the
/// second: the metadata of the first, and both bodies.
pub open spec fn pair_of(a: FunctionView, b: FunctionView) -> CommonFunctionView {
    CommonFunctionView { metadata: a.metadata, body1: a.body, body2: b.body }
}

/// The matched pairs: one for each record of `first` that has a partner in
/// `second`, in the order of `first`, each with its first partner.
pub open spec fn matched_pairs(first: Seq<FunctionView>, second: Seq<FunctionView>) -> Seq<
    CommonFunctionView,
>
    decreases first.len(),
{
    if first.len() == 0 {
        Seq::empty()
    } else {
        let front = matched_pairs(first.drop_last(), second);
        match first_match(first.last().metadata.signature, second) {
            Some(at) => front.push(pair_of(first.last(), second[at])),
            None => front,
        }
    }
}

/// A pair stems from the record `a` of the first list and the record `b`
/// of the second: their signatures are equal, and the pair has the
/// metadata of `a` and the bodies of both.
pub open spec fn stems_from(pair: CommonFunctionView, a: FunctionView, b: FunctionView) -> bool {
    &&& a.metadata.signature.matches(b.metadata.signature)
    &&& pair == pair_of(a, b)
}

/// Matching exclusion. Every matched pair stems from a record of the first
/// list and a record of the second list with an equal signature: a
/// function that only one list holds never appears among the pairs.
pub proof fn matched_pairs_have_partners(first: Seq<FunctionView>, second: Seq<FunctionView>)
    ensures
        forall|at: int|
            0 <= at < matched_pairs(first, second).len() ==> exists|k: int, j: int|
                #![trigger first[k], second[j]]
                0 <= k < first.len() && 0 <= j < second.len() && stems_from(
                    #[trigger] matched_pairs(first, second)[at],
                    first[k],
                    second[j],
                ),
    decreases first.len(),
{
    if first.len() > 0 {
        let front = first.drop_last();
        let last = first.len() - 1;
        matched_pairs_have_partners(front, second);
        first_match_is_least(first.last().metadata.signature, second, 0);
        let pairs = matched_pairs(first, second);
        let before = matched_pairs(front, second);
        assert forall|at: int| 0 <= at < pairs.len() implies exists|k: int, j: int|
            #![trigger first[k], second[j]]
            0 <= k < first.len() && 0 <= j < second.len() && stems_from(
                #[trigger] pairs[at],
                first[k],
                second[j],
            ) by {
            if at < before.len() {
                assert(pairs[at] == before[at]);
                let (k, j) = choose|k: int, j: int|
                    #![trigger front[k], second[j]]
                    0 <= k < front.len() && 0 <= j < second.len() && stems_from(
                        before[at],
                        front[k],
                        second[j],
                    );
                assert(front[k] == first[k]);
                assert(stems_from(pairs[at], first[k], second[j]));
            } else {
                let j = first_match(first.last().metadata.signature, second)->Some_0;
                assert(stems_from(pairs[at], first[last], second[j]));
            }
        }
    }
}

/// Matching exclusion, for a record of the first list: where no record of
/// the second list has an equal signature, no pair carries its metadata.
pub proof fn unpartnered_first_is_excluded(
    first: Seq<FunctionView>,
    second: Seq<FunctionView>,
    index: int,
)
    requires
        0 <= index < first.len(),
        forall|j: int|
            0 <= j < second.len() ==> !first[index].metadata.signature.matches(
                (#[trigger] second[j]).metadata.signature,
            ),
    ensures
        forall|at: int|
            0 <= at < matched_pairs(first, second).len() ==> (#[trigger] matched_pairs(
                first,
                second,
            )[at]).metadata != first[index].metadata,
{
    matched_pairs_have_partners(first, second);
    let pairs = matched_pairs(first, second);
    assert forall|at: int| 0 <= at < pairs.len() implies (#[trigger] pairs[at]).metadata
        != first[index].metadata by {
        let (k, j) = choose|k: int, j: int|
            #![trigger first[k], second[j]]
            0 <= k < first.len() && 0 <= j < second.len() && stems_from(
                pairs[at],
                first[k],
                second[j],
            );
        if pairs[at].metadata == first[index].metadata {
            assert(first[index].metadata.signature.matches(second[j].metadata.signature));
        }
    }
}

/// Matching exclusion, for a record of the second list: where no record of
/// the first list has an equal signature, no pair has a signature equal to
/// its own.
pub proof fn unpartnered_second_is_excluded(
    first: Seq<FunctionView>,
    second: Seq<FunctionView>,
    index: int,
)
    requires
        0 <= index < second.len(),
        forall|k: int|
            0 <= k < first.len() ==> !(#[trigger] first[k]).metadata.signature.matches(
                second[index].metadata.signature,
            ),
    ensures
        forall|at: int|
            0 <= at < matched_pairs(first, second).len() ==> !(#[trigger] matched_pairs(
                first,
                second,
            )[at]).metadata.signature.matches(second[index].metadata.signature),
{
    matched_pairs_have_partners(first, second);
    let pairs = matched_pairs(first, second);
    assert forall|at: int| 0 <= at < pairs.len() implies !(
    #[trigger] pairs[at]).metadata.signature.matches(second[index].metadata.signature) by {
        let (k, j) = choose|k: int, j: int|
            #![trigger first[k], second[j]]
            0 <= k < first.len() && 0 <= j < second.len() && stems_from(
                pairs[at],
                first[k],
                second[j],
            );
        assert(pairs[at].metadata.signature == first[k].metadata.signature);
    }
}

/// Matching soundness. A record of the first list that some record of the
/// second list equals in signature, and that alone in its list carries its
/// name, appears exactly once among the matched pairs: one pair has its
/// metadata and body, and no other pair carries its name.
pub proof fn partnered_is_matched_once(
    first: Seq<FunctionView>,
    second: Seq<FunctionView>,
    index: int,
    partner: int,
)
    requires
        0 <= index < first.len(),
        0 <= partner < second.len(),
        first[index].metadata.signature.matches(second[partner].metadata.signature),
        forall|k: int|
            0 <= k < first.len() && k != index ==> (#[trigger] first[k]).metadata.name
                != first[index].metadata.name,
    ensures
        exists|at: int|
            {
                &&& 0 <= at < matched_pairs(first, second).len()
                &&& (#[trigger] matched_pairs(first, second)[at]).metadata == first[index].metadata
                &&& matched_pairs(first, second)[at].body1 == first[index].body
                &&& forall|other: int|
                    0 <= other < matched_pairs(first, second).len() && (#[trigger] matched_pairs(
                        first,
                        second,
                    )[other]).metadata.name == first[index].metadata.name ==> other == at
            },
    decreases first.len(),
{
    let front = first.drop_last();
    let last = first.len() - 1;
    let pairs = matched_pairs(first, second);
    let before = matched_pairs(front, second);
    let name = first[index].metadata.name;
    first_match_is_least(first.last().metadata.signature, second, 0);
    matched_pairs_have_partners(front, second);
    if index == last {
        let at = before.len() as int;
        assert(pairs[at].metadata == first[index].metadata);
        assert forall|other: int|
            0 <= other < pairs.len() && (#[trigger] pairs[other]).metadata.name
                == name implies other == at by {
            if other < before.len() {
                let (k, j) = choose|k: int, j: int|
                    #![trigger front[k], second[j]]
                    0 <= k < front.len() && 0 <= j < second.len() && stems_from(
                        before[other],
                        front[k],
                        second[j],
                    );
                assert(first[k].metadata.name != name);
                assert(pairs[other] == before[other]);
            }
        }
    } else {
        assert(front[index] == first[index]);
        assert forall|k: int| 0 <= k < front.len() && k != index implies (
        #[trigger] front[k]).metadata.name != front[index].metadata.name by {
            assert(first[k].metadata.name != name);
        }
        partnered_is_matched_once(front, second, index, partner);
        let at = choose|at: int|
            {
                &&& 0 <= at < before.len()
                &&& (#[trigger] before[at]).metadata == front[index].metadata
                &&& before[at].body1 == front[index].body
                &&& forall|other: int|
                    0 <= other < before.len() && (#[trigger] before[other]).metadata.name
                        == front[index].metadata.name ==> other == at
            };
        assert(pairs[at] == before[at]);
        assert(first[last].metadata.name != name);
        assert forall|other: int|
            0 <= other < pairs.len() && (#[trigger] pairs[other]).metadata.name
                == name implies other == at by {
            if other < before.len() {
                assert(pairs[other] == before[other]);
            }
        }
    }
}

/// Some pair carries the name `name`.
pub open spec fn names_pair(pairs: Seq<CommonFunctionView>, name: Seq<Seq<char>>) -> bool {
    exists|k: int| 0 <= k < pairs.len() && (#[trigger] pairs[k]).metadata.name == name
}

/// The test that keeps the records whose name no pair carries.
pub open spec fn is_unique(pairs: Seq<CommonFunctionView>) -> spec_fn(FunctionView) -> bool {
    |f: FunctionView| !names_pair(pairs, f.metadata.name)
}

/// The records that stay unique to their version: those whose name no
/// matched pair carries, in their order.
pub open spec fn unmatched(records: Seq<FunctionView>, pairs: Seq<CommonFunctionView>) -> Seq<
    FunctionView,
> {
    records.filter(is_unique(pairs))
}

/// The outcome of matching two lists of function records.
#[derive(Debug)]
pub struct Matching {
    /// The matched pairs, subject to verification.
    pub matched: Vec<CommonFunction>,
    /// The records of the first list that no pair names.
    pub unique1: Vec<Function>,
    /// The records of the second list that no pair names.
    pub unique2: Vec<Function>,
}

/// The index of the first candidate whose signature equals `sig`.
pub fn find_match(sig: &Signature, candidates: &Vec<Function>) -> (found: Option<usize>)
    ensures
        match found {
            Some(at) => first_match(sig@, crate::model::views(candidates@)) == Some(at as int),
            None => first_match(sig@, crate::model::views(candidates@)) is None,
        },
        found matches Some(at) ==> at < candidates.len(),
{
    let mut at: usize = 0;
    while at < candidates.len()
        invariant
            at <= candidates.len(),
            first_match(sig@, crate::model::views(candidates@)) == first_match_from(
                sig@,
                crate::model::views(candidates@),
                at as int,
            ),
        decreases candidates.len() - at,
    {
        if sig.matches(&candidates[at].metadata.signature) {
            return Some(at);
        }
        at += 1;
    }
    None
}

/// Pairs each record of `first` with its first partner in `second`.
pub fn match_functions(first: &Vec<Function>, second: &Vec<Function>) -> (matched: Vec<
    CommonFunction,
>)
    ensures
        crate::model::views(matched@) == matched_pairs(
            crate::model::views(first@),
            crate::model::views(second@),
        ),
{
    let mut matched: Vec<CommonFunction> = Vec::new();
    let mut i: usize = 0;
    while i < first.len()
        invariant
            i <= first.len(),
            crate::model::views(matched@) == matched_pairs(
                crate::model::views(first@).take(i as int),
                crate::model::views(second@),
            ),
        decreases first.len() - i,
    {
        let ghost before = matched@;
        proof {
            assert(crate::model::views(first@).take(i + 1).drop_last() =~= crate::model::views(
                first@,
            ).take(i as int));
            first_match_is_least(
                first@[i as int]@.metadata.signature,
                crate::model::views(second@),
                0,
            );
        }
        match find_match(&first[i].metadata.signature, second) {
            Some(at) => {
                let pair = CommonFunction::new(
                    first[i].metadata.clone(),
                    first[i].body.clone(),
                    second[at].body.clone(),
                );
                matched.push(pair);
                proof {
                    crate::model::views_push(before, pair);
                }
            },
            None => {},
        }
        i += 1;
    }
    proof {
        assert(crate::model::views(first@).take(first.len() as int) =~= crate::model::views(
            first@,
        ));
    }
    matched
}

/// Tells whether some pair carries the name `name`.
pub fn has_pair_named(pairs: &Vec<CommonFunction>, name: &Path) -> (found: bool)
    ensures
        found == names_pair(crate::model::views(pairs@), name@),
{
    let mut k: usize = 0;
    while k < pairs.len()
        invariant
            k <= pairs.len(),
            forall|j: int| 0 <= j < k ==> (#[trigger] crate::model::views(pairs@)[j]).metadata.name != name@,
        decreases pairs.len() - k,
    {
        if pairs[k].metadata.name == *name {
            proof {
                assert(crate::model::views(pairs@)[k as int].metadata.name == name@);
            }
            return true;
        }
        k += 1;
    }
    false
}

/// Keeps the records whose name no pair carries.
pub fn retain_unmatched(records: Vec<Function>, pairs: &Vec<CommonFunction>) -> (kept: Vec<Function>)
    ensures
        crate::model::views(kept@) == unmatched(
            crate::model::views(records@),
            crate::model::views(pairs@),
        ),
{
    let mut kept: Vec<Function> = Vec::new();
    let ghost all = crate::model::views(records@);
    let ghost keep = is_unique(crate::model::views(pairs@));
    proof {
        crate::model::filter_empty(keep);
    }
    for record in it: records
        invariant
            crate::model::views(it.seq()) == all,
            keep == is_unique(crate::model::views(pairs@)),
            crate::model::views(kept@) == all.take(it.index() as int).filter(keep),
    {
        let ghost before = kept@;
        proof {
            crate::model::filter_step(all, keep, it.index() as int);
        }
        if !has_pair_named(pairs, &record.metadata.name) {
            kept.push(record);
            proof {
                crate::model::views_push(before, record);
            }
        }
    }
    proof {
        assert(all.take(all.len() as int) =~= all);
    }
    kept
}

/// Matches two lists of function records.
///
/// A record of `first` has a partner when some record of `second` has an
/// equal signature; it is paired with the first such record. The records of
/// either list whose name no pair carries are handed back as unique to their
/// version.
pub fn match_sources(first: Vec<Function>, second: Vec<Function>) -> (out: Matching)
    ensures
        crate::model::views(out.matched@) == matched_pairs(
            crate::model::views(first@),
            crate::model::views(second@),
        ),
        crate::model::views(out.unique1@) == unmatched(
            crate::model::views(first@),
            crate::model::views(out.matched@),
        ),
        crate::model::views(out.unique2@) == unmatched(
            crate::model::views(second@),
            crate::model::views(out.matched@),
        ),
{
    let matched = match_functions(&first, &second);
    let unique1 = retain_unmatched(first, &matched);
    let unique2 = retain_unmatched(second, &matched);
    Matching { matched, unique1, unique2 }
}

} // verus!
