//! Classifying matched pairs into functions, methods, constructors and
//! state getters, and pruning what a harness cannot use.

use crate::defs::function::{CommonFunction, CommonFunctionView, FunctionMetadataView,
    constructor_marker};
use crate::defs::path::Path;
use crate::defs::types::{Type, TypeView};
use vstd::prelude::*;
use vstd::string::StringExecFns;

verus! {

/// What a matched pair is classified as.
#[derive(Clone, Copy, Debug, PartialEq, Eq, Structural)]
pub enum Kind {
    /// A free-standing function, or an associated function without receiver.
    Function,
    /// A function of an owning type that takes a receiver.
    Method,
    /// The constructor of its owning type.
    Constructor,
    /// The state getter of its owning type.
    Getter,
}

/// The classification rules, in order of priority: the constructor marker
/// makes a constructor of a function with an owning type, the getter
/// marker a getter; of the others a receiver makes a method, and anything
/// else is a function.
pub open spec fn kind_of(metadata: FunctionMetadataView) -> Kind {
    if metadata.is_constructor() {
        Kind::Constructor
    } else if metadata.is_getter() {
        Kind::Getter
    } else if metadata.signature.has_receiver() {
        Kind::Method
    } else {
        Kind::Function
    }
}

/// The type that stands for the owning type inside its own items.
pub open spec fn self_type() -> TypeView {
    TypeView::Precise(seq!["Self"@])
}

/// Classifier correctness, for receivers: a pair with a receiver is never
/// a function, and is a method unless it is a support function.
pub proof fn receiver_makes_method(metadata: FunctionMetadataView)
    requires
        metadata.signature.has_receiver(),
    ensures
        kind_of(metadata) != Kind::Function,
        !metadata.is_support() ==> kind_of(metadata) == Kind::Method,
{
}

/// Classifier correctness, for constructors: a pair without receiver whose
/// return type equals its owning type, or is the self type, and whose
/// identifier is the constructor marker is a constructor.
pub proof fn marker_makes_constructor(metadata: FunctionMetadataView)
    requires
        !metadata.signature.has_receiver(),
        metadata.impl_type is Some,
        metadata.signature.output == metadata.impl_type || metadata.signature.output == Some(
            self_type(),
        ),
        metadata.signature.ident == constructor_marker(),
    ensures
        kind_of(metadata) == Kind::Constructor,
{
}

/// Some entry is owned by `owner`.
pub open spec fn has_owner(entries: Seq<CommonFunctionView>, owner: Option<TypeView>) -> bool {
    owner is Some && exists|k: int|
        0 <= k < entries.len() && (#[trigger] entries[k]).metadata.impl_type == owner
}

/// The least index at or after `from` of an entry owned by `owner`.
pub open spec fn owner_index_from(
    entries: Seq<CommonFunctionView>,
    owner: Option<TypeView>,
    from: int,
) -> Option<int>
    decreases entries.len() - from,
{
    if from < 0 || from >= entries.len() || owner is None {
        None
    } else if entries[from].metadata.impl_type == owner {
        Some(from)
    } else {
        owner_index_from(entries, owner, from + 1)
    }
}

/// The least index of an entry owned by `owner`.
pub open spec fn owner_index(entries: Seq<CommonFunctionView>, owner: Option<TypeView>) -> Option<
    int,
> {
    owner_index_from(entries, owner, 0)
}

/// What [`owner_index_from`] finds is an entry of `owner` with none between
/// `from` and it; where it finds nothing there is none at or after `from`.
pub proof fn owner_index_is_least(
    entries: Seq<CommonFunctionView>,
    owner: Option<TypeView>,
    from: int,
)
    requires
        0 <= from,
    ensures
        match owner_index_from(entries, owner, from) {
            Some(at) => {
                &&& owner is Some
                &&& from <= at < entries.len()
                &&& entries[at].metadata.impl_type == owner
                &&& forall|j: int|
                    from <= j < at ==> (#[trigger] entries[j]).metadata.impl_type != owner
            },
            None => owner is None || forall|j: int|
                from <= j < entries.len() ==> (#[trigger] entries[j]).metadata.impl_type != owner,
        },
    decreases entries.len() - from,
{
    if from >= entries.len() || owner is None {
    } else if entries[from].metadata.impl_type == owner {
    } else {
        owner_index_is_least(entries, owner, from + 1);
    }
}

/// The test for the pairs whose owning type owns some entry of `entries`.
pub open spec fn owner_in(entries: Seq<CommonFunctionView>) -> spec_fn(CommonFunctionView) -> bool {
    |pair: CommonFunctionView| has_owner(entries, pair.metadata.impl_type)
}

/// The test for the pairs whose owning type owns no entry of `entries`.
pub open spec fn owner_not_in(entries: Seq<CommonFunctionView>) -> spec_fn(
    CommonFunctionView,
) -> bool {
    |pair: CommonFunctionView| !has_owner(entries, pair.metadata.impl_type)
}

/// No two entries have the same owning type, and each has one.
pub open spec fn distinct_owners(entries: Seq<CommonFunctionView>) -> bool {
    &&& forall|i: int| 0 <= i < entries.len() ==> (#[trigger] entries[i]).metadata.impl_type is Some
    &&& forall|i: int, j: int|
        0 <= i < j < entries.len() ==> (#[trigger] entries[i]).metadata.impl_type != (
        #[trigger] entries[j]).metadata.impl_type
}

/// Registers a support function under its owning type: it takes the place
/// of the entry that the type already has, or is added as a new entry.
pub open spec fn registered(entries: Seq<CommonFunctionView>, pair: CommonFunctionView) -> Seq<
    CommonFunctionView,
> {
    match owner_index(entries, pair.metadata.impl_type) {
        Some(at) => if 0 <= at < entries.len() {
            entries.update(at, pair)
        } else {
            entries
        },
        None => entries.push(pair),
    }
}

/// The four buckets of a classification.
pub struct Buckets {
    pub functions: Seq<CommonFunctionView>,
    pub methods: Seq<CommonFunctionView>,
    pub constructors: Seq<CommonFunctionView>,
    pub getters: Seq<CommonFunctionView>,
}

impl Buckets {
    /// The buckets with nothing in them.
    pub open spec fn empty() -> Buckets {
        Buckets {
            functions: Seq::empty(),
            methods: Seq::empty(),
            constructors: Seq::empty(),
            getters: Seq::empty(),
        }
    }

    /// The buckets with `pair` placed by its kind.
    pub open spec fn place(self, pair: CommonFunctionView) -> Buckets {
        match kind_of(pair.metadata) {
            Kind::Function => Buckets { functions: self.functions.push(pair), ..self },
            Kind::Method => Buckets { methods: self.methods.push(pair), ..self },
            Kind::Constructor => Buckets {
                constructors: registered(self.constructors, pair),
                ..self
            },
            Kind::Getter => Buckets { getters: registered(self.getters, pair), ..self },
        }
    }

    /// Every constructor and getter has an owning type, and no two
    /// constructors and no two getters share one.
    pub open spec fn well_formed(self) -> bool {
        &&& distinct_owners(self.constructors)
        &&& distinct_owners(self.getters)
    }

    /// First pruning pass: the constructors and getters of owning types
    /// without a method are dropped.
    pub open spec fn without_unused_support(self) -> Buckets {
        Buckets {
            constructors: self.constructors.filter(owner_in(self.methods)),
            getters: self.getters.filter(owner_in(self.methods)),
            ..self
        }
    }

    /// Second pruning pass: the methods of owning types without a
    /// constructor are dropped, and with them the methods without an
    /// owning type.
    pub open spec fn without_orphan_methods(self) -> Buckets {
        Buckets { methods: self.methods.filter(owner_in(self.constructors)), ..self }
    }

    /// The methods that the second pruning pass drops after the first
    /// pass: those of owning types without a constructor.
    pub open spec fn orphan_methods(self) -> Seq<CommonFunctionView> {
        self.methods.filter(owner_not_in(self.without_unused_support().constructors))
    }

    /// Both pruning passes, in their order.
    pub open spec fn pruned(self) -> Buckets {
        self.without_unused_support().without_orphan_methods()
    }

    /// Every method has its constructor: a harness can be generated.
    pub open spec fn usable(self) -> bool {
        forall|i: int|
            0 <= i < self.methods.len() ==> has_owner(
                self.constructors,
                (#[trigger] self.methods[i]).metadata.impl_type,
            )
    }
}

/// The buckets that hold `pairs`, each placed in order by its kind.
pub open spec fn classified(pairs: Seq<CommonFunctionView>) -> Buckets
    decreases pairs.len(),
{
    if pairs.len() == 0 {
        Buckets::empty()
    } else {
        classified(pairs.drop_last()).place(pairs.last())
    }
}

/// Registering keeps owning types distinct.
pub proof fn registered_keeps_distinct(entries: Seq<CommonFunctionView>, pair: CommonFunctionView)
    requires
        distinct_owners(entries),
        pair.metadata.impl_type is Some,
    ensures
        distinct_owners(registered(entries, pair)),
{
    owner_index_is_least(entries, pair.metadata.impl_type, 0);
    let out = registered(entries, pair);
    match owner_index(entries, pair.metadata.impl_type) {
        Some(at) => {
            assert forall|i: int, j: int| 0 <= i < j < out.len() implies (
            #[trigger] out[i]).metadata.impl_type != (#[trigger] out[j]).metadata.impl_type by {
                assert(entries[i].metadata.impl_type != entries[j].metadata.impl_type);
                assert(out[i].metadata.impl_type == entries[i].metadata.impl_type);
                assert(out[j].metadata.impl_type == entries[j].metadata.impl_type);
            }
            assert forall|i: int| 0 <= i < out.len() implies (
            #[trigger] out[i]).metadata.impl_type is Some by {
                assert(out[i].metadata.impl_type == entries[i].metadata.impl_type);
            }
        },
        None => {
            assert forall|i: int, j: int| 0 <= i < j < out.len() implies (
            #[trigger] out[i]).metadata.impl_type != (#[trigger] out[j]).metadata.impl_type by {
                if j < entries.len() {
                    assert(entries[i].metadata.impl_type != entries[j].metadata.impl_type);
                } else {
                    assert(entries[i].metadata.impl_type != pair.metadata.impl_type);
                }
            }
        },
    }
}

/// Every classification is well formed.
pub proof fn classified_is_well_formed(pairs: Seq<CommonFunctionView>)
    ensures
        classified(pairs).well_formed(),
    decreases pairs.len(),
{
    if pairs.len() > 0 {
        classified_is_well_formed(pairs.drop_last());
        let before = classified(pairs.drop_last());
        let pair = pairs.last();
        match kind_of(pair.metadata) {
            Kind::Constructor => {
                registered_keeps_distinct(before.constructors, pair);
            },
            Kind::Getter => {
                registered_keeps_distinct(before.getters, pair);
            },
            _ => {},
        }
    }
}

/// A filter keeps owning types distinct.
pub proof fn filter_keeps_distinct(
    entries: Seq<CommonFunctionView>,
    keep: spec_fn(CommonFunctionView) -> bool,
)
    requires
        distinct_owners(entries),
    ensures
        distinct_owners(entries.filter(keep)),
    decreases entries.len(),
{
    reveal(Seq::filter);
    if entries.len() > 0 {
        let front = entries.drop_last();
        filter_keeps_distinct(front, keep);
        crate::model::filter_members(front, keep);
        let out = entries.filter(keep);
        if keep(entries.last()) {
            assert forall|i: int, j: int| 0 <= i < j < out.len() implies (
            #[trigger] out[i]).metadata.impl_type != (#[trigger] out[j]).metadata.impl_type by {
                if j == out.len() - 1 {
                    assert(front.filter(keep).contains(out[i]));
                    let at = choose|at: int| 0 <= at < front.len() && front[at] == out[i];
                    assert(entries[at].metadata.impl_type != entries[entries.len()
                        - 1].metadata.impl_type);
                }
            }
            assert forall|i: int| 0 <= i < out.len() implies (
            #[trigger] out[i]).metadata.impl_type is Some by {
                if i == out.len() - 1 {
                    assert(entries[entries.len() - 1].metadata.impl_type is Some);
                }
            }
        }
    }
}

/// Pruning consistency. After both pruning passes every surviving method's
/// owning type has exactly one surviving constructor, and every surviving
/// constructor's owning type has at least one surviving method. The same
/// holds of every surviving getter whose owning type had a constructor
/// before pruning.
pub proof fn pruning_is_consistent(buckets: Buckets)
    requires
        buckets.well_formed(),
    ensures
        buckets.pruned().well_formed(),
        buckets.pruned().usable(),
        forall|i: int|
            0 <= i < buckets.pruned().methods.len() ==> exists|k: int|
                #![trigger buckets.pruned().constructors[k]]
                {
                    &&& 0 <= k < buckets.pruned().constructors.len()
                    &&& buckets.pruned().constructors[k].metadata.impl_type == (
                    #[trigger] buckets.pruned().methods[i]).metadata.impl_type
                    &&& forall|k2: int|
                        0 <= k2 < buckets.pruned().constructors.len() && (
                        #[trigger] buckets.pruned().constructors[k2]).metadata.impl_type
                            == buckets.pruned().methods[i].metadata.impl_type ==> k2 == k
                },
        forall|k: int|
            0 <= k < buckets.pruned().constructors.len() ==> has_owner(
                buckets.pruned().methods,
                (#[trigger] buckets.pruned().constructors[k]).metadata.impl_type,
            ),
        forall|k: int|
            0 <= k < buckets.pruned().getters.len() && has_owner(
                buckets.constructors,
                (#[trigger] buckets.pruned().getters[k]).metadata.impl_type,
            ) ==> has_owner(buckets.pruned().methods, buckets.pruned().getters[k].metadata.impl_type),
{
    let mid = buckets.without_unused_support();
    let out = buckets.pruned();
    filter_keeps_distinct(buckets.constructors, owner_in(buckets.methods));
    filter_keeps_distinct(buckets.getters, owner_in(buckets.methods));
    crate::model::filter_members(buckets.constructors, owner_in(buckets.methods));
    crate::model::filter_members(buckets.getters, owner_in(buckets.methods));
    crate::model::filter_members(mid.methods, owner_in(mid.constructors));
    assert forall|i: int| 0 <= i < out.methods.len() implies has_owner(
        out.constructors,
        (#[trigger] out.methods[i]).metadata.impl_type,
    ) by {
        assert(out.methods.contains(out.methods[i]));
    }
    assert forall|i: int| 0 <= i < out.methods.len() implies exists|k: int|
        #![trigger out.constructors[k]]
        {
            &&& 0 <= k < out.constructors.len()
            &&& out.constructors[k].metadata.impl_type == (
            #[trigger] out.methods[i]).metadata.impl_type
            &&& forall|k2: int|
                0 <= k2 < out.constructors.len() && (
                #[trigger] out.constructors[k2]).metadata.impl_type
                    == out.methods[i].metadata.impl_type ==> k2 == k
        } by {
        let owner = out.methods[i].metadata.impl_type;
        assert(has_owner(out.constructors, owner));
        let k = choose|k: int|
            0 <= k < out.constructors.len() && (#[trigger] out.constructors[k]).metadata.impl_type
                == owner;
        assert forall|k2: int|
            0 <= k2 < out.constructors.len() && (
            #[trigger] out.constructors[k2]).metadata.impl_type == owner implies k2 == k by {
            if k2 < k {
                assert(out.constructors[k2].metadata.impl_type
                    != out.constructors[k].metadata.impl_type);
            } else if k < k2 {
                assert(out.constructors[k].metadata.impl_type
                    != out.constructors[k2].metadata.impl_type);
            }
        }
    }
    assert forall|k: int| 0 <= k < out.constructors.len() implies has_owner(
        out.methods,
        (#[trigger] out.constructors[k]).metadata.impl_type,
    ) by {
        let c = out.constructors[k];
        assert(out.constructors.contains(c));
        assert(has_owner(buckets.methods, c.metadata.impl_type));
        let m = choose|m: int|
            0 <= m < buckets.methods.len() && (#[trigger] buckets.methods[m]).metadata.impl_type
                == c.metadata.impl_type;
        assert(buckets.methods.contains(buckets.methods[m]));
        assert(has_owner(mid.constructors, buckets.methods[m].metadata.impl_type));
        assert(out.methods.contains(buckets.methods[m]));
        let at = choose|at: int| 0 <= at < out.methods.len() && out.methods[at] == buckets.methods[m];
        assert(out.methods[at].metadata.impl_type == c.metadata.impl_type);
    }
    assert forall|k: int|
        0 <= k < out.getters.len() && has_owner(
            buckets.constructors,
            (#[trigger] out.getters[k]).metadata.impl_type,
        ) implies has_owner(out.methods, out.getters[k].metadata.impl_type) by {
        let g = out.getters[k];
        assert(out.getters.contains(g));
        assert(has_owner(buckets.methods, g.metadata.impl_type));
        let m = choose|m: int|
            0 <= m < buckets.methods.len() && (#[trigger] buckets.methods[m]).metadata.impl_type
                == g.metadata.impl_type;
        let c = choose|c: int|
            0 <= c < buckets.constructors.len() && (
            #[trigger] buckets.constructors[c]).metadata.impl_type == g.metadata.impl_type;
        assert(buckets.constructors.contains(buckets.constructors[c]));
        assert(mid.constructors.contains(buckets.constructors[c]));
        let c2 = choose|c2: int|
            0 <= c2 < mid.constructors.len() && mid.constructors[c2] == buckets.constructors[c];
        assert(mid.constructors[c2].metadata.impl_type == g.metadata.impl_type);
        assert(has_owner(mid.constructors, buckets.methods[m].metadata.impl_type));
        assert(buckets.methods.contains(buckets.methods[m]));
        assert(out.methods.contains(buckets.methods[m]));
        let at = choose|at: int| 0 <= at < out.methods.len() && out.methods[at] == buckets.methods[m];
        assert(out.methods[at].metadata.impl_type == g.metadata.impl_type);
    }
}

/// The prefix of the name of every comparison routine.
pub open spec fn routine_prefix() -> Seq<char> {
    "check_"@
}

/// The names of the comparison routines of `pairs`, each in its place.
pub open spec fn routine_names_of(pairs: Seq<CommonFunctionView>) -> Seq<Seq<char>> {
    pairs.map_values(
        |pair: CommonFunctionView|
            routine_prefix() + crate::text::joined(pair.metadata.name, "___"@),
    )
}

/// The name of the comparison routine of the function named `name`:
/// `check_` and the flattened name.
pub fn routine_name(name: &Path) -> (out: String)
    ensures
        out@ == routine_prefix() + crate::text::joined(name@, "___"@),
{
    let mut out = String::from_str("check_");
    let flat = name.to_ident();
    out.append(flat.as_str());
    out
}

/// The matched pairs by kind:
///
/// - free-standing functions (without `self` receiver),
/// - methods (with `self` receiver),
/// - constructors (named `verieasy_new` inside an `impl` block),
/// - state getters (named `verieasy_get` inside an `impl` block).
#[derive(Debug)]
pub struct FunctionClassifier {
    /// Free-standing functions.
    pub functions: Vec<CommonFunction>,
    /// Methods.
    pub methods: Vec<CommonFunction>,
    /// Constructors, at most one for each owning type.
    pub constructors: Vec<CommonFunction>,
    /// State getters, at most one for each owning type.
    pub getters: Vec<CommonFunction>,
}

impl View for FunctionClassifier {
    type V = Buckets;

    open spec fn view(&self) -> Buckets {
        Buckets {
            functions: crate::model::views(self.functions@),
            methods: crate::model::views(self.methods@),
            constructors: crate::model::views(self.constructors@),
            getters: crate::model::views(self.getters@),
        }
    }
}

/// Tells whether the two optional types are equal.
pub fn same_owner(a: &Option<Type>, b: &Option<Type>) -> (same: bool)
    ensures
        same == (crate::model::view_of(*a) == crate::model::view_of(*b)),
{
    match (a, b) {
        (Some(x), Some(y)) => *x == *y,
        (None, None) => true,
        _ => false,
    }
}

/// The index of the first entry owned by `owner`.
pub fn find_owner(entries: &Vec<CommonFunction>, owner: &Option<Type>) -> (found: Option<usize>)
    ensures
        match found {
            Some(at) => owner_index(
                crate::model::views(entries@),
                crate::model::view_of(*owner),
            ) == Some(at as int),
            None => owner_index(crate::model::views(entries@), crate::model::view_of(*owner))
                is None,
        },
        found matches Some(at) ==> at < entries.len(),
        found is Some <==> has_owner(crate::model::views(entries@), crate::model::view_of(*owner)),
{
    proof {
        owner_index_is_least(crate::model::views(entries@), crate::model::view_of(*owner), 0);
    }
    if owner.is_none() {
        return None;
    }
    let mut at: usize = 0;
    while at < entries.len()
        invariant
            at <= entries.len(),
            owner is Some,
            owner_index(crate::model::views(entries@), crate::model::view_of(*owner))
                == owner_index_from(
                crate::model::views(entries@),
                crate::model::view_of(*owner),
                at as int,
            ),
        decreases entries.len() - at,
    {
        if same_owner(&entries[at].metadata.impl_type, owner) {
            return Some(at);
        }
        at += 1;
    }
    None
}

/// Registers a support function under its owning type, see [`registered`].
pub fn register(entries: &mut Vec<CommonFunction>, pair: CommonFunction)
    ensures
        crate::model::views(final(entries)@) == registered(
            crate::model::views(old(entries)@),
            pair@,
        ),
{
    let ghost before = entries@;
    match find_owner(entries, &pair.metadata.impl_type) {
        Some(at) => {
            entries[at] = pair;
            proof {
                assert(crate::model::views(entries@) =~= crate::model::views(before).update(
                    at as int,
                    pair@,
                ));
            }
        },
        None => {
            entries.push(pair);
            proof {
                crate::model::views_push(before, pair);
            }
        },
    }
}

/// Splits the entries into those whose owning type owns some entry of
/// `others`, which are kept, and the rest, which are dropped. Both keep
/// their order.
pub fn split_owned(entries: Vec<CommonFunction>, others: &Vec<CommonFunction>) -> (out: (
    Vec<CommonFunction>,
    Vec<CommonFunction>,
))
    ensures
        crate::model::views(out.0@) == crate::model::views(entries@).filter(
            owner_in(crate::model::views(others@)),
        ),
        crate::model::views(out.1@) == crate::model::views(entries@).filter(
            owner_not_in(crate::model::views(others@)),
        ),
{
    let mut kept: Vec<CommonFunction> = Vec::new();
    let mut dropped: Vec<CommonFunction> = Vec::new();
    let ghost all = crate::model::views(entries@);
    let ghost keep = owner_in(crate::model::views(others@));
    let ghost drop = owner_not_in(crate::model::views(others@));
    proof {
        crate::model::filter_empty(keep);
        crate::model::filter_empty(drop);
    }
    for entry in it: entries
        invariant
            crate::model::views(it.seq()) == all,
            keep == owner_in(crate::model::views(others@)),
            drop == owner_not_in(crate::model::views(others@)),
            crate::model::views(kept@) == all.take(it.index() as int).filter(keep),
            crate::model::views(dropped@) == all.take(it.index() as int).filter(drop),
    {
        let ghost kept0 = kept@;
        let ghost dropped0 = dropped@;
        proof {
            crate::model::filter_step(all, keep, it.index() as int);
            crate::model::filter_step(all, drop, it.index() as int);
        }
        if find_owner(others, &entry.metadata.impl_type).is_some() {
            kept.push(entry);
            proof {
                crate::model::views_push(kept0, entry);
            }
        } else {
            dropped.push(entry);
            proof {
                crate::model::views_push(dropped0, entry);
            }
        }
    }
    proof {
        assert(all.take(all.len() as int) =~= all);
    }
    (kept, dropped)
}

impl FunctionClassifier {
    /// Classify functions into free-standing functions, methods, constructors
    /// and state getters.
    pub fn classify(functions: Vec<CommonFunction>) -> (out: FunctionClassifier)
        ensures
            out@ == classified(crate::model::views(functions@)),
            out@.well_formed(),
    {
        let mut out = FunctionClassifier {
            functions: Vec::new(),
            methods: Vec::new(),
            constructors: Vec::new(),
            getters: Vec::new(),
        };
        let ghost all = crate::model::views(functions@);
        proof {
            assert(out@.functions =~= Seq::empty());
            assert(out@.methods =~= Seq::empty());
            assert(out@.constructors =~= Seq::empty());
            assert(out@.getters =~= Seq::empty());
        }
        for func in it: functions
            invariant
                crate::model::views(it.seq()) == all,
                out@ == classified(all.take(it.index() as int)),
        {
            let ghost before = out;
            proof {
                assert(all.take(it.index() + 1).drop_last() =~= all.take(it.index() as int));
                reveal_strlit("verieasy_new");
                reveal_strlit("verieasy_get");
            }
            if func.metadata.is_constructor() {
                register(&mut out.constructors, func);
            } else if func.metadata.is_getter() {
                register(&mut out.getters, func);
            } else if func.metadata.signature.has_receiver() {
                out.methods.push(func);
                proof {
                    crate::model::views_push(before.methods@, func);
                }
            } else {
                out.functions.push(func);
                proof {
                    crate::model::views_push(before.functions@, func);
                }
            }
        }
        proof {
            assert(all.take(all.len() as int) =~= all);
            classified_is_well_formed(all);
        }
        out
    }

    /// The names of the comparison routines, those of the functions before
    /// those of the methods: each is `check_` and the flattened name of
    /// the pair.
    pub fn routine_names(&self) -> (out: Vec<String>)
        ensures
            crate::model::views(out@) == routine_names_of(self@.functions + self@.methods),
    {
        let mut out: Vec<String> = Vec::new();
        let ghost all = self@.functions + self@.methods;
        let mut i: usize = 0;
        while i < self.functions.len()
            invariant
                i <= self.functions.len(),
                all == self@.functions + self@.methods,
                crate::model::views(out@) == routine_names_of(all).take(i as int),
            decreases self.functions.len() - i,
        {
            let ghost before = out@;
            let name = routine_name(&self.functions[i].metadata.name);
            out.push(name);
            proof {
                crate::model::views_push(before, name);
                assert(all[i as int] == self@.functions[i as int]);
                assert(routine_names_of(all).take(i + 1) =~= routine_names_of(all).take(
                    i as int,
                ).push(name@));
            }
            i += 1;
        }
        let mut j: usize = 0;
        while j < self.methods.len()
            invariant
                j <= self.methods.len(),
                all == self@.functions + self@.methods,
                crate::model::views(out@) == routine_names_of(all).take(
                    self.functions.len() + j,
                ),
            decreases self.methods.len() - j,
        {
            let ghost before = out@;
            let name = routine_name(&self.methods[j].metadata.name);
            out.push(name);
            proof {
                crate::model::views_push(before, name);
                assert(all[self.functions.len() + j] == self@.methods[j as int]);
                assert(routine_names_of(all).take(self.functions.len() + j + 1)
                    =~= routine_names_of(all).take(self.functions.len() + j).push(name@));
            }
            j += 1;
        }
        proof {
            assert(routine_names_of(all).take(all.len() as int) =~= routine_names_of(all));
        }
        out
    }

    /// Removes the constructors and getters that no method uses: those of
    /// the owning types without a method.
    pub fn remove_unused_constructors_and_getters(&mut self)
        ensures
            final(self)@ == old(self)@.without_unused_support(),
    {
        let mut constructors: Vec<CommonFunction> = Vec::new();
        let mut getters: Vec<CommonFunction> = Vec::new();
        core::mem::swap(&mut constructors, &mut self.constructors);
        core::mem::swap(&mut getters, &mut self.getters);
        self.constructors = split_owned(constructors, &self.methods).0;
        self.getters = split_owned(getters, &self.methods).0;
    }

    /// Removes the methods that no receiver can be built for, those of
    /// the owning types without a constructor, and hands them back in
    /// their order.
    pub fn remove_methods_without_constructors(&mut self) -> (dropped: Vec<CommonFunction>)
        ensures
            final(self)@ == old(self)@.without_orphan_methods(),
            crate::model::views(dropped@) == old(self)@.methods.filter(
                owner_not_in(old(self)@.constructors),
            ),
    {
        let mut methods: Vec<CommonFunction> = Vec::new();
        core::mem::swap(&mut methods, &mut self.methods);
        let (kept, dropped) = split_owned(methods, &self.constructors);
        self.methods = kept;
        dropped
    }
}

} // verus!
