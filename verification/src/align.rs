//! Aligning generic owning types with the aliases that instantiate them.
//!
//! A generic owning type of one version may be addressed by a concrete alias
//! in either version. Where an alias stands for the owning type of a matched
//! pair, the pair is renamed after the alias, so that the harness can name a
//! concrete type. The first alias found wins: those of the first version are
//! searched before those of the second.

use crate::defs::function::{CommonFunction, CommonFunctionView, FunctionMetadata,
    FunctionMetadataView};
use crate::defs::path::Path;
use crate::defs::precond::{Precondition, PreconditionView};
use crate::defs::types::{InstantiatedType, InstantiatedTypeView, PreciseType, Type, TypeView};
use vstd::prelude::*;

verus! {

/// The least index at or after `from` of an alias whose concrete type equals
/// `owner` ignoring generic arguments.
pub open spec fn first_alias_from(
    owner: TypeView,
    aliases: Seq<InstantiatedTypeView>,
    from: int,
) -> Option<int>
    decreases aliases.len() - from,
{
    if from < 0 || from >= aliases.len() {
        None
    } else if aliases[from].concrete.eq_ignore_generics(owner) {
        Some(from)
    } else {
        first_alias_from(owner, aliases, from + 1)
    }
}

/// What [`first_alias_from`] finds is an alias for `owner` with none between
/// `from` and it; where it finds nothing there is none at or after `from`.
pub proof fn first_alias_is_least(owner: TypeView, aliases: Seq<InstantiatedTypeView>, from: int)
    requires
        0 <= from,
    ensures
        match first_alias_from(owner, aliases, from) {
            Some(at) => {
                &&& from <= at < aliases.len()
                &&& aliases[at].concrete.eq_ignore_generics(owner)
                &&& forall|j: int|
                    from <= j < at ==> !(#[trigger] aliases[j]).concrete.eq_ignore_generics(owner)
            },
            None => forall|j: int|
                from <= j < aliases.len() ==> !(#[trigger] aliases[j]).concrete.eq_ignore_generics(
                    owner,
                ),
        },
    decreases aliases.len() - from,
{
    if from >= aliases.len() {
    } else if aliases[from].concrete.eq_ignore_generics(owner) {
    } else {
        first_alias_is_least(owner, aliases, from + 1);
    }
}

/// The alias that an owning type is rewritten to: none unless the type is
/// generic; else the first alias for it among those of the first version,
/// else the first among those of the second.
pub open spec fn chosen_alias(
    owner: Option<TypeView>,
    first: Seq<InstantiatedTypeView>,
    second: Seq<InstantiatedTypeView>,
) -> Option<Seq<Seq<char>>> {
    match owner {
        Some(TypeView::Generic(g)) => match first_alias_from(TypeView::Generic(g), first, 0) {
            Some(at) => Some(first[at].alias),
            None => match first_alias_from(TypeView::Generic(g), second, 0) {
                Some(at) => Some(second[at].alias),
                None => None,
            },
        },
        _ => None,
    }
}

/// The metadata of a matched pair after alignment: owned by the chosen alias
/// and named `alias :: identifier`, or unchanged where no alias is chosen.
pub open spec fn aligned_metadata(
    metadata: FunctionMetadataView,
    first: Seq<InstantiatedTypeView>,
    second: Seq<InstantiatedTypeView>,
) -> FunctionMetadataView {
    match chosen_alias(metadata.impl_type, first, second) {
        Some(alias) => FunctionMetadataView {
            name: alias.push(metadata.signature.ident),
            impl_type: Some(TypeView::Precise(alias)),
            ..metadata
        },
        None => metadata,
    }
}

/// A matched pair after alignment.
pub open spec fn aligned_pair(
    pair: CommonFunctionView,
    first: Seq<InstantiatedTypeView>,
    second: Seq<InstantiatedTypeView>,
) -> CommonFunctionView {
    CommonFunctionView { metadata: aligned_metadata(pair.metadata, first, second), ..pair }
}

/// The matched pairs after alignment, each in its place.
pub open spec fn aligned_pairs(
    pairs: Seq<CommonFunctionView>,
    first: Seq<InstantiatedTypeView>,
    second: Seq<InstantiatedTypeView>,
) -> Seq<CommonFunctionView> {
    pairs.map_values(|pair: CommonFunctionView| aligned_pair(pair, first, second))
}

/// A precondition after alignment: treated as the pair that shares its
/// owning type.
pub open spec fn aligned_precondition(
    precondition: PreconditionView,
    first: Seq<InstantiatedTypeView>,
    second: Seq<InstantiatedTypeView>,
) -> PreconditionView {
    match chosen_alias(precondition.impl_type, first, second) {
        Some(alias) => PreconditionView {
            name: alias.push(precondition.ident()),
            impl_type: Some(TypeView::Precise(alias)),
            ..precondition
        },
        None => precondition,
    }
}

/// The preconditions after alignment, each in its place.
pub open spec fn aligned_preconditions(
    preconditions: Seq<PreconditionView>,
    first: Seq<InstantiatedTypeView>,
    second: Seq<InstantiatedTypeView>,
) -> Seq<PreconditionView> {
    preconditions.map_values(|p: PreconditionView| aligned_precondition(p, first, second))
}

/// A generic owning type with an alias is rewritten to the first alias for
/// it: the pair is then owned by the precise type of that alias and named
/// `alias :: identifier`. Here the alias stands in the first version's list.
pub proof fn alias_in_first_rewrites(
    metadata: FunctionMetadataView,
    first: Seq<InstantiatedTypeView>,
    second: Seq<InstantiatedTypeView>,
    at: int,
)
    requires
        metadata.impl_type matches Some(owner) && owner is Generic,
        0 <= at < first.len(),
        first[at].concrete.eq_ignore_generics(metadata.impl_type->Some_0),
        forall|j: int|
            0 <= j < at ==> !(#[trigger] first[j]).concrete.eq_ignore_generics(
                metadata.impl_type->Some_0,
            ),
    ensures
        aligned_metadata(metadata, first, second).impl_type == Some(
            TypeView::Precise(first[at].alias),
        ),
        aligned_metadata(metadata, first, second).name == first[at].alias.push(
            metadata.signature.ident,
        ),
        aligned_metadata(metadata, first, second).signature == metadata.signature,
        aligned_metadata(metadata, first, second).trait_ == metadata.trait_,
{
    first_alias_is_least(metadata.impl_type->Some_0, first, 0);
}

/// As [`alias_in_first_rewrites`], for an alias that stands in the second
/// version's list while the first version has none for the owning type.
pub proof fn alias_in_second_rewrites(
    metadata: FunctionMetadataView,
    first: Seq<InstantiatedTypeView>,
    second: Seq<InstantiatedTypeView>,
    at: int,
)
    requires
        metadata.impl_type matches Some(owner) && owner is Generic,
        forall|j: int|
            0 <= j < first.len() ==> !(#[trigger] first[j]).concrete.eq_ignore_generics(
                metadata.impl_type->Some_0,
            ),
        0 <= at < second.len(),
        second[at].concrete.eq_ignore_generics(metadata.impl_type->Some_0),
        forall|j: int|
            0 <= j < at ==> !(#[trigger] second[j]).concrete.eq_ignore_generics(
                metadata.impl_type->Some_0,
            ),
    ensures
        aligned_metadata(metadata, first, second).impl_type == Some(
            TypeView::Precise(second[at].alias),
        ),
        aligned_metadata(metadata, first, second).name == second[at].alias.push(
            metadata.signature.ident,
        ),
        aligned_metadata(metadata, first, second).signature == metadata.signature,
        aligned_metadata(metadata, first, second).trait_ == metadata.trait_,
{
    first_alias_is_least(metadata.impl_type->Some_0, first, 0);
    first_alias_is_least(metadata.impl_type->Some_0, second, 0);
}

/// Without an alias for its owning type in either list, a pair is unchanged.
pub proof fn no_alias_leaves_unchanged(
    pair: CommonFunctionView,
    first: Seq<InstantiatedTypeView>,
    second: Seq<InstantiatedTypeView>,
)
    requires
        pair.metadata.impl_type matches Some(owner) ==> {
            &&& forall|j: int|
                0 <= j < first.len() ==> !(#[trigger] first[j]).concrete.eq_ignore_generics(owner)
            &&& forall|j: int|
                0 <= j < second.len() ==> !(#[trigger] second[j]).concrete.eq_ignore_generics(owner)
        },
    ensures
        aligned_pair(pair, first, second) == pair,
{
    if pair.metadata.impl_type is Some {
        first_alias_is_least(pair.metadata.impl_type->Some_0, first, 0);
        first_alias_is_least(pair.metadata.impl_type->Some_0, second, 0);
    }
}

/// Alignment changes the name and the owning type of a pair and nothing
/// else: the pair stays owned, keeps its signature and trait, and is a
/// support function exactly if it was one.
pub proof fn alignment_keeps_signature(
    metadata: FunctionMetadataView,
    first: Seq<InstantiatedTypeView>,
    second: Seq<InstantiatedTypeView>,
)
    ensures
        aligned_metadata(metadata, first, second).signature == metadata.signature,
        aligned_metadata(metadata, first, second).trait_ == metadata.trait_,
        aligned_metadata(metadata, first, second).impl_type is Some <==> metadata.impl_type
            is Some,
        aligned_metadata(metadata, first, second).is_constructor() == metadata.is_constructor(),
        aligned_metadata(metadata, first, second).is_getter() == metadata.is_getter(),
{
}

/// The index of the first alias whose concrete type equals `owner` ignoring
/// generic arguments.
pub fn find_alias(owner: &Type, aliases: &Vec<InstantiatedType>) -> (found: Option<usize>)
    ensures
        match found {
            Some(at) => first_alias_from(owner@, crate::model::views(aliases@), 0) == Some(
                at as int,
            ),
            None => first_alias_from(owner@, crate::model::views(aliases@), 0) is None,
        },
        found matches Some(at) ==> at < aliases.len(),
{
    let mut at: usize = 0;
    while at < aliases.len()
        invariant
            at <= aliases.len(),
            first_alias_from(owner@, crate::model::views(aliases@), 0) == first_alias_from(
                owner@,
                crate::model::views(aliases@),
                at as int,
            ),
        decreases aliases.len() - at,
    {
        if aliases[at].concrete.eq_ignore_generics(owner) {
            return Some(at);
        }
        at += 1;
    }
    None
}

/// The alias that `owner` is rewritten to, see [`chosen_alias`].
pub fn choose_alias(
    owner: &Option<Type>,
    first: &Vec<InstantiatedType>,
    second: &Vec<InstantiatedType>,
) -> (alias: Option<Path>)
    ensures
        crate::model::view_of(alias) == chosen_alias(
            crate::model::view_of(*owner),
            crate::model::views(first@),
            crate::model::views(second@),
        ),
{
    match owner {
        Some(ty) => match ty {
            Type::Generic(_) => match find_alias(ty, first) {
                Some(at) => Some(first[at].alias.clone()),
                None => match find_alias(ty, second) {
                    Some(at) => Some(second[at].alias.clone()),
                    None => None,
                },
            },
            Type::Precise(_) => None,
        },
        None => None,
    }
}

/// Rewrites a matched pair to the alias of its generic owning type, if
/// either version has one.
pub fn align_pair(
    pair: CommonFunction,
    first: &Vec<InstantiatedType>,
    second: &Vec<InstantiatedType>,
) -> (out: CommonFunction)
    ensures
        out@ == aligned_pair(pair@, crate::model::views(first@), crate::model::views(second@)),
{
    match choose_alias(&pair.metadata.impl_type, first, second) {
        Some(alias) => {
            let ident = pair.metadata.ident();
            let CommonFunction { metadata, body1, body2 } = pair;
            let FunctionMetadata { name: _, signature, impl_type: _, trait_ } = metadata;
            let name = alias.clone().join(ident);
            CommonFunction {
                metadata: FunctionMetadata {
                    name,
                    signature,
                    impl_type: Some(Type::Precise(PreciseType(alias))),
                    trait_,
                },
                body1,
                body2,
            }
        },
        None => pair,
    }
}

/// Rewrites each matched pair as [`align_pair`] does.
pub fn align_pairs(
    pairs: Vec<CommonFunction>,
    first: &Vec<InstantiatedType>,
    second: &Vec<InstantiatedType>,
) -> (out: Vec<CommonFunction>)
    ensures
        crate::model::views(out@) == aligned_pairs(
            crate::model::views(pairs@),
            crate::model::views(first@),
            crate::model::views(second@),
        ),
{
    let mut out: Vec<CommonFunction> = Vec::new();
    let ghost all = crate::model::views(pairs@);
    let ghost a1 = crate::model::views(first@);
    let ghost a2 = crate::model::views(second@);
    for pair in it: pairs
        invariant
            crate::model::views(it.seq()) == all,
            a1 == crate::model::views(first@),
            a2 == crate::model::views(second@),
            crate::model::views(out@) == aligned_pairs(all.take(it.index() as int), a1, a2),
    {
        let ghost before = out@;
        let aligned = align_pair(pair, first, second);
        out.push(aligned);
        proof {
            crate::model::views_push(before, aligned);
            assert(aligned_pairs(all.take(it.index() + 1), a1, a2) =~= aligned_pairs(
                all.take(it.index() as int),
                a1,
                a2,
            ).push(aligned@));
        }
    }
    proof {
        assert(all.take(all.len() as int) =~= all);
    }
    out
}

/// Rewrites a precondition to the alias of its generic owning type, if
/// either version has one.
pub fn align_precondition(
    precondition: Precondition,
    first: &Vec<InstantiatedType>,
    second: &Vec<InstantiatedType>,
) -> (out: Precondition)
    ensures
        out@ == aligned_precondition(
            precondition@,
            crate::model::views(first@),
            crate::model::views(second@),
        ),
{
    match choose_alias(&precondition.impl_type, first, second) {
        Some(alias) => {
            let ident = precondition.ident();
            let name = alias.clone().join(ident);
            Precondition {
                name,
                impl_type: Some(Type::Precise(PreciseType(alias))),
                is_method: precondition.is_method,
            }
        },
        None => precondition,
    }
}

/// Rewrites each precondition as [`align_precondition`] does.
pub fn align_preconditions(
    preconditions: Vec<Precondition>,
    first: &Vec<InstantiatedType>,
    second: &Vec<InstantiatedType>,
) -> (out: Vec<Precondition>)
    ensures
        crate::model::views(out@) == aligned_preconditions(
            crate::model::views(preconditions@),
            crate::model::views(first@),
            crate::model::views(second@),
        ),
{
    let mut out: Vec<Precondition> = Vec::new();
    let ghost all = crate::model::views(preconditions@);
    let ghost a1 = crate::model::views(first@);
    let ghost a2 = crate::model::views(second@);
    for precondition in it: preconditions
        invariant
            crate::model::views(it.seq()) == all,
            a1 == crate::model::views(first@),
            a2 == crate::model::views(second@),
            crate::model::views(out@) == aligned_preconditions(
                all.take(it.index() as int),
                a1,
                a2,
            ),
    {
        let ghost before = out@;
        let aligned = align_precondition(precondition, first, second);
        out.push(aligned);
        proof {
            crate::model::views_push(before, aligned);
            assert(aligned_preconditions(all.take(it.index() + 1), a1, a2)
                =~= aligned_preconditions(all.take(it.index() as int), a1, a2).push(aligned@));
        }
    }
    proof {
        assert(all.take(all.len() as int) =~= all);
    }
    out
}

} // verus!
