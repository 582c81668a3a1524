//! Type references.

use super::path::Path;
use vstd::prelude::*;
use vstd::std_specs::cmp::PartialEqSpecImpl;
use vstd::string::StringExecFns;

verus! {

/// A type either generic or precise.
#[derive(Debug)]
pub enum Type {
    /// A generic type: a base path with type arguments.
    Generic(GenericType),
    /// A precise type.
    Precise(PreciseType),
}

/// A precise type.
#[derive(Debug)]
pub struct PreciseType(pub Path);

/// A generic type.
#[derive(Debug)]
pub struct GenericType {
    /// The path of the base type.
    pub path: Path,
    /// The generic type arguments.
    pub generics: Vec<Type>,
}

/// An instantiated generic type: an alias and the concrete type it names.
#[derive(Debug)]
pub struct InstantiatedType {
    /// The alias type path.
    pub alias: Path,
    /// The concrete type it instantiates.
    pub concrete: Type,
}

/// The mathematical value of an [`InstantiatedType`].
pub struct InstantiatedTypeView {
    pub alias: Seq<Seq<char>>,
    pub concrete: TypeView,
}

/// The mathematical value of a [`GenericType`].
pub struct GenericTypeView {
    pub path: Seq<Seq<char>>,
    pub generics: Seq<TypeView>,
}

/// The mathematical value of a [`Type`].
pub enum TypeView {
    Generic(GenericTypeView),
    Precise(Seq<Seq<char>>),
}

impl TypeView {
    /// The path without any generic argument.
    pub open spec fn base_path(self) -> Seq<Seq<char>> {
        match self {
            TypeView::Generic(g) => g.path,
            TypeView::Precise(p) => p,
        }
    }

    /// Equality that looks at the base path of two generic types and at the
    /// whole path of two precise types; a generic type never equals a
    /// precise one.
    pub open spec fn eq_ignore_generics(self, other: TypeView) -> bool {
        match (self, other) {
            (TypeView::Generic(g1), TypeView::Generic(g2)) => g1.path == g2.path,
            (TypeView::Precise(p1), TypeView::Precise(p2)) => p1 == p2,
            _ => false,
        }
    }

    /// The path with the generic arguments expanded into the final segment:
    /// the segment is followed by the arguments, each rendered in its turn,
    /// between `<` and `>` and with `, ` between them. Where the base path
    /// has no segment the arguments make up the only one.
    pub open spec fn rendered(self) -> Seq<Seq<char>>
        decreases self,
    {
        match self {
            TypeView::Precise(p) => p,
            TypeView::Generic(g) => if g.generics.len() == 0 {
                g.path
            } else {
                let arguments = "<"@ + crate::text::joined(rendered_arguments(g.generics), ", "@)
                    + ">"@;
                if g.path.len() == 0 {
                    seq![arguments]
                } else {
                    g.path.drop_last().push(g.path.last() + arguments)
                }
            },
        }
    }
}

/// Each type argument rendered as a path and written with "::" between its
/// segments.
pub open spec fn rendered_arguments(generics: Seq<TypeView>) -> Seq<Seq<char>>
    decreases generics,
{
    Seq::new(
        generics.len(),
        |i: int|
            if 0 <= i < generics.len() {
                crate::text::joined(generics[i].rendered(), "::"@)
            } else {
                Seq::empty()
            },
    )
}

impl View for Type {
    type V = TypeView;

    open spec fn view(&self) -> TypeView
        decreases self,
    {
        match self {
            Type::Generic(g) => TypeView::Generic(g.view()),
            Type::Precise(p) => TypeView::Precise(p.0@),
        }
    }
}

impl View for GenericType {
    type V = GenericTypeView;

    open spec fn view(&self) -> GenericTypeView
        decreases self,
    {
        GenericTypeView {
            path: self.path@,
            generics: Seq::new(
                self.generics@.len(),
                |i: int|
                    if 0 <= i < self.generics@.len() {
                        self.generics@[i].view()
                    } else {
                        TypeView::Precise(Seq::empty())
                    },
            ),
        }
    }
}

impl View for PreciseType {
    type V = Seq<Seq<char>>;

    open spec fn view(&self) -> Seq<Seq<char>> {
        self.0@
    }
}

impl View for InstantiatedType {
    type V = InstantiatedTypeView;

    open spec fn view(&self) -> InstantiatedTypeView {
        InstantiatedTypeView { alias: self.alias@, concrete: self.concrete@ }
    }
}

/// Structural equality of two types, generic arguments included.
#[verifier::loop_isolation(false)]
fn type_eq(a: &Type, b: &Type) -> (same: bool)
    ensures
        same == (a@ == b@),
    decreases a,
{
    match (a, b) {
        (Type::Precise(p1), Type::Precise(p2)) => p1.0 == p2.0,
        (Type::Generic(g1), Type::Generic(g2)) => {
            if g1.path != g2.path {
                return false;
            }
            if g1.generics.len() != g2.generics.len() {
                proof {
                    assert(g1@.generics.len() != g2@.generics.len());
                }
                return false;
            }
            let mut i: usize = 0;
            while i < g1.generics.len()
                invariant
                    i <= g1.generics.len(),
                    g1.generics.len() == g2.generics.len(),
                    forall|j: int| 0 <= j < i ==> g1.generics@[j]@ == g2.generics@[j]@,
                decreases g1.generics.len() - i,
            {
                if !type_eq(&g1.generics[i], &g2.generics[i]) {
                    proof {
                        assert(g1@.generics[i as int] == g1.generics@[i as int]@);
                        assert(g2@.generics[i as int] == g2.generics@[i as int]@);
                    }
                    return false;
                }
                i += 1;
            }
            proof {
                assert(g1@.generics =~= g2@.generics);
            }
            true
        },
        _ => false,
    }
}

/// A copy of `t`.
fn type_clone(t: &Type) -> (out: Type)
    ensures
        out@ == t@,
    decreases t,
{
    match t {
        Type::Precise(p) => Type::Precise(PreciseType(p.0.clone())),
        Type::Generic(g) => Type::Generic(generic_clone(g)),
    }
}

/// A copy of `g`.
#[verifier::loop_isolation(false)]
fn generic_clone(g: &GenericType) -> (out: GenericType)
    ensures
        out@ == g@,
    decreases g,
{
    let mut generics: Vec<Type> = Vec::new();
    let mut i: usize = 0;
    while i < g.generics.len()
        invariant
            i <= g.generics.len(),
            generics.len() == i,
            forall|j: int| 0 <= j < i ==> generics@[j]@ == g.generics@[j]@,
        decreases g.generics.len() - i,
    {
        generics.push(type_clone(&g.generics[i]));
        i += 1;
    }
    let out = GenericType { path: g.path.clone(), generics };
    proof {
        assert(out@.generics =~= g@.generics);
    }
    out
}

/// The path of `t` with its generic arguments expanded into the final segment.
fn type_as_path(t: &Type) -> (out: Path)
    ensures
        out@ == t@.rendered(),
    decreases t,
{
    match t {
        Type::Precise(p) => p.0.clone(),
        Type::Generic(g) => generic_as_path(g),
    }
}

/// The path of `g` with its generic arguments expanded into the final segment.
#[verifier::loop_isolation(false)]
fn generic_as_path(g: &GenericType) -> (out: Path)
    ensures
        out@ == TypeView::Generic(g@).rendered(),
    decreases g,
{
    let mut full_path = g.path.clone();
    if g.generics.len() > 0 {
        let mut arguments: Vec<String> = Vec::new();
        let mut i: usize = 0;
        while i < g.generics.len()
            invariant
                i <= g.generics.len(),
                crate::model::views(arguments@) == rendered_arguments(g@.generics).take(i as int),
            decreases g.generics.len() - i,
        {
            let ghost before = arguments@;
            proof {
                assert(g@.generics[i as int] == g.generics@[i as int]@);
            }
            let argument = type_as_path(&g.generics[i]).to_string();
            arguments.push(argument);
            proof {
                crate::model::views_push(before, argument);
                assert(rendered_arguments(g@.generics).take(i + 1) =~= rendered_arguments(
                    g@.generics,
                ).take(i as int).push(argument@));
            }
            i += 1;
        }
        proof {
            assert(rendered_arguments(g@.generics).take(g.generics.len() as int)
                =~= rendered_arguments(g@.generics));
        }
        let list = crate::text::join(&arguments, ", ");
        let ghost base = full_path.0@;
        let mut last = match full_path.0.pop() {
            Some(last) => last,
            None => String::new(),
        };
        last.append("<");
        last.append(list.as_str());
        last.append(">");
        let ghost front = full_path.0@;
        full_path.0.push(last);
        proof {
            crate::model::views_push(front, last);
            if base.len() > 0 {
                assert(front =~= base.drop_last());
                assert(crate::model::views(front) =~= g@.path.drop_last());
                assert(last@ =~= g@.path.last() + ("<"@ + list@ + ">"@));
            } else {
                assert(last@ =~= "<"@ + list@ + ">"@);
                assert(crate::model::views(front).push(last@) =~= seq![last@]);
            }
        }
    }
    full_path
}

impl Clone for Type {
    fn clone(&self) -> (out: Type)
        ensures
            out@ == self@,
    {
        type_clone(self)
    }
}

impl PartialEq for Type {
    fn eq(&self, other: &Type) -> (same: bool) {
        type_eq(self, other)
    }
}

impl PartialEqSpecImpl for Type {
    open spec fn obeys_eq_spec() -> bool {
        true
    }

    open spec fn eq_spec(&self, other: &Type) -> bool {
        self@ == other@
    }
}

impl Eq for Type {

}

impl Type {
    /// The type that stands for every type that is not written as a path:
    /// the precise type `unsupported`.
    pub fn unsupported() -> (out: Type)
        ensures
            out@ == TypeView::Precise(seq!["unsupported"@]),
    {
        let mut segments: Vec<String> = Vec::new();
        segments.push(String::from_str("unsupported"));
        let out = Type::Precise(PreciseType(Path(segments)));
        proof {
            assert(out@->Precise_0 =~= seq!["unsupported"@]);
        }
        out
    }

    /// Get the path representation of the type.
    pub fn as_path(&self) -> (out: Path)
        ensures
            out@ == self@.rendered(),
    {
        type_as_path(self)
    }

    /// The path of the type without its generic arguments.
    pub fn base_path(&self) -> (out: &Path)
        ensures
            out@ == self@.base_path(),
    {
        match self {
            Type::Generic(g) => &g.path,
            Type::Precise(p) => &p.0,
        }
    }

    /// Check equality ignoring generic parameters.
    pub fn eq_ignore_generics(&self, other: &Type) -> (same: bool)
        ensures
            same == self@.eq_ignore_generics(other@),
    {
        match (self, other) {
            (Type::Generic(g1), Type::Generic(g2)) => g1.path == g2.path,
            (Type::Precise(p1), Type::Precise(p2)) => p1.0 == p2.0,
            _ => false,
        }
    }
}

impl Clone for PreciseType {
    fn clone(&self) -> (out: PreciseType)
        ensures
            out@ == self@,
    {
        PreciseType(self.0.clone())
    }
}

impl Clone for GenericType {
    fn clone(&self) -> (out: GenericType)
        ensures
            out@ == self@,
    {
        generic_clone(self)
    }
}

impl GenericType {
    /// Get the path representation of the generic type.
    pub fn as_path(&self) -> (out: Path)
        ensures
            out@ == TypeView::Generic(self@).rendered(),
    {
        generic_as_path(self)
    }
}

impl Clone for InstantiatedType {
    fn clone(&self) -> (out: InstantiatedType)
        ensures
            out@ == self@,
    {
        InstantiatedType { alias: self.alias.clone(), concrete: self.concrete.clone() }
    }
}

} // verus!
