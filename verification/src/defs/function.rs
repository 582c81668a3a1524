//! Function records: signatures, metadata, and the pairs matched across two
//! versions.

use super::path::Path;
use super::types::{Type, TypeView};
use vstd::prelude::*;
use vstd::std_specs::cmp::PartialEqSpecImpl;
use vstd::string::StringExecFns;

verus! {

/// How a method takes `self`.
#[derive(Clone, Copy, Debug, PartialEq, Eq, Structural)]
pub struct Receiver {
    /// The method borrows `self` (`&self`, `&mut self`).
    pub reference: bool,
    /// The receiver is declared `mut`.
    pub mutable: bool,
}

/// A parameter with a declared type.
#[derive(Debug)]
pub struct TypedParam {
    /// The bound identifier, where the parameter's pattern is one.
    pub name: Option<String>,
    /// The declared type.
    pub ty: Type,
    /// The parameter as the source declares it, pattern and type.
    pub decl: String,
}

/// One parameter of a function.
#[derive(Debug)]
pub enum Param {
    /// The `self` parameter of a method.
    Receiver(Receiver),
    /// Any other parameter.
    Typed(TypedParam),
}

/// The signature of a function: identifier, parameters and return type.
#[derive(Debug)]
pub struct Signature {
    /// The identifier of the function, without qualification.
    pub ident: String,
    /// The parameters in declaration order.
    pub inputs: Vec<Param>,
    /// The return type, if one is declared.
    pub output: Option<Type>,
}

/// The mathematical value of a [`TypedParam`].
pub struct TypedParamView {
    pub name: Option<Seq<char>>,
    pub ty: TypeView,
    pub decl: Seq<char>,
}

/// The mathematical value of a [`Param`].
pub enum ParamView {
    Receiver(Receiver),
    Typed(TypedParamView),
}

/// The mathematical value of a [`Signature`].
pub struct SignatureView {
    pub ident: Seq<char>,
    pub inputs: Seq<ParamView>,
    pub output: Option<TypeView>,
}

impl View for TypedParam {
    type V = TypedParamView;

    open spec fn view(&self) -> TypedParamView {
        TypedParamView { name: crate::model::view_of(self.name), ty: self.ty@, decl: self.decl@ }
    }
}

impl View for Param {
    type V = ParamView;

    open spec fn view(&self) -> ParamView {
        match self {
            Param::Receiver(r) => ParamView::Receiver(*r),
            Param::Typed(t) => ParamView::Typed(t@),
        }
    }
}

impl View for Signature {
    type V = SignatureView;

    open spec fn view(&self) -> SignatureView {
        SignatureView {
            ident: self.ident@,
            inputs: crate::model::views(self.inputs@),
            output: crate::model::view_of(self.output),
        }
    }
}

/// The name under which a parameter without a bound identifier is passed.
pub open spec fn anonymous_argument() -> Seq<char> {
    "arg"@
}

impl TypedParamView {
    /// The name under which the parameter is passed on: its identifier, or
    /// `arg` where its pattern binds none.
    pub open spec fn argument_name(self) -> Seq<char> {
        match self.name {
            Some(name) => name,
            None => anonymous_argument(),
        }
    }
}

impl ParamView {
    /// Two parameters agree when both are receivers, or both are typed with
    /// types of the same base path.
    pub open spec fn matches(self, other: ParamView) -> bool {
        match (self, other) {
            (ParamView::Receiver(_), ParamView::Receiver(_)) => true,
            (ParamView::Typed(a), ParamView::Typed(b)) => a.ty.base_path() == b.ty.base_path(),
            _ => false,
        }
    }
}

/// Two optional return types agree when both are absent, or both are present
/// with the same base path.
pub open spec fn outputs_match(a: Option<TypeView>, b: Option<TypeView>) -> bool {
    match (a, b) {
        (None, None) => true,
        (Some(x), Some(y)) => x.base_path() == y.base_path(),
        _ => false,
    }
}

impl SignatureView {
    /// The equality that makes two records "the same function": the same
    /// identifier, as many parameters, parameters that agree pairwise, and
    /// return types that agree.
    pub open spec fn matches(self, other: SignatureView) -> bool {
        &&& self.ident == other.ident
        &&& self.inputs.len() == other.inputs.len()
        &&& forall|i: int|
            0 <= i < self.inputs.len() ==> (#[trigger] self.inputs[i]).matches(other.inputs[i])
        &&& outputs_match(self.output, other.output)
    }

    /// Some parameter is a receiver.
    pub open spec fn has_receiver(self) -> bool {
        exists|i: int| 0 <= i < self.inputs.len() && #[trigger] self.inputs[i] is Receiver
    }

    /// The typed parameters in order, receivers left out.
    pub open spec fn typed_params(self) -> Seq<TypedParamView> {
        typed_of(self.inputs)
    }

    /// The names under which the typed parameters are passed on, in order.
    pub open spec fn argument_names(self) -> Seq<Seq<char>> {
        self.typed_params().map_values(|p: TypedParamView| p.argument_name())
    }

    /// The declarations of the typed parameters, in order.
    pub open spec fn declarations(self) -> Seq<Seq<char>> {
        self.typed_params().map_values(|p: TypedParamView| p.decl)
    }

    /// The shape of the receiver: that of the last receiver among the
    /// parameters, by value and immutable where there is none.
    pub open spec fn receiver(self) -> Receiver {
        receiver_of(self.inputs)
    }
}

/// Equality of signatures is an equivalence: every signature equals
/// itself, and the relation is symmetric and transitive.
pub proof fn matching_is_equivalence(a: SignatureView, b: SignatureView, c: SignatureView)
    ensures
        a.matches(a),
        a.matches(b) ==> b.matches(a),
        a.matches(b) && b.matches(c) ==> a.matches(c),
{
    assert forall|i: int| 0 <= i < a.inputs.len() implies (#[trigger] a.inputs[i]).matches(
        a.inputs[i],
    ) by {}
    if a.matches(b) {
        assert forall|i: int| 0 <= i < b.inputs.len() implies (#[trigger] b.inputs[i]).matches(
            a.inputs[i],
        ) by {
            assert(a.inputs[i].matches(b.inputs[i]));
        }
        if b.matches(c) {
            assert forall|i: int| 0 <= i < a.inputs.len() implies (
            #[trigger] a.inputs[i]).matches(c.inputs[i]) by {
                assert(a.inputs[i].matches(b.inputs[i]));
                assert(b.inputs[i].matches(c.inputs[i]));
            }
        }
    }
}

/// The typed parameters among `inputs`, in order.
pub open spec fn typed_of(inputs: Seq<ParamView>) -> Seq<TypedParamView>
    decreases inputs.len(),
{
    if inputs.len() == 0 {
        Seq::empty()
    } else {
        match inputs.last() {
            ParamView::Typed(t) => typed_of(inputs.drop_last()).push(t),
            ParamView::Receiver(_) => typed_of(inputs.drop_last()),
        }
    }
}

/// The shape of the last receiver among `inputs`.
pub open spec fn receiver_of(inputs: Seq<ParamView>) -> Receiver
    decreases inputs.len(),
{
    if inputs.len() == 0 {
        Receiver { reference: false, mutable: false }
    } else {
        match inputs.last() {
            ParamView::Receiver(r) => r,
            ParamView::Typed(_) => receiver_of(inputs.drop_last()),
        }
    }
}

impl Clone for TypedParam {
    fn clone(&self) -> (out: TypedParam)
        ensures
            out@ == self@,
    {
        let name = match &self.name {
            Some(name) => Some(name.clone()),
            None => None,
        };
        TypedParam { name, ty: self.ty.clone(), decl: self.decl.clone() }
    }
}

impl TypedParam {
    /// The name under which the parameter is passed on: its identifier, or
    /// `arg` where its pattern binds none.
    pub fn argument_name(&self) -> (out: String)
        ensures
            out@ == self@.argument_name(),
    {
        match &self.name {
            Some(name) => name.clone(),
            None => String::from_str("arg"),
        }
    }
}

impl Clone for Param {
    fn clone(&self) -> (out: Param)
        ensures
            out@ == self@,
    {
        match self {
            Param::Receiver(r) => Param::Receiver(*r),
            Param::Typed(t) => Param::Typed(t.clone()),
        }
    }
}

impl Param {
    /// Tells whether the two parameters agree, see [`ParamView::matches`].
    pub fn matches(&self, other: &Param) -> (same: bool)
        ensures
            same == self@.matches(other@),
    {
        match (self, other) {
            (Param::Receiver(_), Param::Receiver(_)) => true,
            (Param::Typed(a), Param::Typed(b)) => a.ty.base_path() == b.ty.base_path(),
            _ => false,
        }
    }
}

fn clone_optional_type(output: &Option<Type>) -> (out: Option<Type>)
    ensures
        crate::model::view_of(out) == crate::model::view_of(*output),
{
    match output {
        Some(ty) => Some(ty.clone()),
        None => None,
    }
}

impl Clone for Signature {
    fn clone(&self) -> (out: Signature)
        ensures
            out@ == self@,
    {
        let inputs = self.inputs.clone();
        proof {
            assert(crate::model::views(inputs@) =~= crate::model::views(self.inputs@));
        }
        Signature { ident: self.ident.clone(), inputs, output: clone_optional_type(&self.output) }
    }
}

/// `==` on signatures is the equality that makes two records "the same
/// function", see [`SignatureView::matches`]: the same identifier, as many
/// parameters, parameters that agree pairwise (both receivers, or both
/// typed with types of one base path), and return types that agree (both
/// absent, or both present with one base path).
impl PartialEq for Signature {
    fn eq(&self, other: &Signature) -> (same: bool) {
        self.matches(other)
    }
}

impl PartialEqSpecImpl for Signature {
    open spec fn obeys_eq_spec() -> bool {
        true
    }

    open spec fn eq_spec(&self, other: &Signature) -> bool {
        self@.matches(other@)
    }
}

impl Signature {
    /// A signature from its parts.
    pub fn new(ident: String, inputs: Vec<Param>, output: Option<Type>) -> (out: Signature)
        ensures
            out.ident == ident,
            out.inputs == inputs,
            out.output == output,
    {
        Signature { ident, inputs, output }
    }

    /// Tells whether the two signatures declare the same function, see
    /// [`SignatureView::matches`].
    pub fn matches(&self, other: &Signature) -> (same: bool)
        ensures
            same == self@.matches(other@),
    {
        if self.ident != other.ident {
            return false;
        }
        if self.inputs.len() != other.inputs.len() {
            return false;
        }
        let mut i: usize = 0;
        while i < self.inputs.len()
            invariant
                i <= self.inputs.len(),
                self.inputs.len() == other.inputs.len(),
                forall|j: int| 0 <= j < i ==> (#[trigger] self@.inputs[j]).matches(other@.inputs[j]),
            decreases self.inputs.len() - i,
        {
            if !self.inputs[i].matches(&other.inputs[i]) {
                proof {
                    assert(!self@.inputs[i as int].matches(other@.inputs[i as int]));
                }
                return false;
            }
            i += 1;
        }
        match (&self.output, &other.output) {
            (None, None) => true,
            (Some(a), Some(b)) => a.base_path() == b.base_path(),
            _ => false,
        }
    }

    /// Tells whether some parameter is a receiver.
    pub fn has_receiver(&self) -> (found: bool)
        ensures
            found == self@.has_receiver(),
    {
        let mut i: usize = 0;
        while i < self.inputs.len()
            invariant
                i <= self.inputs.len(),
                forall|j: int| 0 <= j < i ==> !(#[trigger] self@.inputs[j] is Receiver),
            decreases self.inputs.len() - i,
        {
            match &self.inputs[i] {
                Param::Receiver(_) => {
                    proof {
                        assert(self@.inputs[i as int] is Receiver);
                    }
                    return true;
                },
                Param::Typed(_) => {},
            }
            i += 1;
        }
        false
    }

    /// The names under which the typed parameters are passed on, in order.
    pub fn argument_names(&self) -> (out: Vec<String>)
        ensures
            crate::model::views(out@) == self@.argument_names(),
    {
        let mut out: Vec<String> = Vec::new();
        let mut i: usize = 0;
        while i < self.inputs.len()
            invariant
                i <= self.inputs.len(),
                crate::model::views(out@) == typed_of(self@.inputs.take(i as int)).map_values(
                    |p: TypedParamView| p.argument_name(),
                ),
            decreases self.inputs.len() - i,
        {
            let ghost before = out@;
            proof {
                assert(self@.inputs.take(i + 1).drop_last() =~= self@.inputs.take(i as int));
                assert(self@.inputs.take(i + 1).last() == self.inputs@[i as int]@);
            }
            match &self.inputs[i] {
                Param::Typed(t) => {
                    let name = t.argument_name();
                    out.push(name);
                    proof {
                        crate::model::views_push(before, name);
                        assert(typed_of(self@.inputs.take(i + 1)).map_values(
                            |p: TypedParamView| p.argument_name(),
                        ) =~= typed_of(self@.inputs.take(i as int)).map_values(
                            |p: TypedParamView| p.argument_name(),
                        ).push(name@));
                    }
                },
                Param::Receiver(_) => {},
            }
            i += 1;
        }
        proof {
            assert(self@.inputs.take(self.inputs.len() as int) =~= self@.inputs);
        }
        out
    }

    /// The declarations of the typed parameters, in order.
    pub fn declarations(&self) -> (out: Vec<String>)
        ensures
            crate::model::views(out@) == self@.declarations(),
    {
        let mut out: Vec<String> = Vec::new();
        let mut i: usize = 0;
        while i < self.inputs.len()
            invariant
                i <= self.inputs.len(),
                crate::model::views(out@) == typed_of(self@.inputs.take(i as int)).map_values(
                    |p: TypedParamView| p.decl,
                ),
            decreases self.inputs.len() - i,
        {
            let ghost before = out@;
            proof {
                assert(self@.inputs.take(i + 1).drop_last() =~= self@.inputs.take(i as int));
                assert(self@.inputs.take(i + 1).last() == self.inputs@[i as int]@);
            }
            match &self.inputs[i] {
                Param::Typed(t) => {
                    let decl = t.decl.clone();
                    out.push(decl);
                    proof {
                        crate::model::views_push(before, decl);
                        assert(typed_of(self@.inputs.take(i + 1)).map_values(
                            |p: TypedParamView| p.decl,
                        ) =~= typed_of(self@.inputs.take(i as int)).map_values(
                            |p: TypedParamView| p.decl,
                        ).push(decl@));
                    }
                },
                Param::Receiver(_) => {},
            }
            i += 1;
        }
        proof {
            assert(self@.inputs.take(self.inputs.len() as int) =~= self@.inputs);
        }
        out
    }

    /// The shape of the receiver, see [`SignatureView::receiver`].
    pub fn receiver(&self) -> (out: Receiver)
        ensures
            out == self@.receiver(),
    {
        let mut out = Receiver { reference: false, mutable: false };
        let mut i: usize = 0;
        while i < self.inputs.len()
            invariant
                i <= self.inputs.len(),
                out == receiver_of(self@.inputs.take(i as int)),
            decreases self.inputs.len() - i,
        {
            proof {
                assert(self@.inputs.take(i + 1).drop_last() =~= self@.inputs.take(i as int));
                assert(self@.inputs.take(i + 1).last() == self.inputs@[i as int]@);
            }
            match &self.inputs[i] {
                Param::Receiver(r) => {
                    out = *r;
                },
                Param::Typed(_) => {},
            }
            i += 1;
        }
        proof {
            assert(self@.inputs.take(self.inputs.len() as int) =~= self@.inputs);
        }
        out
    }
}

/// Function metadata, including name, signature, impl type and trait (if any).
#[derive(Debug)]
pub struct FunctionMetadata {
    /// Fully-qualified name, e.g. "foo" or "MyType::bar" or "module::MyType::bar"
    pub name: Path,
    /// Function signature.
    pub signature: Signature,
    /// If the function is an impl method, the impl type.
    pub impl_type: Option<Type>,
    /// If the function is implemented against a trait, the trait name.
    pub trait_: Option<Path>,
}

/// The mathematical value of a [`FunctionMetadata`].
pub struct FunctionMetadataView {
    pub name: Seq<Seq<char>>,
    pub signature: SignatureView,
    pub impl_type: Option<TypeView>,
    pub trait_: Option<Seq<Seq<char>>>,
}

impl View for FunctionMetadata {
    type V = FunctionMetadataView;

    open spec fn view(&self) -> FunctionMetadataView {
        FunctionMetadataView {
            name: self.name@,
            signature: self.signature@,
            impl_type: crate::model::view_of(self.impl_type),
            trait_: crate::model::view_of(self.trait_),
        }
    }
}

/// The identifier that marks the constructor of an owning type.
pub open spec fn constructor_marker() -> Seq<char> {
    "verieasy_new"@
}

/// The identifier that marks the state getter of an owning type.
pub open spec fn getter_marker() -> Seq<char> {
    "verieasy_get"@
}

impl FunctionMetadataView {
    /// The function is the constructor of its owning type.
    pub open spec fn is_constructor(self) -> bool {
        self.impl_type is Some && self.signature.ident == constructor_marker()
    }

    /// The function is the state getter of its owning type.
    pub open spec fn is_getter(self) -> bool {
        self.impl_type is Some && self.signature.ident == getter_marker()
    }

    /// The function is a support function: it builds or inspects the values
    /// that methods are checked on, and is never checked itself.
    pub open spec fn is_support(self) -> bool {
        self.is_constructor() || self.is_getter()
    }
}

impl Clone for FunctionMetadata {
    fn clone(&self) -> (out: FunctionMetadata)
        ensures
            out@ == self@,
    {
        let trait_ = match &self.trait_ {
            Some(path) => Some(path.clone()),
            None => None,
        };
        FunctionMetadata {
            name: self.name.clone(),
            signature: self.signature.clone(),
            impl_type: clone_optional_type(&self.impl_type),
            trait_,
        }
    }
}

impl FunctionMetadata {
    /// Create a new FunctionMetadata.
    pub fn new(name: Path, signature: Signature, impl_type: Option<Type>, trait_: Option<Path>) -> (out:
        FunctionMetadata)
        ensures
            out.name == name,
            out.signature == signature,
            out.impl_type == impl_type,
            out.trait_ == trait_,
    {
        FunctionMetadata { name, signature, impl_type, trait_ }
    }

    /// Get the function identifier.
    pub fn ident(&self) -> (out: String)
        ensures
            out@ == self@.signature.ident,
    {
        self.signature.ident.clone()
    }

    /// Tells whether the function is the constructor of its owning type.
    pub fn is_constructor(&self) -> (out: bool)
        ensures
            out == self@.is_constructor(),
    {
        self.impl_type.is_some() && self.signature.ident == String::from_str("verieasy_new")
    }

    /// Tells whether the function is the state getter of its owning type.
    pub fn is_getter(&self) -> (out: bool)
        ensures
            out == self@.is_getter(),
    {
        self.impl_type.is_some() && self.signature.ident == String::from_str("verieasy_get")
    }
}

/// The scope of a qualified name: the name without its last segment,
/// written with "::" between the segments.
pub open spec fn scope_of(name: Seq<Seq<char>>) -> Seq<char> {
    if name.len() == 0 {
        Seq::empty()
    } else {
        crate::text::joined(name.drop_last(), "::"@)
    }
}

/// The scope of `name`, see [`scope_of`].
pub fn scope(name: &Path) -> (out: String)
    ensures
        out@ == scope_of(name@),
{
    let mut segments = name.clone().0;
    let ghost all = segments@;
    match segments.pop() {
        Some(_) => {
            proof {
                assert(crate::model::views(segments@) =~= name@.drop_last());
            }
            crate::text::join(&segments, "::")
        },
        None => String::new(),
    }
}

/// Function metadata and body.
#[derive(Debug)]
pub struct Function {
    /// Metadata of the function.
    pub metadata: FunctionMetadata,
    /// Function body.
    pub body: String,
}

/// The mathematical value of a [`Function`].
pub struct FunctionView {
    pub metadata: FunctionMetadataView,
    pub body: Seq<char>,
}

impl View for Function {
    type V = FunctionView;

    open spec fn view(&self) -> FunctionView {
        FunctionView { metadata: self.metadata@, body: self.body@ }
    }
}

impl Clone for Function {
    fn clone(&self) -> (out: Function)
        ensures
            out@ == self@,
    {
        Function { metadata: self.metadata.clone(), body: self.body.clone() }
    }
}

impl Function {
    /// Create a new Function.
    pub fn new(metadata: FunctionMetadata, body: String) -> (out: Function)
        ensures
            out.metadata == metadata,
            out.body == body,
    {
        Function { metadata, body }
    }

    /// The record of a function declared outside any impl block, in the
    /// module `scope`: it is named `scope :: identifier` and has no owning
    /// type.
    pub fn free(scope: &Path, signature: Signature, body: String) -> (out: Function)
        ensures
            out@.metadata.name == scope@.push(signature@.ident),
            out@.metadata.signature == signature@,
            out@.metadata.impl_type is None,
            out@.metadata.trait_ is None,
            out@.body == body@,
    {
        let name = scope.clone().join(signature.ident.clone());
        Function { metadata: FunctionMetadata { name, signature, impl_type: None, trait_: None }, body }
    }

    /// The record of a function declared in an impl block of `owner`,
    /// which implements `trait_` if one is given: it is named after the
    /// rendered owning type, `owner :: identifier`.
    pub fn method(owner: Type, signature: Signature, trait_: Option<Path>, body: String) -> (out:
        Function)
        ensures
            out@.metadata.name == owner@.rendered().push(signature@.ident),
            out@.metadata.signature == signature@,
            out@.metadata.impl_type == Some(owner@),
            out@.metadata.trait_ == crate::model::view_of(trait_),
            out@.body == body@,
    {
        let name = owner.as_path().join(signature.ident.clone());
        Function {
            metadata: FunctionMetadata { name, signature, impl_type: Some(owner), trait_ },
            body,
        }
    }

    /// Get the scope of the function: its name without the identifier.
    pub fn scope(&self) -> (out: String)
        ensures
            out@ == scope_of(self@.metadata.name),
    {
        scope(&self.metadata.name)
    }

    /// Equal by signature, see [`SignatureView::matches`].
    pub fn sig_eq(&self, other: &Function) -> (same: bool)
        ensures
            same == self@.metadata.signature.matches(other@.metadata.signature),
    {
        self.metadata.signature.matches(&other.metadata.signature)
    }
}

/// Function shared by 2 source files, with same metadata but different bodies.
#[derive(Debug)]
pub struct CommonFunction {
    /// Metadata of the function.
    pub metadata: FunctionMetadata,
    /// Body from first source file.
    pub body1: String,
    /// Body from second source file.
    pub body2: String,
}

/// The mathematical value of a [`CommonFunction`].
pub struct CommonFunctionView {
    pub metadata: FunctionMetadataView,
    pub body1: Seq<char>,
    pub body2: Seq<char>,
}

impl View for CommonFunction {
    type V = CommonFunctionView;

    open spec fn view(&self) -> CommonFunctionView {
        CommonFunctionView { metadata: self.metadata@, body1: self.body1@, body2: self.body2@ }
    }
}

impl Clone for CommonFunction {
    fn clone(&self) -> (out: CommonFunction)
        ensures
            out@ == self@,
    {
        CommonFunction {
            metadata: self.metadata.clone(),
            body1: self.body1.clone(),
            body2: self.body2.clone(),
        }
    }
}

impl CommonFunction {
    /// Create a new CommonFunction.
    pub fn new(metadata: FunctionMetadata, body1: String, body2: String) -> (out: CommonFunction)
        ensures
            out.metadata == metadata,
            out.body1 == body1,
            out.body2 == body2,
    {
        CommonFunction { metadata, body1, body2 }
    }

    /// The qualified name that both versions share.
    pub fn name(&self) -> (out: &Path)
        ensures
            *out == self.metadata.name,
    {
        &self.metadata.name
    }

    /// Get the scope of the function: its name without the identifier.
    pub fn scope(&self) -> (out: String)
        ensures
            out@ == scope_of(self@.metadata.name),
    {
        scope(&self.metadata.name)
    }

    /// The signature that both versions share.
    pub fn sig(&self) -> (out: &Signature)
        ensures
            *out == self.metadata.signature,
    {
        &self.metadata.signature
    }

    /// Get the implementation type of a function that has one.
    pub fn impl_type(&self) -> (out: &Type)
        requires
            self.metadata.impl_type is Some,
        ensures
            Some(*out) == self.metadata.impl_type,
    {
        self.metadata.impl_type.as_ref().unwrap()
    }
}

/// Copies every item of `items`.
pub fn clone_all(items: &Vec<CommonFunction>) -> (out: Vec<CommonFunction>)
    ensures
        crate::model::views(out@) == crate::model::views(items@),
{
    let out = items.clone();
    proof {
        assert(crate::model::views(out@) =~= crate::model::views(items@));
    }
    out
}

/// The names of `pairs`, in order.
pub open spec fn names_of(pairs: Seq<CommonFunctionView>) -> Seq<Seq<Seq<char>>> {
    pairs.map_values(|pair: CommonFunctionView| pair.metadata.name)
}

/// The names of `pairs`, in order.
pub fn names(pairs: &Vec<CommonFunction>) -> (out: Vec<Path>)
    ensures
        crate::model::views(out@) == names_of(crate::model::views(pairs@)),
{
    let mut out: Vec<Path> = Vec::new();
    let mut i: usize = 0;
    while i < pairs.len()
        invariant
            i <= pairs.len(),
            crate::model::views(out@) == names_of(crate::model::views(pairs@)).take(i as int),
        decreases pairs.len() - i,
    {
        let ghost before = out@;
        let name = pairs[i].metadata.name.clone();
        out.push(name);
        proof {
            crate::model::views_push(before, name);
            assert(names_of(crate::model::views(pairs@)).take(i + 1) =~= names_of(
                crate::model::views(pairs@),
            ).take(i as int).push(name@));
        }
        i += 1;
    }
    proof {
        assert(names_of(crate::model::views(pairs@)).take(pairs.len() as int) =~= names_of(
            crate::model::views(pairs@),
        ));
    }
    out
}

} // verus!
