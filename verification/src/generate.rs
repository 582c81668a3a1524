//! Harness generation, independent of the engine that consumes the harness.
//!
//! The generator classifies and prunes the pairs it is given and computes
//! what every backend needs: the traits to import, an argument container
//! for each function that is called, the arguments of each call and the
//! shape of each receiver. A backend turns these into the code of one
//! engine.

use crate::classify::{Buckets, FunctionClassifier, classified, find_owner, has_owner, owner_index,
    owner_index_is_least};
use crate::check::Checker;
use crate::defs::function::{CommonFunction, CommonFunctionView, Receiver, names, names_of};
use crate::defs::path::Path;
use crate::matching::{has_pair_named, names_pair};
use vstd::prelude::*;
use vstd::string::StringExecFns;

verus! {

/// The container that carries the arguments of one function: a structure
/// named after the function, with one field for each typed parameter.
#[derive(Debug)]
pub struct ArgStruct {
    /// The qualified name of the function.
    pub function: Path,
    /// The declarations of the typed parameters, in order.
    pub fields: Vec<String>,
}

/// The mathematical value of an [`ArgStruct`].
pub struct ArgStructView {
    pub function: Seq<Seq<char>>,
    pub fields: Seq<Seq<char>>,
}

impl View for ArgStruct {
    type V = ArgStructView;

    open spec fn view(&self) -> ArgStructView {
        ArgStructView { function: self.function@, fields: crate::model::views(self.fields@) }
    }
}

/// The prefix of the name of every argument container.
pub open spec fn container_prefix() -> Seq<char> {
    "Args"@
}

impl ArgStructView {
    /// The name of the container: `Args` and the flattened name of the
    /// function.
    pub open spec fn struct_name(self) -> Seq<char> {
        container_prefix() + crate::text::joined(self.function, "___"@)
    }
}

impl ArgStruct {
    /// The name of the container: `Args` and the flattened name of the
    /// function.
    pub fn struct_name(&self) -> (out: String)
        ensures
            out@ == self@.struct_name(),
    {
        let mut out = String::from_str("Args");
        let flat = self.function.to_ident();
        out.append(flat.as_str());
        out
    }
}

/// The argument container of a pair.
pub open spec fn arg_struct_of(pair: CommonFunctionView) -> ArgStructView {
    ArgStructView { function: pair.metadata.name, fields: pair.metadata.signature.declarations() }
}

/// The argument containers of `pairs`, each in its place.
pub open spec fn arg_structs_of(pairs: Seq<CommonFunctionView>) -> Seq<ArgStructView> {
    pairs.map_values(|pair: CommonFunctionView| arg_struct_of(pair))
}

/// The constructor of the owning type of `method`.
pub open spec fn constructor_of(buckets: Buckets, method: CommonFunctionView) -> CommonFunctionView
    recommends
        has_owner(buckets.constructors, method.metadata.impl_type),
{
    buckets.constructors[owner_index(buckets.constructors, method.metadata.impl_type).unwrap()]
}

/// The state getter of the owning type of `method`, if it has one.
pub open spec fn getter_of(buckets: Buckets, method: CommonFunctionView) -> Option<
    CommonFunctionView,
> {
    match owner_index(buckets.getters, method.metadata.impl_type) {
        Some(at) => Some(buckets.getters[at]),
        None => None,
    }
}

/// The constructors that the first `count` methods use, each once, in the
/// order of their first use. Two constructors of one name count as one.
pub open spec fn used_constructors(buckets: Buckets, count: int) -> Seq<CommonFunctionView>
    decreases count,
{
    if count <= 0 {
        Seq::empty()
    } else {
        let before = used_constructors(buckets, count - 1);
        let constructor = constructor_of(buckets, buckets.methods[count - 1]);
        if names_pair(before, constructor.metadata.name) {
            before
        } else {
            before.push(constructor)
        }
    }
}

/// The traits that `pairs` are implemented against, each once, in the
/// order of their first occurrence.
pub open spec fn traits_of(pairs: Seq<CommonFunctionView>) -> Seq<Seq<Seq<char>>>
    decreases pairs.len(),
{
    if pairs.len() == 0 {
        Seq::empty()
    } else {
        let before = traits_of(pairs.drop_last());
        match pairs.last().metadata.trait_ {
            Some(path) => if before.contains(path) {
                before
            } else {
                before.push(path)
            },
            None => before,
        }
    }
}

/// The call of a free-standing function in its comparison routine.
#[derive(Debug)]
pub struct FunctionCall {
    /// The function that both versions define.
    pub function: CommonFunction,
    /// The names under which its typed parameters are passed, in order.
    pub arguments: Vec<String>,
}

/// The mathematical value of a [`FunctionCall`].
pub struct FunctionCallView {
    pub function: CommonFunctionView,
    pub arguments: Seq<Seq<char>>,
}

impl View for FunctionCall {
    type V = FunctionCallView;

    open spec fn view(&self) -> FunctionCallView {
        FunctionCallView {
            function: self.function@,
            arguments: crate::model::views(self.arguments@),
        }
    }
}

/// The call of a method in its comparison routine, on a receiver that the
/// constructor of its owning type builds.
#[derive(Debug)]
pub struct MethodCall {
    /// The method that both versions define.
    pub method: CommonFunction,
    /// The constructor of the owning type.
    pub constructor: CommonFunction,
    /// The state getter of the owning type, if it has one.
    pub getter: Option<CommonFunction>,
    /// The names under which the typed parameters of the method are passed.
    pub method_arguments: Vec<String>,
    /// The names under which the parameters of the constructor are passed.
    pub constructor_arguments: Vec<String>,
    /// How the method takes its receiver.
    pub receiver: Receiver,
}

/// The mathematical value of a [`MethodCall`].
pub struct MethodCallView {
    pub method: CommonFunctionView,
    pub constructor: CommonFunctionView,
    pub getter: Option<CommonFunctionView>,
    pub method_arguments: Seq<Seq<char>>,
    pub constructor_arguments: Seq<Seq<char>>,
    pub receiver: Receiver,
}

impl View for MethodCall {
    type V = MethodCallView;

    open spec fn view(&self) -> MethodCallView {
        MethodCallView {
            method: self.method@,
            constructor: self.constructor@,
            getter: crate::model::view_of(self.getter),
            method_arguments: crate::model::views(self.method_arguments@),
            constructor_arguments: crate::model::views(self.constructor_arguments@),
            receiver: self.receiver,
        }
    }
}

/// The call of the function `function`.
pub open spec fn function_call_of(function: CommonFunctionView) -> FunctionCallView {
    FunctionCallView { function, arguments: function.metadata.signature.argument_names() }
}

/// The call of the method `method` of the classification `buckets`.
pub open spec fn method_call_of(buckets: Buckets, method: CommonFunctionView) -> MethodCallView {
    MethodCallView {
        method,
        constructor: constructor_of(buckets, method),
        getter: getter_of(buckets, method),
        method_arguments: method.metadata.signature.argument_names(),
        constructor_arguments: constructor_of(buckets, method).metadata.signature.argument_names(),
        receiver: method.metadata.signature.receiver(),
    }
}

impl Buckets {
    /// The traits to import: those that the functions and the methods are
    /// implemented against, each once.
    pub open spec fn required_imports(self) -> Seq<Seq<Seq<char>>> {
        traits_of(self.functions + self.methods)
    }

    /// The argument containers: those of the functions, then those of the
    /// constructors in use, then those of the methods.
    pub open spec fn arg_structs(self) -> Seq<ArgStructView> {
        arg_structs_of(self.functions) + arg_structs_of(
            used_constructors(self, self.methods.len() as int),
        ) + arg_structs_of(self.methods)
    }

    /// The calls of the functions, in order.
    pub open spec fn function_calls(self) -> Seq<FunctionCallView> {
        self.functions.map_values(|function: CommonFunctionView| function_call_of(function))
    }

    /// The calls of the methods, in order.
    pub open spec fn method_calls(self) -> Seq<MethodCallView> {
        self.methods.map_values(|method: CommonFunctionView| method_call_of(self, method))
    }

    /// The names of the functions and methods that a harness checks: first
    /// the functions, then the methods.
    pub open spec fn checked_names(self) -> Seq<Seq<Seq<char>>> {
        names_of(self.functions) + names_of(self.methods)
    }
}

/// Tells whether `paths` holds `path`.
pub fn contains_path(paths: &Vec<Path>, path: &Path) -> (found: bool)
    ensures
        found == crate::model::views(paths@).contains(path@),
{
    let mut k: usize = 0;
    while k < paths.len()
        invariant
            k <= paths.len(),
            forall|j: int| 0 <= j < k ==> crate::model::views(paths@)[j] != path@,
        decreases paths.len() - k,
    {
        if paths[k] == *path {
            proof {
                assert(crate::model::views(paths@)[k as int] == path@);
            }
            return true;
        }
        k += 1;
    }
    false
}

/// Adds to `found` the traits that `pairs` are implemented against and
/// that it does not hold yet.
fn collect_traits(
    found: &mut Vec<Path>,
    pairs: &Vec<CommonFunction>,
    Ghost(front): Ghost<Seq<CommonFunctionView>>,
)
    requires
        crate::model::views(old(found)@) == traits_of(front),
    ensures
        crate::model::views(final(found)@) == traits_of(front + crate::model::views(pairs@)),
{
    let ghost all = crate::model::views(pairs@);
    let mut i: usize = 0;
    proof {
        assert(front + all.take(0) =~= front);
    }
    while i < pairs.len()
        invariant
            i <= pairs.len(),
            all == crate::model::views(pairs@),
            crate::model::views(found@) == traits_of(front + all.take(i as int)),
        decreases pairs.len() - i,
    {
        let ghost before = found@;
        proof {
            assert((front + all.take(i + 1)).drop_last() =~= front + all.take(i as int));
            assert((front + all.take(i + 1)).last() == pairs@[i as int]@);
        }
        match &pairs[i].metadata.trait_ {
            Some(path) => {
                if !contains_path(found, path) {
                    let path = path.clone();
                    found.push(path);
                    proof {
                        crate::model::views_push(before, path);
                    }
                }
            },
            None => {},
        }
        i += 1;
    }
    proof {
        assert(all.take(pairs.len() as int) =~= all);
    }
}

/// The argument container of `pair`.
pub fn arg_struct(pair: &CommonFunction) -> (out: ArgStruct)
    ensures
        out@ == arg_struct_of(pair@),
{
    ArgStruct { function: pair.metadata.name.clone(), fields: pair.metadata.signature.declarations() }
}

/// Adds the argument containers of `pairs` to `out`.
fn push_arg_structs(out: &mut Vec<ArgStruct>, pairs: &Vec<CommonFunction>)
    ensures
        crate::model::views(final(out)@) == crate::model::views(old(out)@) + arg_structs_of(
            crate::model::views(pairs@),
        ),
{
    let ghost start = crate::model::views(out@);
    let ghost all = crate::model::views(pairs@);
    let mut i: usize = 0;
    proof {
        assert(start + arg_structs_of(all.take(0)) =~= start);
    }
    while i < pairs.len()
        invariant
            i <= pairs.len(),
            all == crate::model::views(pairs@),
            crate::model::views(out@) == start + arg_structs_of(all.take(i as int)),
        decreases pairs.len() - i,
    {
        let ghost before = out@;
        let container = arg_struct(&pairs[i]);
        out.push(container);
        proof {
            crate::model::views_push(before, container);
            assert(start + arg_structs_of(all.take(i + 1)) =~= (start + arg_structs_of(
                all.take(i as int),
            )).push(container@));
        }
        i += 1;
    }
    proof {
        assert(all.take(pairs.len() as int) =~= all);
    }
}

/// Generic harness generator using a backend.
#[derive(Debug)]
pub struct HarnessGenerator {
    /// Functions used to generate the harness.
    classifier: FunctionClassifier,
    /// The methods that were dropped for want of a constructor.
    dropped: Vec<CommonFunction>,
}

impl View for HarnessGenerator {
    type V = Buckets;

    open spec fn view(&self) -> Buckets {
        self.classification()@
    }
}

/// The trait capturing differences between different check/test harness backends.
///
/// The generator calls each hook with what it has computed and hands the
/// results on as it received them; it claims nothing of what a hook
/// returns.
pub trait HarnessBackend {
    /// The code that the backend emits.
    type Code;

    /// Build the comparison routine for a free-standing function, called
    /// with the arguments named `function_args`.
    fn make_harness_for_function(
        &self,
        function: &CommonFunction,
        function_args: &Vec<String>,
    ) -> Self::Code;

    /// Build the comparison routine for a method.
    fn make_harness_for_method(
        &self,
        method: &CommonFunction,
        constructor: &CommonFunction,
        getter: &Option<CommonFunction>,
        method_args: &Vec<String>,
        constructor_args: &Vec<String>,
        receiver: Receiver,
    ) -> Self::Code;

    /// Other code that the engine needs, built from the classified pairs.
    fn additional_code(&self, classifier: &FunctionClassifier) -> Self::Code;

    /// Final wrapper given all pieces: used to assemble final file.
    fn finalize(
        &self,
        imports: Vec<Path>,
        args_structs: Vec<ArgStruct>,
        functions: Vec<Self::Code>,
        methods: Vec<Self::Code>,
        additional: Self::Code,
    ) -> Self::Code;
}

/// The pieces of a harness before they are assembled.
pub struct HarnessPieces<C> {
    /// The traits to import from both versions.
    pub imports: Vec<Path>,
    /// The argument containers.
    pub args_structs: Vec<ArgStruct>,
    /// The calls that the function routines were built for.
    pub function_calls: Vec<FunctionCall>,
    /// The calls that the method routines were built for.
    pub method_calls: Vec<MethodCall>,
    /// The comparison routines of the functions, as the backend built them.
    pub functions: Vec<C>,
    /// The comparison routines of the methods, as the backend built them.
    pub methods: Vec<C>,
    /// The additional code, as the backend built it.
    pub additional: C,
}

/// `code` is what the backend returned for the function call `call`.
pub open spec fn is_function_routine<B: HarnessBackend>(
    backend: &B,
    call: FunctionCall,
    code: B::Code,
) -> bool {
    call_ensures(B::make_harness_for_function, (backend, &call.function, &call.arguments), code)
}

/// `code` is what the backend returned for the method call `call`.
pub open spec fn is_method_routine<B: HarnessBackend>(
    backend: &B,
    call: MethodCall,
    code: B::Code,
) -> bool {
    call_ensures(
        B::make_harness_for_method,
        (
            backend,
            &call.method,
            &call.constructor,
            &call.getter,
            &call.method_arguments,
            &call.constructor_arguments,
            call.receiver,
        ),
        code,
    )
}

impl<C> HarnessPieces<C> {
    /// The pieces are those of `generator` under `backend`: the imports,
    /// containers and calls are the ones the generator computes, each
    /// routine is what the backend returned for the call in its place, and
    /// the additional code is what the backend returned for the classified
    /// pairs.
    pub open spec fn fit<B: HarnessBackend<Code = C>>(
        self,
        generator: &HarnessGenerator,
        backend: &B,
    ) -> bool {
        &&& crate::model::views(self.imports@) == generator@.required_imports()
        &&& crate::model::views(self.args_structs@) == generator@.arg_structs()
        &&& crate::model::views(self.function_calls@) == generator@.function_calls()
        &&& crate::model::views(self.method_calls@) == generator@.method_calls()
        &&& self.functions@.len() == self.function_calls@.len()
        &&& forall|i: int|
            0 <= i < self.functions@.len() ==> is_function_routine(
                backend,
                self.function_calls@[i],
                #[trigger] self.functions@[i],
            )
        &&& self.methods@.len() == self.method_calls@.len()
        &&& forall|i: int|
            0 <= i < self.methods@.len() ==> is_method_routine(
                backend,
                self.method_calls@[i],
                #[trigger] self.methods@[i],
            )
        &&& call_ensures(
            B::additional_code,
            (backend, &generator.classification()),
            self.additional,
        )
    }
}

impl HarnessGenerator {
    /// The classification that the harness is generated from.
    pub closed spec fn classification(&self) -> FunctionClassifier {
        self.classifier
    }

    /// The methods that were dropped for want of a constructor.
    pub closed spec fn dropped(&self) -> Seq<CommonFunctionView> {
        crate::model::views(self.dropped@)
    }

    #[verifier::type_invariant]
    spec fn consistent(self) -> bool {
        &&& self.classifier@.usable()
        &&& self.classifier@.well_formed()
    }

    /// Create a new harness generator for the given functions: they are
    /// classified, then pruned by both passes.
    pub fn new(functions: Vec<CommonFunction>) -> (out: HarnessGenerator)
        ensures
            out@ == classified(crate::model::views(functions@)).pruned(),
            out@.usable(),
            out@.well_formed(),
            out.dropped() == classified(crate::model::views(functions@)).orphan_methods(),
    {
        let mut classifier = FunctionClassifier::classify(functions);
        let ghost first = classifier@;
        classifier.remove_unused_constructors_and_getters();
        let dropped = classifier.remove_methods_without_constructors();
        proof {
            crate::classify::pruning_is_consistent(first);
        }
        HarnessGenerator { classifier, dropped }
    }

    /// The names of the methods that are left out of the harness because
    /// their owning type has no constructor, in their order.
    pub fn dropped_methods(&self) -> (out: Vec<Path>)
        ensures
            crate::model::views(out@) == names_of(self.dropped()),
    {
        names(&self.dropped)
    }

    /// The classification of the pairs that `checker` holds: the unchecked
    /// pairs with the support functions, classified and pruned.
    pub open spec fn planned(checker: &Checker) -> Buckets {
        classified(
            checker.progress().unchecked + crate::model::views(checker.constructors@)
                + crate::model::views(checker.getters@),
        ).pruned()
    }

    /// The methods among the pairs that `checker` holds that a harness
    /// leaves out: those of owning types without a constructor.
    pub open spec fn left_out(checker: &Checker) -> Seq<CommonFunctionView> {
        classified(
            checker.progress().unchecked + crate::model::views(checker.constructors@)
                + crate::model::views(checker.getters@),
        ).orphan_methods()
    }

    /// The generator for the pairs that `checker` holds: its unchecked
    /// pairs, with the constructors and getters that build and inspect
    /// their receivers.
    pub fn for_checker(checker: &Checker) -> (out: HarnessGenerator)
        ensures
            out@ == Self::planned(checker),
            out.dropped() == Self::left_out(checker),
    {
        HarnessGenerator::new(checker.harness_input())
    }

    /// The classification that the harness is generated from: in it each
    /// method has its constructor.
    pub fn classifier(&self) -> (out: &FunctionClassifier)
        ensures
            *out == self.classification(),
            self@.usable(),
            self@.well_formed(),
    {
        proof {
            use_type_invariant(self);
        }
        &self.classifier
    }

    /// The names of the functions and methods that the harness checks:
    /// first the functions, then the methods.
    pub fn checked_names(&self) -> (out: Vec<Path>)
        ensures
            crate::model::views(out@) == self@.checked_names(),
    {
        let mut out = names(&self.classifier.functions);
        let mut methods = names(&self.classifier.methods);
        let ghost a = out@;
        let ghost b = methods@;
        out.append(&mut methods);
        proof {
            crate::model::views_concat(a, b);
        }
        out
    }

    /// The traits that the harness imports from both versions.
    pub fn required_imports(&self) -> (out: Vec<Path>)
        ensures
            crate::model::views(out@) == self@.required_imports(),
    {
        let mut out: Vec<Path> = Vec::new();
        proof {
            assert(crate::model::views(out@) =~= traits_of(Seq::empty()));
        }
        collect_traits(&mut out, &self.classifier.functions, Ghost(Seq::empty()));
        proof {
            assert(Seq::<CommonFunctionView>::empty() + self@.functions =~= self@.functions);
        }
        collect_traits(&mut out, &self.classifier.methods, Ghost(self@.functions));
        out
    }

    /// The constructor of the owning type of the method at `index`.
    fn constructor_at(&self, index: usize) -> (out: &CommonFunction)
        requires
            index < self@.methods.len(),
        ensures
            out@ == constructor_of(self@, self@.methods[index as int]),
    {
        proof {
            use_type_invariant(self);
            owner_index_is_least(
                self@.constructors,
                self@.methods[index as int].metadata.impl_type,
                0,
            );
        }
        let found = find_owner(
            &self.classifier.constructors,
            &self.classifier.methods[index].metadata.impl_type,
        );
        &self.classifier.constructors[found.unwrap()]
    }

    /// The argument containers that the harness declares.
    pub fn arg_structs(&self) -> (out: Vec<ArgStruct>)
        ensures
            crate::model::views(out@) == self@.arg_structs(),
    {
        let mut used: Vec<CommonFunction> = Vec::new();
        let mut i: usize = 0;
        proof {
            assert(crate::model::views(used@) =~= used_constructors(self@, 0));
        }
        while i < self.classifier.methods.len()
            invariant
                i <= self.classifier.methods.len(),
                crate::model::views(used@) == used_constructors(self@, i as int),
            decreases self.classifier.methods.len() - i,
        {
            let ghost before = used@;
            let constructor = self.constructor_at(i);
            if !has_pair_named(&used, &constructor.metadata.name) {
                let constructor = constructor.clone();
                used.push(constructor);
                proof {
                    crate::model::views_push(before, constructor);
                }
            }
            i += 1;
        }
        let mut out: Vec<ArgStruct> = Vec::new();
        proof {
            assert(crate::model::views(out@) =~= Seq::<ArgStructView>::empty());
        }
        push_arg_structs(&mut out, &self.classifier.functions);
        push_arg_structs(&mut out, &used);
        push_arg_structs(&mut out, &self.classifier.methods);
        proof {
            assert(Seq::<ArgStructView>::empty() + arg_structs_of(self@.functions)
                =~= arg_structs_of(self@.functions));
        }
        out
    }

    /// The calls of the free-standing functions, in order.
    pub fn function_calls(&self) -> (out: Vec<FunctionCall>)
        ensures
            crate::model::views(out@) == self@.function_calls(),
    {
        let mut out: Vec<FunctionCall> = Vec::new();
        let mut i: usize = 0;
        while i < self.classifier.functions.len()
            invariant
                i <= self.classifier.functions.len(),
                crate::model::views(out@) == self@.function_calls().take(i as int),
            decreases self.classifier.functions.len() - i,
        {
            let ghost before = out@;
            let function = &self.classifier.functions[i];
            let call = FunctionCall {
                function: function.clone(),
                arguments: function.metadata.signature.argument_names(),
            };
            out.push(call);
            proof {
                crate::model::views_push(before, call);
                assert(self@.function_calls().take(i + 1) =~= self@.function_calls().take(
                    i as int,
                ).push(call@));
            }
            i += 1;
        }
        proof {
            assert(self@.function_calls().take(self@.functions.len() as int)
                =~= self@.function_calls());
        }
        out
    }

    /// The calls of the methods, in order, each with the constructor and
    /// the state getter of its owning type.
    pub fn method_calls(&self) -> (out: Vec<MethodCall>)
        ensures
            crate::model::views(out@) == self@.method_calls(),
    {
        let mut out: Vec<MethodCall> = Vec::new();
        let mut i: usize = 0;
        while i < self.classifier.methods.len()
            invariant
                i <= self.classifier.methods.len(),
                crate::model::views(out@) == self@.method_calls().take(i as int),
            decreases self.classifier.methods.len() - i,
        {
            let ghost before = out@;
            let method = &self.classifier.methods[i];
            let constructor = self.constructor_at(i);
            let getter = match find_owner(&self.classifier.getters, &method.metadata.impl_type) {
                Some(at) => Some(self.classifier.getters[at].clone()),
                None => None,
            };
            let call = MethodCall {
                method: method.clone(),
                constructor: constructor.clone(),
                getter,
                method_arguments: method.metadata.signature.argument_names(),
                constructor_arguments: constructor.metadata.signature.argument_names(),
                receiver: method.metadata.signature.receiver(),
            };
            out.push(call);
            proof {
                crate::model::views_push(before, call);
                assert(self@.method_calls().take(i + 1) =~= self@.method_calls().take(
                    i as int,
                ).push(call@));
            }
            i += 1;
        }
        proof {
            assert(self@.method_calls().take(self@.methods.len() as int) =~= self@.method_calls());
        }
        out
    }

    /// Computes the pieces of the harness in the fixed order: imports,
    /// argument containers, one routine for each function, one routine for
    /// each method, additional code.
    pub fn harness_pieces<B: HarnessBackend>(&self, backend: &B) -> (pieces: HarnessPieces<B::Code>)
        ensures
            pieces.fit(self, backend),
    {
        let imports = self.required_imports();
        let args_structs = self.arg_structs();
        let function_calls = self.function_calls();
        let mut functions: Vec<B::Code> = Vec::new();
        let mut i: usize = 0;
        while i < function_calls.len()
            invariant
                i <= function_calls.len(),
                functions@.len() == i,
                forall|k: int|
                    0 <= k < i ==> is_function_routine(
                        backend,
                        function_calls@[k],
                        #[trigger] functions@[k],
                    ),
            decreases function_calls.len() - i,
        {
            let call = &function_calls[i];
            let code = backend.make_harness_for_function(&call.function, &call.arguments);
            functions.push(code);
            i += 1;
        }
        let method_calls = self.method_calls();
        let mut methods: Vec<B::Code> = Vec::new();
        let mut j: usize = 0;
        while j < method_calls.len()
            invariant
                j <= method_calls.len(),
                methods@.len() == j,
                forall|k: int|
                    0 <= k < j ==> is_method_routine(
                        backend,
                        method_calls@[k],
                        #[trigger] methods@[k],
                    ),
            decreases method_calls.len() - j,
        {
            let call = &method_calls[j];
            let code = backend.make_harness_for_method(
                &call.method,
                &call.constructor,
                &call.getter,
                &call.method_arguments,
                &call.constructor_arguments,
                call.receiver,
            );
            methods.push(code);
            j += 1;
        }
        let additional = backend.additional_code(&self.classifier);
        HarnessPieces {
            imports,
            args_structs,
            function_calls,
            method_calls,
            functions,
            methods,
            additional,
        }
    }

    /// Generate the complete harness: the pieces of [`Self::harness_pieces`],
    /// assembled by the backend.
    pub fn generate_harness<B: HarnessBackend>(&self, backend: &B) -> (code: B::Code)
        ensures
            exists|pieces: HarnessPieces<B::Code>|
                {
                    &&& #[trigger] pieces.fit(self, backend)
                    &&& call_ensures(
                        B::finalize,
                        (
                            backend,
                            pieces.imports,
                            pieces.args_structs,
                            pieces.functions,
                            pieces.methods,
                            pieces.additional,
                        ),
                        code,
                    )
                },
    {
        let pieces = self.harness_pieces(backend);
        let ghost witness = pieces;
        let HarnessPieces {
            imports,
            args_structs,
            function_calls: _,
            method_calls: _,
            functions,
            methods,
            additional,
        } = pieces;
        let code = backend.finalize(imports, args_structs, functions, methods, additional);
        proof {
            assert(witness.fit(self, backend));
        }
        code
    }
}

} // verus!
