use veri_easy::classify::FunctionClassifier;
use veri_easy::generate::{contains_path, arg_struct, ArgStruct, HarnessBackend, HarnessGenerator};
use veri_easy::{
    CommonFunction, FunctionMetadata, Param, Path, PreciseType, Receiver, Signature, Type,
    TypedParam,
};

fn precise(text: &str) -> Type {
    Type::Precise(PreciseType(Path::from_str(text)))
}

fn typed(name: &str) -> Param {
    Param::Typed(TypedParam { name: Some(name.to_string()), ty: precise("u8"), decl: format!("{} : u8", name) })
}

fn receiver(reference: bool, mutable: bool) -> Param {
    Param::Receiver(Receiver { reference, mutable })
}

fn pair(name: &str, inputs: Vec<Param>, owner: Option<&str>, trait_: Option<&str>) -> CommonFunction {
    let path = Path::from_str(name);
    let ident = path.0.last().unwrap().clone();
    CommonFunction::new(
        FunctionMetadata::new(
            path,
            Signature::new(ident, inputs, None),
            owner.map(precise),
            trait_.map(Path::from_str),
        ),
        "{ a }".to_string(),
        "{ b }".to_string(),
    )
}

fn sample() -> Vec<CommonFunction> {
    vec![
        pair("S::verieasy_new", vec![typed("seed")], Some("S"), None),
        pair("S::verieasy_get", vec![receiver(true, false)], Some("S"), None),
        pair("free", vec![typed("x"), typed("y")], None, None),
        pair("S::push", vec![receiver(true, true), typed("v")], Some("S"), Some("m::Stack")),
        pair("T::verieasy_new", vec![], Some("T"), None),
        pair("T::take", vec![receiver(false, false)], Some("T"), Some("m::Stack")),
        pair("S::len", vec![receiver(true, false)], Some("S"), Some("Sized")),
        pair("U::orphan", vec![receiver(true, false)], Some("U"), Some("Lost")),
        pair("V::verieasy_new", vec![], Some("V"), None),
    ]
}

fn names(pairs: &Vec<CommonFunction>) -> Vec<String> {
    pairs.iter().map(|p| p.metadata.name.to_string()).collect()
}

struct Outline;

impl HarnessBackend for Outline {
    type Code = String;

    fn make_harness_for_function(&self, function: &CommonFunction, function_args: &Vec<String>) -> String {
        format!("fn {}({})", function.metadata.name.to_string(), function_args.join(","))
    }

    fn make_harness_for_method(
        &self,
        method: &CommonFunction,
        constructor: &CommonFunction,
        getter: &Option<CommonFunction>,
        method_args: &Vec<String>,
        constructor_args: &Vec<String>,
        receiver: Receiver,
    ) -> String {
        format!(
            "method {}({}) on {}({}) get {} ref={} mut={}",
            method.metadata.name.to_string(),
            method_args.join(","),
            constructor.metadata.name.to_string(),
            constructor_args.join(","),
            getter.as_ref().map(|g| g.metadata.name.to_string()).unwrap_or("-".to_string()),
            receiver.reference,
            receiver.mutable
        )
    }

    fn additional_code(&self, classifier: &FunctionClassifier) -> String {
        format!("dispatch {}", classifier.routine_names().join(","))
    }

    fn finalize(
        &self,
        imports: Vec<Path>,
        args_structs: Vec<ArgStruct>,
        functions: Vec<String>,
        methods: Vec<String>,
        additional: String,
    ) -> String {
        let mut lines: Vec<String> = Vec::new();
        for import in &imports {
            lines.push(format!("use {}", import.to_string()));
        }
        for container in &args_structs {
            lines.push(format!("struct {} {{ {} }}", container.struct_name(), container.fields.join(", ")));
        }
        lines.extend(functions);
        lines.extend(methods);
        lines.push(additional);
        lines.join("\n")
    }
}

#[test]
fn generator_classifies_and_prunes() {
    let generator = HarnessGenerator::new(sample());
    let c = generator.classifier();
    assert_eq!(names(&c.functions), vec!["free"]);
    assert_eq!(names(&c.methods), vec!["S::push", "T::take", "S::len"]);
    assert_eq!(names(&c.constructors), vec!["S::verieasy_new", "T::verieasy_new"]);
    assert_eq!(names(&c.getters), vec!["S::verieasy_get"]);
    let dropped: Vec<String> = generator.dropped_methods().iter().map(|p| p.to_string()).collect();
    assert_eq!(dropped, vec!["U::orphan"]);
}

#[test]
fn checked_names_list_functions_then_methods() {
    let generator = HarnessGenerator::new(sample());
    let listed: Vec<String> = generator.checked_names().iter().map(|p| p.to_string()).collect();
    assert_eq!(listed, vec!["free", "S::push", "T::take", "S::len"]);
}

#[test]
fn imports_are_deduplicated_in_order() {
    let generator = HarnessGenerator::new(sample());
    let imports: Vec<String> = generator.required_imports().iter().map(|p| p.to_string()).collect();
    assert_eq!(imports, vec!["m::Stack", "Sized"]);
}

#[test]
fn imports_of_functions_come_first() {
    let generator = HarnessGenerator::new(vec![
        pair("S::verieasy_new", vec![], Some("S"), Some("Ctor")),
        pair("S::m", vec![receiver(true, false)], Some("S"), Some("B")),
        pair("f", vec![], None, Some("A")),
        pair("g", vec![], None, Some("B")),
    ]);
    let imports: Vec<String> = generator.required_imports().iter().map(|p| p.to_string()).collect();
    assert_eq!(imports, vec!["A", "B"]);
}

#[test]
fn arg_structs_cover_functions_constructors_methods() {
    let generator = HarnessGenerator::new(sample());
    let structs = generator.arg_structs();
    let listed: Vec<String> = structs.iter().map(|s| s.struct_name()).collect();
    assert_eq!(
        listed,
        vec![
            "Argsfree",
            "ArgsS___verieasy_new",
            "ArgsT___verieasy_new",
            "ArgsS___push",
            "ArgsT___take",
            "ArgsS___len"
        ]
    );
    assert_eq!(structs[0].fields, vec!["x : u8", "y : u8"]);
    assert_eq!(structs[1].fields, vec!["seed : u8"]);
    assert_eq!(structs[3].fields, vec!["v : u8"]);
    assert!(structs[4].fields.is_empty());
}

#[test]
fn arg_struct_leaves_receivers_out() {
    let container = arg_struct(&pair("m::S::push", vec![receiver(true, true), typed("v")], Some("m::S"), None));
    assert_eq!(container.function.to_string(), "m::S::push");
    assert_eq!(container.fields, vec!["v : u8"]);
    assert_eq!(container.struct_name(), "Argsm___S___push");
}

#[test]
fn function_calls_carry_argument_names() {
    let generator = HarnessGenerator::new(sample());
    let calls = generator.function_calls();
    assert_eq!(calls.len(), 1);
    assert_eq!(calls[0].function.metadata.name.to_string(), "free");
    assert_eq!(calls[0].arguments, vec!["x", "y"]);
}

#[test]
fn method_calls_carry_constructor_getter_and_receiver() {
    let generator = HarnessGenerator::new(sample());
    let calls = generator.method_calls();
    assert_eq!(calls.len(), 3);
    assert_eq!(calls[0].method.metadata.name.to_string(), "S::push");
    assert_eq!(calls[0].constructor.metadata.name.to_string(), "S::verieasy_new");
    assert_eq!(calls[0].getter.as_ref().unwrap().metadata.name.to_string(), "S::verieasy_get");
    assert_eq!(calls[0].method_arguments, vec!["v"]);
    assert_eq!(calls[0].constructor_arguments, vec!["seed"]);
    assert_eq!(calls[0].receiver, Receiver { reference: true, mutable: true });
    assert_eq!(calls[1].constructor.metadata.name.to_string(), "T::verieasy_new");
    assert!(calls[1].getter.is_none());
    assert_eq!(calls[1].receiver, Receiver { reference: false, mutable: false });
    assert!(calls[1].method_arguments.is_empty());
    assert_eq!(calls[2].receiver, Receiver { reference: true, mutable: false });
}

#[test]
fn harness_is_assembled_in_fixed_order() {
    let generator = HarnessGenerator::new(sample());
    let harness = generator.generate_harness(&Outline);
    let expected = vec![
        "use m::Stack",
        "use Sized",
        "struct Argsfree { x : u8, y : u8 }",
        "struct ArgsS___verieasy_new { seed : u8 }",
        "struct ArgsT___verieasy_new {  }",
        "struct ArgsS___push { v : u8 }",
        "struct ArgsT___take {  }",
        "struct ArgsS___len {  }",
        "fn free(x,y)",
        "method S::push(v) on S::verieasy_new(seed) get S::verieasy_get ref=true mut=true",
        "method T::take() on T::verieasy_new() get - ref=false mut=false",
        "method S::len() on S::verieasy_new(seed) get S::verieasy_get ref=true mut=false",
        "dispatch check_free,check_S___push,check_T___take,check_S___len",
    ];
    assert_eq!(harness, expected.join("\n"));
}

#[test]
fn harness_pieces_keep_calls_and_routines_in_step() {
    let generator = HarnessGenerator::new(sample());
    let pieces = generator.harness_pieces(&Outline);
    assert_eq!(pieces.functions.len(), pieces.function_calls.len());
    assert_eq!(pieces.methods.len(), pieces.method_calls.len());
    assert_eq!(pieces.functions, vec!["fn free(x,y)"]);
    assert_eq!(pieces.imports.len(), 2);
    assert_eq!(pieces.args_structs.len(), 6);
    assert_eq!(pieces.additional, "dispatch check_free,check_S___push,check_T___take,check_S___len");
}

#[test]
fn empty_generator_assembles_nothing_but_glue() {
    let generator = HarnessGenerator::new(Vec::new());
    assert!(generator.checked_names().is_empty());
    assert!(generator.arg_structs().is_empty());
    assert_eq!(generator.generate_harness(&Outline), "dispatch ");
}

#[test]
fn contains_path_compares_whole_paths() {
    let paths = vec![Path::from_str("a::b"), Path::from_str("c")];
    assert!(contains_path(&paths, &Path::from_str("c")));
    assert!(!contains_path(&paths, &Path::from_str("a")));
    assert!(!contains_path(&Vec::new(), &Path::from_str("a")));
}
