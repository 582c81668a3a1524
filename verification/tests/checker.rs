use std::cell::Cell;
use veri_easy::components::Identical;
use veri_easy::{
    CheckResult, Checker, CommonFunction, Component, Function, FunctionMetadata, GenericType,
    InfrastructureError, InstantiatedType, Param, Path, PreciseType, Precondition, Receiver,
    Signature, Source, Type,
};

fn free_function(name: &str, body: &str) -> Function {
    Function::new(
        FunctionMetadata::new(
            Path::from_str(name),
            Signature::new(name.to_string(), Vec::new(), None),
            None,
            None,
        ),
        body.to_string(),
    )
}

fn source(path: &str, funcs: Vec<Function>) -> Source {
    Source::new(path.to_string(), String::new(), funcs, Vec::new(), Vec::new())
}

struct Scripted {
    name: &'static str,
    formal: bool,
    error: Option<&'static str>,
    ok: Vec<&'static str>,
    fail: Vec<&'static str>,
    ran: Cell<bool>,
}

impl Scripted {
    fn new(name: &'static str, formal: bool, ok: Vec<&'static str>, fail: Vec<&'static str>) -> Self {
        Scripted { name, formal, error: None, ok, fail, ran: Cell::new(false) }
    }
}

impl Component for Scripted {
    fn name(&self) -> &str {
        self.name
    }

    fn is_formal(&self) -> bool {
        self.formal
    }

    fn run(&self, _checker: &Checker) -> CheckResult {
        self.ran.set(true);
        match self.error {
            Some(detail) => CheckResult::failed(InfrastructureError { detail: detail.to_string() }),
            None => CheckResult {
                status: Ok(()),
                ok: self.ok.iter().map(|n| Path::from_str(n)).collect(),
                fail: self.fail.iter().map(|n| Path::from_str(n)).collect(),
            },
        }
    }
}

fn names(pairs: &Vec<CommonFunction>) -> Vec<String> {
    pairs.iter().map(|p| p.metadata.name.to_string()).collect()
}

#[test]
fn early_stop_scenario() {
    let funcs = |suffix: &str| {
        vec![
            free_function("f1", &format!("{{ 1 {} }}", suffix)),
            free_function("f2", &format!("{{ 2 {} }}", suffix)),
            free_function("f3", &format!("{{ 3 {} }}", suffix)),
        ]
    };
    let mut checker = Checker::new(source("a.rs", funcs("a")), source("b.rs", funcs("b")), Vec::new());
    assert_eq!(names(&checker.unchecked_funcs), vec!["f1", "f2", "f3"]);
    let components: Vec<Box<dyn Component>> = vec![
        Box::new(Scripted::new("A", true, vec!["f1"], vec![])),
        Box::new(Scripted::new("B", false, vec![], vec!["f2"])),
        Box::new(Scripted::new("C", false, vec!["f3"], vec![])),
    ];
    let report = checker.run_all(&components);
    assert_eq!(names(&checker.verified_funcs), vec!["f1"]);
    assert!(checker.tested_funcs.is_empty());
    assert_eq!(names(&checker.unchecked_funcs), vec!["f2", "f3"]);
    assert_eq!(report.runs.len(), 2);
    assert_eq!(report.runs[0].name, "A");
    assert!(report.runs[0].formal);
    assert_eq!(report.runs[1].name, "B");
    assert!(!report.runs[1].formal);
    assert_eq!(report.inconsistent.len(), 1);
    assert_eq!(report.inconsistent[0].to_string(), "f2");
    assert_eq!(report.stopped_by, Some("B".to_string()));
    assert_eq!(report.verified, vec![Path::from_str("f1")]);
    assert!(report.tested.is_empty());
    assert_eq!(report.unchecked, vec![Path::from_str("f2"), Path::from_str("f3")]);
    assert!(report.found_inconsistency());
    assert!(report.incomplete_coverage());
    assert!(!report.success());
}

fn three_functions() -> Checker {
    let funcs = |suffix: &str| {
        vec![
            free_function("f1", &format!("{{ 1 {} }}", suffix)),
            free_function("f2", &format!("{{ 2 {} }}", suffix)),
            free_function("f3", &format!("{{ 3 {} }}", suffix)),
        ]
    };
    Checker::new(source("a.rs", funcs("a")), source("b.rs", funcs("b")), Vec::new())
}

fn sorted(mut items: Vec<String>) -> Vec<String> {
    items.sort();
    items
}

fn all_names(checker: &Checker) -> Vec<String> {
    let mut all = names(&checker.unchecked_funcs);
    all.extend(names(&checker.verified_funcs));
    all.extend(names(&checker.tested_funcs));
    sorted(all)
}

#[test]
fn early_stop_with_testing_component_first() {
    let mut checker = three_functions();
    let components: Vec<Box<dyn Component>> = vec![
        Box::new(Scripted::new("A", false, vec!["f1"], vec![])),
        Box::new(Scripted::new("B", true, vec![], vec!["f2"])),
        Box::new(Scripted::new("C", true, vec!["f3"], vec![])),
    ];
    let report = checker.run_all(&components);
    assert_eq!(names(&checker.tested_funcs), vec!["f1"]);
    assert!(checker.verified_funcs.is_empty());
    assert_eq!(names(&checker.unchecked_funcs), vec!["f2", "f3"]);
    assert_eq!(report.runs.len(), 2);
    assert!(!report.success());
}

#[test]
fn later_component_does_not_run_after_inconsistency() {
    let mut checker = three_functions();
    let a = Scripted::new("A", true, vec!["f1"], vec![]);
    let b = Scripted::new("B", false, vec![], vec!["f2"]);
    let c = Scripted::new("C", false, vec!["f3"], vec![]);
    let result_a = a.run(&checker);
    checker.apply_result(a.is_formal(), &result_a);
    let result_b = b.run(&checker);
    assert!(result_b.is_fatal());
    assert!(!result_a.is_fatal());
    assert!(a.ran.get() && b.ran.get() && !c.ran.get());
    let components: Vec<Box<dyn Component>> = vec![Box::new(b), Box::new(c)];
    let report = checker.run_all(&components);
    assert_eq!(report.runs.len(), 1);
    assert_eq!(names(&checker.unchecked_funcs), vec!["f2", "f3"]);
}

#[test]
fn infrastructure_skip_scenario() {
    let mut checker = three_functions();
    let mut broken = Scripted::new("A", true, vec!["f1"], vec!["f2"]);
    broken.error = Some("tool not found");
    let components: Vec<Box<dyn Component>> = vec![
        Box::new(broken),
        Box::new(Scripted::new("B", false, vec!["f2"], vec![])),
    ];
    let report = checker.run_all(&components);
    assert_eq!(report.runs.len(), 2);
    assert_eq!(report.runs[0].name, "A");
    assert!(report.runs[0].result.status.is_err());
    assert!(report.runs[0].result.ok.is_empty());
    assert_eq!(report.runs[1].name, "B");
    assert!(!report.runs[1].formal);
    assert!(checker.verified_funcs.is_empty());
    assert_eq!(names(&checker.tested_funcs), vec!["f2"]);
    assert_eq!(names(&checker.unchecked_funcs), vec!["f1", "f3"]);
    assert!(report.inconsistent.is_empty());
    assert!(!report.success());
}

#[test]
fn infrastructure_error_changes_no_partition() {
    let mut checker = three_functions();
    let result = CheckResult {
        status: Err(InfrastructureError { detail: "build failed".to_string() }),
        ok: vec![Path::from_str("f1")],
        fail: vec![Path::from_str("f2")],
    };
    assert!(!result.is_fatal());
    checker.apply_result(true, &result);
    assert_eq!(names(&checker.unchecked_funcs), vec!["f1", "f2", "f3"]);
    assert!(checker.verified_funcs.is_empty());
    assert!(checker.tested_funcs.is_empty());
}

#[test]
fn failed_result_is_empty() {
    let result = CheckResult::failed(InfrastructureError { detail: "x".to_string() });
    assert_eq!(result.status.as_ref().unwrap_err().detail, "x");
    assert!(result.ok.is_empty());
    assert!(result.fail.is_empty());
    let copy = result.clone();
    assert_eq!(copy.status.unwrap_err().detail, "x");
}

#[test]
fn components_of_one_type_need_no_box() {
    let mut checker = three_functions();
    let components = vec![
        Scripted::new("A", true, vec!["f1", "f2"], vec![]),
        Scripted::new("B", false, vec!["f3"], vec!["f3"]),
        Scripted::new("C", false, vec![], vec![]),
    ];
    let report = checker.run_all(&components);
    assert!(components[0].ran.get() && components[1].ran.get());
    assert!(!components[2].ran.get());
    assert_eq!(names(&checker.verified_funcs), vec!["f1", "f2"]);
    assert_eq!(names(&checker.tested_funcs), vec!["f3"]);
    assert_eq!(report.inconsistent[0].to_string(), "f3");
    assert!(report.unchecked.is_empty());
    assert!(!report.success());
}

#[test]
fn component_has_no_note_unless_it_gives_one() {
    assert_eq!(Scripted::new("A", true, vec![], vec![]).note(), None);
    let boxed: Box<dyn Component> = Box::new(Identical);
    assert_eq!(boxed.name(), "Identical");
    assert!(boxed.is_formal());
    assert_eq!(boxed.note(), Some("Compare function bodies for identity"));
}

#[test]
fn complete_run_succeeds() {
    let mut checker = three_functions();
    let components: Vec<Box<dyn Component>> = vec![
        Box::new(Scripted::new("A", true, vec!["f3", "f1"], vec![])),
        Box::new(Scripted::new("B", false, vec!["f2"], vec![])),
    ];
    let report = checker.run_all(&components);
    assert_eq!(names(&checker.verified_funcs), vec!["f3", "f1"]);
    assert_eq!(names(&checker.tested_funcs), vec!["f2"]);
    assert!(checker.unchecked_funcs.is_empty());
    assert!(report.unchecked.is_empty());
    assert_eq!(report.stopped_by, None);
    assert_eq!(report.verified.len(), 2);
    assert_eq!(report.tested, vec![Path::from_str("f2")]);
    assert!(!report.found_inconsistency());
    assert!(!report.incomplete_coverage());
    assert!(report.success());
}

#[test]
fn run_without_components_reports_incomplete_coverage() {
    let mut checker = three_functions();
    let none: Vec<Box<dyn Component>> = Vec::new();
    let report = checker.run_all(&none);
    assert!(report.runs.is_empty());
    assert_eq!(report.unchecked.len(), 3);
    assert!(!report.success());
}

#[test]
fn partition_is_kept_at_every_point() {
    let mut checker = three_functions();
    let initial = all_names(&checker);
    let steps = vec![
        (true, vec!["f2", "nobody"]),
        (false, vec!["f2", "f1"]),
        (true, vec!["f1", "f3", "f3"]),
        (false, vec!["f3"]),
    ];
    for (formal, ok) in steps {
        let result = CheckResult {
            status: Ok(()),
            ok: ok.iter().map(|n| Path::from_str(n)).collect(),
            fail: Vec::new(),
        };
        checker.apply_result(formal, &result);
        assert_eq!(all_names(&checker), initial);
        for name in names(&checker.unchecked_funcs) {
            assert!(!names(&checker.verified_funcs).contains(&name));
            assert!(!names(&checker.tested_funcs).contains(&name));
        }
        for name in names(&checker.verified_funcs) {
            assert!(!names(&checker.tested_funcs).contains(&name));
        }
    }
    assert_eq!(names(&checker.verified_funcs), vec!["f2", "f3"]);
    assert_eq!(names(&checker.tested_funcs), vec!["f1"]);
    assert!(checker.unchecked_funcs.is_empty());
}

#[test]
fn passed_name_outside_unchecked_is_ignored() {
    let mut checker = three_functions();
    checker.promote(&Path::from_str("f1"), true);
    checker.promote(&Path::from_str("f1"), false);
    checker.promote(&Path::from_str("unknown"), true);
    assert_eq!(names(&checker.verified_funcs), vec!["f1"]);
    assert!(checker.tested_funcs.is_empty());
    assert_eq!(names(&checker.unchecked_funcs), vec!["f2", "f3"]);
}

#[test]
fn pairs_of_one_name_move_together() {
    let twice = |suffix: &str| {
        vec![free_function("f", &format!("{{ 1 {} }}", suffix)), free_function("f", &format!("{{ 2 {} }}", suffix))]
    };
    let mut checker = Checker::new(source("a.rs", twice("a")), source("b.rs", twice("b")), Vec::new());
    assert_eq!(checker.unchecked_funcs.len(), 2);
    checker.promote(&Path::from_str("f"), false);
    assert!(checker.unchecked_funcs.is_empty());
    assert_eq!(checker.tested_funcs.len(), 2);
    assert_eq!(checker.tested_funcs[0].body1, "{ 1 a }");
    assert_eq!(checker.tested_funcs[1].body1, "{ 2 a }");
}

#[test]
fn identical_component_passes_equal_bodies() {
    let first = vec![free_function("same", "{ 1 }"), free_function("differs", "{ 1 }"), free_function("also_same", "{ }")];
    let second = vec![free_function("same", "{ 1 }"), free_function("differs", "{ 2 }"), free_function("also_same", "{ }")];
    let mut checker = Checker::new(source("a.rs", first), source("b.rs", second), Vec::new());
    let result = Identical.run(&checker);
    assert!(result.status.is_ok());
    assert!(result.fail.is_empty());
    let passed: Vec<String> = result.ok.iter().map(|p| p.to_string()).collect();
    assert_eq!(passed, vec!["same", "also_same"]);
    assert_eq!(Identical.name(), "Identical");
    assert!(Identical.is_formal());
    assert_eq!(Identical.note(), Some("Compare function bodies for identity"));
    let components: Vec<Box<dyn Component>> = vec![Box::new(Identical)];
    let report = checker.run_all(&components);
    assert_eq!(names(&checker.verified_funcs), vec!["same", "also_same"]);
    assert_eq!(names(&checker.unchecked_funcs), vec!["differs"]);
    assert_eq!(report.unchecked.len(), 1);
    assert!(!report.success());
}

fn owned(name: &str, ident: &str, owner: Type, inputs: Vec<Param>, body: &str) -> Function {
    Function::new(
        FunctionMetadata::new(
            Path::from_str(name),
            Signature::new(ident.to_string(), inputs, None),
            Some(owner),
            None,
        ),
        body.to_string(),
    )
}

#[test]
fn new_checker_sets_support_functions_apart() {
    let s = || Type::Precise(PreciseType(Path::from_str("S")));
    let this = || Param::Receiver(Receiver { reference: true, mutable: false });
    let funcs = |tag: &str| {
        vec![
            owned("S::verieasy_new", "verieasy_new", s(), vec![], tag),
            free_function("free", tag),
            owned("S::verieasy_get", "verieasy_get", s(), vec![this()], tag),
            owned("S::m", "m", s(), vec![this()], tag),
            free_function(&format!("only_{}", tag), tag),
        ]
    };
    let checker = Checker::new(source("a.rs", funcs("a")), source("b.rs", funcs("b")), Vec::new());
    assert_eq!(names(&checker.unchecked_funcs), vec!["free", "S::m"]);
    assert_eq!(names(&checker.constructors), vec!["S::verieasy_new"]);
    assert_eq!(names(&checker.getters), vec!["S::verieasy_get"]);
    assert!(checker.verified_funcs.is_empty());
    assert!(checker.tested_funcs.is_empty());
    assert_eq!(checker.src1.unique_funcs.len(), 1);
    assert_eq!(checker.src1.unique_funcs[0].metadata.name.to_string(), "only_a");
    assert_eq!(checker.src2.unique_funcs[0].metadata.name.to_string(), "only_b");
    assert_eq!(checker.src1.path, "a.rs");
    assert_eq!(checker.src2.path, "b.rs");
    let input = checker.harness_input();
    assert_eq!(names(&input), vec!["free", "S::m", "S::verieasy_new", "S::verieasy_get"]);
}

#[test]
fn new_checker_aligns_pairs_and_preconditions() {
    let bar = Type::Precise(PreciseType(Path::from_str("Bar")));
    let foo = || Type::Generic(GenericType { path: Path::from_str("Foo"), generics: vec![Type::Precise(PreciseType(Path::from_str("T")))] });
    let concrete = Type::Generic(GenericType { path: Path::from_str("Foo"), generics: vec![bar] });
    let this = || Param::Receiver(Receiver { reference: true, mutable: false });
    let funcs = |tag: &str| vec![owned("Foo<T>::foo", "foo", foo(), vec![this()], tag)];
    let first = Source::new("a.rs".to_string(), "text".to_string(), funcs("a"), vec![Path::from_str("Tr")], Vec::new());
    let second = Source::new(
        "b.rs".to_string(),
        String::new(),
        funcs("b"),
        Vec::new(),
        vec![InstantiatedType { alias: Path::from_str("FB"), concrete }],
    );
    let pre = Precondition::new(Path::from_str("Foo<T>::foo"), Some(foo()), true);
    let checker = Checker::new(first, second, vec![pre]);
    assert_eq!(names(&checker.unchecked_funcs), vec!["FB::foo"]);
    assert_eq!(checker.unchecked_funcs[0].metadata.impl_type, Some(Type::Precise(PreciseType(Path::from_str("FB")))));
    assert_eq!(checker.preconditions[0].name.to_string(), "FB::foo");
    assert_eq!(checker.src1.content, "text");
    assert_eq!(checker.src1.symbols, vec![Path::from_str("Tr")]);
    assert_eq!(checker.src2.inst_types.len(), 1);
}

#[test]
fn source_content_can_be_extended() {
    let mut s = source("a.rs", Vec::new());
    s.append_content("fn check() {}");
    s.append_content("\n");
    assert_eq!(s.content, "fn check() {}\n");
    assert_eq!(s.path, "a.rs");
}
