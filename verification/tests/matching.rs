use veri_easy::matching::{find_match, has_pair_named, match_functions, match_sources, retain_unmatched};
use veri_easy::{
    Function, FunctionMetadata, GenericType, Param, Path, PreciseType, Receiver, Signature, Type,
    TypedParam,
};

fn precise(text: &str) -> Type {
    Type::Precise(PreciseType(Path::from_str(text)))
}

fn generic(text: &str, generics: Vec<Type>) -> Type {
    Type::Generic(GenericType { path: Path::from_str(text), generics })
}

fn typed(name: &str, ty: Type) -> Param {
    Param::Typed(TypedParam { name: Some(name.to_string()), ty, decl: format!("{} : T", name) })
}

fn receiver() -> Param {
    Param::Receiver(Receiver { reference: true, mutable: false })
}

fn sig(ident: &str, inputs: Vec<Param>, output: Option<Type>) -> Signature {
    Signature::new(ident.to_string(), inputs, output)
}

fn record(name: &str, signature: Signature, body: &str) -> Function {
    Function::new(FunctionMetadata::new(Path::from_str(name), signature, None, None), body.to_string())
}

fn names_of(records: &Vec<Function>) -> Vec<String> {
    records.iter().map(|f| f.metadata.name.to_string()).collect()
}

#[test]
fn signatures_match_on_ident_arity_and_types() {
    let a = sig("f", vec![typed("x", precise("u8"))], Some(precise("u8")));
    assert!(a.matches(&sig("f", vec![typed("y", precise("u8"))], Some(precise("u8")))));
    assert!(!a.matches(&sig("g", vec![typed("x", precise("u8"))], Some(precise("u8")))));
    assert!(!a.matches(&sig("f", vec![], Some(precise("u8")))));
    assert!(!a.matches(&sig("f", vec![typed("x", precise("u16"))], Some(precise("u8")))));
    assert!(!a.matches(&sig("f", vec![typed("x", precise("u8"))], Some(precise("u16")))));
    assert!(!a.matches(&sig("f", vec![typed("x", precise("u8"))], None)));
}

#[test]
fn signature_equality_is_matching() {
    let a = sig("f", vec![receiver(), typed("x", generic("Vec", vec![precise("u8")]))], Some(precise("u8")));
    let b = sig("f", vec![receiver(), typed("y", precise("Vec"))], Some(generic("u8", vec![])));
    let c = sig("f", vec![typed("s", precise("S")), typed("y", precise("Vec"))], Some(precise("u8")));
    assert!(a == b);
    assert!(b == a);
    assert!(a != c);
    assert!(sig("f", vec![], None) == sig("f", vec![], None));
    assert!(sig("f", vec![], None) != sig("f", vec![], Some(precise("u8"))));
    assert!(sig("f", vec![], None) != sig("g", vec![], None));
}

#[test]
fn signatures_match_ignoring_generic_arguments() {
    let a = sig("f", vec![typed("x", generic("Vec", vec![precise("u8")]))], None);
    let b = sig("f", vec![typed("x", generic("Vec", vec![precise("u16")]))], None);
    let c = sig("f", vec![typed("x", precise("Vec"))], None);
    assert!(a.matches(&b));
    assert!(a.matches(&c));
}

#[test]
fn receivers_match_only_receivers() {
    let a = sig("m", vec![receiver(), typed("x", precise("u8"))], None);
    let other = Param::Receiver(Receiver { reference: false, mutable: true });
    assert!(a.matches(&sig("m", vec![other, typed("x", precise("u8"))], None)));
    assert!(!a.matches(&sig("m", vec![typed("s", precise("S")), typed("x", precise("u8"))], None)));
}

#[test]
fn records_are_named_after_scope_or_owner() {
    let free = Function::free(&Path::from_str("a::b"), sig("f", vec![], None), "{ 1 }".to_string());
    assert_eq!(free.metadata.name.0, vec!["a", "b", "f"]);
    assert_eq!(free.metadata.impl_type, None);
    assert_eq!(free.metadata.trait_, None);
    assert_eq!(free.body, "{ 1 }");
    let top = Function::free(&Path::empty(), sig("g", vec![], None), "{ }".to_string());
    assert_eq!(top.metadata.name.0, vec!["g"]);
    let owner = generic("m::Foo", vec![precise("T")]);
    let method = Function::method(
        owner,
        sig("push", vec![receiver()], None),
        Some(Path::from_str("Stack")),
        "{ 2 }".to_string(),
    );
    assert_eq!(method.metadata.name.0, vec!["m", "Foo<T>", "push"]);
    assert_eq!(method.metadata.impl_type, Some(generic("m::Foo", vec![precise("T")])));
    assert_eq!(method.metadata.trait_, Some(Path::from_str("Stack")));
    assert_eq!(method.metadata.signature.ident, "push");
}

#[test]
fn record_gives_its_scope() {
    assert_eq!(record("a::b::f", sig("f", vec![], None), "{ }").scope(), "a::b");
    assert_eq!(record("f", sig("f", vec![], None), "{ }").scope(), "");
    let copy = record("a::f", sig("f", vec![], None), "{ body }").clone();
    assert_eq!(copy.metadata.name.to_string(), "a::f");
    assert_eq!(copy.body, "{ body }");
}

#[test]
fn sig_eq_compares_signatures_only() {
    let a = record("m1::f", sig("f", vec![], None), "{ 1 }");
    let b = record("m2::f", sig("f", vec![], None), "{ 2 }");
    let c = record("m1::f", sig("f", vec![typed("x", precise("u8"))], None), "{ 1 }");
    assert!(a.sig_eq(&b));
    assert!(!a.sig_eq(&c));
}

#[test]
fn function_in_both_lists_is_matched_once() {
    let first = vec![
        record("f", sig("f", vec![typed("x", precise("u8"))], Some(precise("u8"))), "{ x }"),
        record("g", sig("g", vec![], None), "{ }"),
    ];
    let second = vec![
        record("g", sig("g", vec![], None), "{ () }"),
        record("f", sig("f", vec![typed("x", precise("u8"))], Some(precise("u8"))), "{ x + 0 }"),
    ];
    let matched = match_functions(&first, &second);
    let names: Vec<String> = matched.iter().map(|p| p.metadata.name.to_string()).collect();
    assert_eq!(names, vec!["f", "g"]);
    assert_eq!(matched[0].body1, "{ x }");
    assert_eq!(matched[0].body2, "{ x + 0 }");
    assert_eq!(matched[1].body1, "{ }");
    assert_eq!(matched[1].body2, "{ () }");
}

#[test]
fn function_in_one_list_is_never_matched() {
    let first = vec![
        record("only_first", sig("only_first", vec![], None), "{ }"),
        record("both", sig("both", vec![], None), "{ }"),
    ];
    let second = vec![
        record("both", sig("both", vec![], None), "{ }"),
        record("only_second", sig("only_second", vec![], None), "{ }"),
    ];
    let out = match_sources(first, second);
    let names: Vec<String> = out.matched.iter().map(|p| p.metadata.name.to_string()).collect();
    assert_eq!(names, vec!["both"]);
    assert_eq!(names_of(&out.unique1), vec!["only_first"]);
    assert_eq!(names_of(&out.unique2), vec!["only_second"]);
}

#[test]
fn same_name_with_other_signature_is_not_matched() {
    let first = vec![record("f", sig("f", vec![typed("x", precise("u8"))], None), "{ }")];
    let second = vec![record("f", sig("f", vec![typed("x", precise("u16"))], None), "{ }")];
    let out = match_sources(first, second);
    assert!(out.matched.is_empty());
    assert_eq!(names_of(&out.unique1), vec!["f"]);
    assert_eq!(names_of(&out.unique2), vec!["f"]);
}

#[test]
fn first_partner_wins() {
    let first = vec![record("a::f", sig("f", vec![], None), "{ a }")];
    let second = vec![
        record("x::f", sig("f", vec![], None), "{ first }"),
        record("a::f", sig("f", vec![], None), "{ second }"),
    ];
    assert_eq!(find_match(&first[0].metadata.signature, &second), Some(0));
    let out = match_sources(first, second);
    assert_eq!(out.matched.len(), 1);
    assert_eq!(out.matched[0].metadata.name.to_string(), "a::f");
    assert_eq!(out.matched[0].body2, "{ first }");
    assert!(out.unique1.is_empty());
    assert_eq!(names_of(&out.unique2), vec!["x::f"]);
}

#[test]
fn find_match_reports_absence() {
    let second = vec![record("g", sig("g", vec![], None), "{ }")];
    assert_eq!(find_match(&sig("f", vec![], None), &second), None);
    assert_eq!(find_match(&sig("f", vec![], None), &Vec::new()), None);
}

#[test]
fn matching_empty_lists_gives_nothing() {
    let out = match_sources(Vec::new(), Vec::new());
    assert!(out.matched.is_empty());
    assert!(out.unique1.is_empty());
    assert!(out.unique2.is_empty());
}

#[test]
fn leftovers_keep_their_order() {
    let first = vec![
        record("a", sig("a", vec![], None), "{ }"),
        record("b", sig("b", vec![], None), "{ }"),
        record("c", sig("c", vec![], None), "{ }"),
        record("d", sig("d", vec![], None), "{ }"),
    ];
    let second = vec![record("b", sig("b", vec![], None), "{ }")];
    let matched = match_functions(&first, &second);
    assert!(has_pair_named(&matched, &Path::from_str("b")));
    assert!(!has_pair_named(&matched, &Path::from_str("a")));
    let kept = retain_unmatched(first, &matched);
    assert_eq!(names_of(&kept), vec!["a", "c", "d"]);
}

#[test]
fn argument_names_skip_receivers() {
    let anonymous = Param::Typed(TypedParam { name: None, ty: precise("u8"), decl: "_ : u8".to_string() });
    let s = sig("m", vec![receiver(), typed("x", precise("u8")), anonymous, typed("y", precise("u8"))], None);
    assert_eq!(s.argument_names(), vec!["x", "arg", "y"]);
    assert_eq!(s.declarations(), vec!["x : T", "_ : u8", "y : T"]);
    assert!(s.has_receiver());
    assert_eq!(s.receiver(), Receiver { reference: true, mutable: false });
}

#[test]
fn signature_without_receiver_has_default_shape() {
    let s = sig("f", vec![typed("x", precise("u8"))], None);
    assert!(!s.has_receiver());
    assert_eq!(s.receiver(), Receiver { reference: false, mutable: false });
    assert!(sig("f", vec![], None).argument_names().is_empty());
}

#[test]
fn signature_clone_matches_its_source() {
    let s = sig("m", vec![receiver(), typed("x", generic("Vec", vec![precise("u8")]))], Some(precise("u8")));
    let copy = s.clone();
    assert!(copy.matches(&s));
    assert_eq!(copy.ident, "m");
    assert_eq!(copy.argument_names(), vec!["x"]);
    assert_eq!(copy.output, Some(precise("u8")));
}
