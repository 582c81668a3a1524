use veri_easy::align::{align_pair, align_pairs, align_precondition, align_preconditions, choose_alias, find_alias};
use veri_easy::{
    CommonFunction, FunctionMetadata, GenericType, InstantiatedType, Path, PreciseType,
    Precondition, Signature, Type,
};

fn path(text: &str) -> Path {
    Path::from_str(text)
}

fn precise(text: &str) -> Type {
    Type::Precise(PreciseType(path(text)))
}

fn generic(text: &str, argument: &str) -> Type {
    Type::Generic(GenericType { path: path(text), generics: vec![precise(argument)] })
}

fn alias(name: &str, concrete: Type) -> InstantiatedType {
    InstantiatedType { alias: path(name), concrete }
}

fn pair(name: &str, ident: &str, owner: Option<Type>) -> CommonFunction {
    CommonFunction::new(
        FunctionMetadata::new(
            path(name),
            Signature::new(ident.to_string(), Vec::new(), None),
            owner,
            Some(path("Tr")),
        ),
        "{ 1 }".to_string(),
        "{ 2 }".to_string(),
    )
}

#[test]
fn generic_owner_is_rewritten_to_alias() {
    let p = pair("Foo<T>::foo", "foo", Some(generic("Foo", "T")));
    let out = align_pair(p, &vec![alias("FB", generic("Foo", "Bar"))], &Vec::new());
    assert_eq!(out.metadata.impl_type, Some(precise("FB")));
    assert_eq!(out.metadata.name.0, vec!["FB", "foo"]);
    assert_eq!(out.metadata.signature.ident, "foo");
    assert_eq!(out.metadata.trait_, Some(path("Tr")));
    assert_eq!(out.body1, "{ 1 }");
    assert_eq!(out.body2, "{ 2 }");
}

#[test]
fn alias_of_second_version_is_used_too() {
    let p = pair("Foo<T>::foo", "foo", Some(generic("Foo", "T")));
    let out = align_pair(p, &vec![alias("X", generic("Other", "Bar"))], &vec![alias("m::FB", generic("Foo", "Bar"))]);
    assert_eq!(out.metadata.impl_type, Some(precise("m::FB")));
    assert_eq!(out.metadata.name.0, vec!["m", "FB", "foo"]);
}

#[test]
fn pair_without_alias_is_unchanged() {
    let p = pair("Foo<T>::foo", "foo", Some(generic("Foo", "T")));
    let out = align_pair(p, &vec![alias("X", generic("Other", "Bar"))], &Vec::new());
    assert_eq!(out.metadata.impl_type, Some(generic("Foo", "T")));
    assert_eq!(out.metadata.name, path("Foo<T>::foo"));
}

#[test]
fn first_alias_wins() {
    let p = pair("Foo<T>::foo", "foo", Some(generic("Foo", "T")));
    let first = vec![alias("A1", generic("Foo", "Bar")), alias("A2", generic("Foo", "Baz"))];
    let second = vec![alias("B1", generic("Foo", "Qux"))];
    assert_eq!(find_alias(&generic("Foo", "T"), &first), Some(0));
    assert_eq!(choose_alias(&Some(generic("Foo", "T")), &first, &second), Some(path("A1")));
    let out = align_pair(p, &first, &second);
    assert_eq!(out.metadata.name.0, vec!["A1", "foo"]);
}

#[test]
fn precise_owner_is_never_rewritten() {
    let p = pair("Foo::foo", "foo", Some(precise("Foo")));
    let out = align_pair(p, &vec![alias("A", precise("Foo"))], &Vec::new());
    assert_eq!(out.metadata.impl_type, Some(precise("Foo")));
    assert_eq!(out.metadata.name, path("Foo::foo"));
    assert_eq!(choose_alias(&Some(precise("Foo")), &vec![alias("A", precise("Foo"))], &Vec::new()), None);
}

#[test]
fn free_function_is_never_rewritten() {
    let out = align_pair(pair("foo", "foo", None), &vec![alias("A", generic("Foo", "Bar"))], &Vec::new());
    assert_eq!(out.metadata.impl_type, None);
    assert_eq!(out.metadata.name, path("foo"));
    assert_eq!(choose_alias(&None, &vec![alias("A", generic("Foo", "Bar"))], &Vec::new()), None);
}

#[test]
fn find_alias_reports_absence() {
    assert_eq!(find_alias(&generic("Foo", "T"), &Vec::new()), None);
    assert_eq!(find_alias(&generic("Foo", "T"), &vec![alias("A", precise("Foo"))]), None);
}

#[test]
fn pairs_are_aligned_in_place() {
    let pairs = vec![
        pair("free", "free", None),
        pair("Foo<T>::foo", "foo", Some(generic("Foo", "T"))),
        pair("Bar<T>::bar", "bar", Some(generic("Bar", "T"))),
    ];
    let out = align_pairs(pairs, &vec![alias("FB", generic("Foo", "Bar"))], &Vec::new());
    let names: Vec<String> = out.iter().map(|p| p.metadata.name.to_string()).collect();
    assert_eq!(names, vec!["free", "FB::foo", "Bar<T>::bar"]);
}

#[test]
fn precondition_is_rewritten_like_its_pair() {
    let pre = Precondition::new(path("Foo<T>::foo"), Some(generic("Foo", "T")), true);
    assert_eq!(pre.ident(), "foo");
    let out = align_precondition(pre, &vec![alias("FB", generic("Foo", "Bar"))], &Vec::new());
    assert_eq!(out.name.0, vec!["FB", "foo"]);
    assert_eq!(out.impl_type, Some(precise("FB")));
    assert!(out.is_method);
}

#[test]
fn precondition_without_alias_is_unchanged() {
    let pres = vec![
        Precondition::new(path("Foo<T>::foo"), Some(generic("Foo", "T")), false),
        Precondition::new(path("free"), None, false),
    ];
    let out = align_preconditions(pres, &Vec::new(), &vec![alias("X", generic("Other", "Bar"))]);
    assert_eq!(out.len(), 2);
    assert_eq!(out[0].name, path("Foo<T>::foo"));
    assert_eq!(out[0].impl_type, Some(generic("Foo", "T")));
    assert_eq!(out[1].name, path("free"));
    assert!(!out[1].is_method);
}

#[test]
fn precondition_ident_of_empty_name_is_empty() {
    assert_eq!(Precondition::new(Path::empty(), None, false).ident(), "");
    let copy = Precondition::new(path("a::b"), Some(precise("a")), true).clone();
    assert_eq!(copy.ident(), "b");
    assert_eq!(copy.impl_type, Some(precise("a")));
}
