use veri_easy::{GenericType, InstantiatedType, Path, PreciseType, Type};

fn path(text: &str) -> Path {
    Path::from_str(text)
}

fn precise(text: &str) -> Type {
    Type::Precise(PreciseType(path(text)))
}

fn generic(text: &str, generics: Vec<Type>) -> Type {
    Type::Generic(GenericType { path: path(text), generics })
}

#[test]
fn empty_path_has_no_segment() {
    assert!(Path::empty().0.is_empty());
    assert_eq!(Path::empty().to_string(), "");
    assert_eq!(Path::empty().to_ident(), "");
}

#[test]
fn path_renders_with_separators() {
    let p = Path(vec!["std".to_string(), "vec".to_string(), "Vec".to_string()]);
    assert_eq!(p.to_string(), "std::vec::Vec");
    assert_eq!(p.to_ident(), "std___vec___Vec");
}

#[test]
fn path_parses_segments() {
    assert_eq!(path("a::b::c").0, vec!["a", "b", "c"]);
    assert_eq!(path("foo").0, vec!["foo"]);
    assert_eq!(path("").0, vec![""]);
    assert_eq!(path("a::").0, vec!["a", ""]);
}

#[test]
fn path_join_appends_one_segment() {
    let p = Path::empty().join("a".to_string()).join("b".to_string());
    assert_eq!(p.0, vec!["a", "b"]);
    assert_eq!(path("m::T").join("f".to_string()).to_string(), "m::T::f");
}

#[test]
fn path_parse_undoes_render() {
    let p = Path(vec!["m".to_string(), "T".to_string(), "f".to_string()]);
    assert_eq!(Path::from_str(&p.to_string()), p);
}

#[test]
fn path_equality_compares_segments() {
    assert_eq!(path("a::b"), path("a::b"));
    assert_ne!(path("a::b"), path("a::c"));
    assert_ne!(path("a::b"), path("a"));
    assert_ne!(path("a"), path("a::b"));
    assert_eq!(Path::empty(), Path::empty());
}

#[test]
fn path_clone_is_equal() {
    let p = path("x::y");
    assert_eq!(p.clone(), p);
}

#[test]
fn precise_type_renders_its_path() {
    assert_eq!(precise("m::Foo").as_path(), path("m::Foo"));
    assert_eq!(PreciseType(path("Foo")).clone().0, path("Foo"));
}

#[test]
fn generic_type_expands_arguments_into_last_segment() {
    let t = generic("m::Foo", vec![precise("Bar")]);
    assert_eq!(t.as_path().0, vec!["m", "Foo<Bar>"]);
    let two = generic("Map", vec![precise("k::Key"), precise("Val")]);
    assert_eq!(two.as_path().0, vec!["Map<k::Key, Val>"]);
}

#[test]
fn generic_type_without_arguments_renders_its_base() {
    assert_eq!(generic("m::Foo", vec![]).as_path(), path("m::Foo"));
    assert_eq!(generic("m::Foo", vec![]).as_path().0.len(), 2);
}

#[test]
fn generic_type_without_base_renders_arguments_alone() {
    let t = Type::Generic(GenericType { path: Path::empty(), generics: vec![precise("a::B")] });
    assert_eq!(t.as_path().0, vec!["<a::B>"]);
    assert!(Type::Precise(PreciseType(Path::empty())).as_path().0.is_empty());
}

#[test]
fn nested_generic_type_renders_inside_out() {
    let inner = generic("Vec", vec![precise("u8")]);
    let outer = generic("a::Wrap", vec![inner, precise("b::C")]);
    assert_eq!(outer.as_path().to_string(), "a::Wrap<Vec<u8>, b::C>");
}

#[test]
fn generic_type_as_path_matches_type_as_path() {
    let g = GenericType { path: path("Foo"), generics: vec![precise("T")] };
    assert_eq!(g.as_path().0, vec!["Foo<T>"]);
}

#[test]
fn base_path_drops_arguments() {
    assert_eq!(generic("m::Foo", vec![precise("Bar")]).base_path(), &path("m::Foo"));
    assert_eq!(precise("m::Foo").base_path(), &path("m::Foo"));
}

#[test]
fn eq_ignore_generics_compares_base_paths() {
    let a = generic("Foo", vec![precise("T")]);
    let b = generic("Foo", vec![precise("Bar"), precise("Baz")]);
    let c = generic("Other", vec![precise("T")]);
    assert!(a.eq_ignore_generics(&b));
    assert!(!a.eq_ignore_generics(&c));
    assert!(precise("Foo").eq_ignore_generics(&precise("Foo")));
    assert!(!precise("Foo").eq_ignore_generics(&precise("Bar")));
}

#[test]
fn eq_ignore_generics_separates_generic_from_precise() {
    assert!(!generic("Foo", vec![]).eq_ignore_generics(&precise("Foo")));
    assert!(!precise("Foo").eq_ignore_generics(&generic("Foo", vec![precise("T")])));
}

#[test]
fn type_equality_looks_at_arguments() {
    assert_eq!(generic("Foo", vec![precise("T")]), generic("Foo", vec![precise("T")]));
    assert_ne!(generic("Foo", vec![precise("T")]), generic("Foo", vec![precise("U")]));
    assert_ne!(generic("Foo", vec![precise("T")]), generic("Foo", vec![]));
    assert_ne!(generic("Foo", vec![]), precise("Foo"));
    assert_eq!(precise("Foo"), precise("Foo"));
}

#[test]
fn type_clone_is_equal() {
    let t = generic("a::Wrap", vec![generic("Vec", vec![precise("u8")])]);
    assert_eq!(t.clone(), t);
    let g = GenericType { path: path("Foo"), generics: vec![precise("T")] };
    assert_eq!(Type::Generic(g.clone()), Type::Generic(g));
}

#[test]
fn unsupported_type_is_a_precise_marker() {
    assert_eq!(Type::unsupported(), precise("unsupported"));
}

#[test]
fn instantiated_type_clone_keeps_both_parts() {
    let inst = InstantiatedType { alias: path("FB"), concrete: generic("Foo", vec![precise("Bar")]) };
    let copy = inst.clone();
    assert_eq!(copy.alias, inst.alias);
    assert_eq!(copy.concrete, inst.concrete);
}
