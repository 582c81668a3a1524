use veri_easy::collect::path::find_import;
use veri_easy::collect::{resolve_path, TraitCollector};
use veri_easy::Path;

fn strings(items: &[&str]) -> Vec<String> {
    items.iter().map(|s| s.to_string()).collect()
}

fn imports(items: &[(&str, &str)]) -> Vec<(String, Path)> {
    items.iter().map(|(name, path)| (name.to_string(), Path::from_str(path))).collect()
}

#[test]
fn imported_first_segment_gives_way_to_its_import() {
    let table = imports(&[("Foo", "a::b::Foo"), ("Bar", "c::Bar")]);
    let out = resolve_path(&strings(&["m"]), &table, &Path::from_str("Foo::new"));
    assert_eq!(out.0, vec!["a", "b", "Foo", "new"]);
    let alone = resolve_path(&strings(&["m"]), &table, &Path::from_str("Bar"));
    assert_eq!(alone.0, vec!["c", "Bar"]);
}

#[test]
fn other_first_segment_belongs_to_the_current_module() {
    let table = imports(&[("Foo", "a::Foo")]);
    let out = resolve_path(&strings(&["m", "n"]), &table, &Path::from_str("Local::f"));
    assert_eq!(out.0, vec!["m", "n", "Local", "f"]);
    let top = resolve_path(&Vec::new(), &Vec::new(), &Path::from_str("Local"));
    assert_eq!(top.0, vec!["Local"]);
}

#[test]
fn path_without_segments_stays() {
    let out = resolve_path(&strings(&["m"]), &imports(&[("Foo", "a::Foo")]), &Path::empty());
    assert!(out.0.is_empty());
}

#[test]
fn later_import_shadows_earlier_one() {
    let table = imports(&[("Foo", "a::Foo"), ("Bar", "b::Bar"), ("Foo", "c::Foo")]);
    assert_eq!(find_import(&table, &"Foo".to_string()), Some(2));
    assert_eq!(find_import(&table, &"Bar".to_string()), Some(1));
    assert_eq!(find_import(&table, &"Baz".to_string()), None);
    assert_eq!(find_import(&Vec::new(), &"Foo".to_string()), None);
    let out = resolve_path(&Vec::new(), &table, &Path::from_str("Foo::x"));
    assert_eq!(out.0, vec!["c", "Foo", "x"]);
}

#[test]
fn new_collector_is_empty() {
    let collector = TraitCollector::new();
    assert!(collector.traits.is_empty());
    assert!(collector.modules.is_empty());
    assert!(collector.collect().is_empty());
}

#[test]
fn traits_are_qualified_by_enclosing_modules() {
    let mut collector = TraitCollector::new();
    collector.visit_trait("Top");
    collector.enter_module("a".to_string());
    collector.visit_trait("Inner");
    collector.enter_module("b".to_string());
    assert_eq!(collector.concat_module("x").to_string(), "a::b::x");
    collector.visit_trait("Deep");
    collector.exit_module();
    collector.visit_trait("Again");
    collector.exit_module();
    collector.exit_module();
    collector.visit_trait("Last");
    let found: Vec<String> = collector.collect().iter().map(|p| p.to_string()).collect();
    assert_eq!(found, vec!["Top", "a::Inner", "a::b::Deep", "a::Again", "Last"]);
}
