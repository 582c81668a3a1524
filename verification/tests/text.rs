use veri_easy::text::{chars_of, contains, find, join, replace, split, starts_with};

fn strings(items: &[&str]) -> Vec<String> {
    items.iter().map(|s| s.to_string()).collect()
}

#[test]
fn join_places_separator_between_neighbours() {
    assert_eq!(join(&strings(&["a", "b", "c"]), "::"), "a::b::c");
    assert_eq!(join(&strings(&["only"]), "::"), "only");
    assert_eq!(join(&strings(&[]), "::"), "");
    assert_eq!(join(&strings(&["", ""]), "-"), "-");
}

#[test]
fn chars_of_keeps_every_character() {
    assert_eq!(chars_of("héllo"), vec!['h', 'é', 'l', 'l', 'o']);
    assert!(chars_of("").is_empty());
}

#[test]
fn split_cuts_at_each_separator() {
    assert_eq!(split("a::b::c", "::"), strings(&["a", "b", "c"]));
    assert_eq!(split("abc", "::"), strings(&["abc"]));
    assert_eq!(split("", "::"), strings(&[""]));
    assert_eq!(split("::a", "::"), strings(&["", "a"]));
    assert_eq!(split("a::", "::"), strings(&["a", ""]));
    assert_eq!(split("a::::b", "::"), strings(&["a", "", "b"]));
}

#[test]
fn split_takes_matches_from_the_left() {
    assert_eq!(split("a:::b", "::"), strings(&["a", ":b"]));
    assert_eq!(split("a____b", "___"), strings(&["a", "_b"]));
}

#[test]
fn split_with_empty_separator_keeps_the_text() {
    assert_eq!(split("abc", ""), strings(&["abc"]));
}

#[test]
fn split_agrees_with_std() {
    for text in ["", "a", "::", "a::b", "x::::y::", ":::::", "é::ü"] {
        let expected: Vec<String> = text.split("::").map(|s| s.to_string()).collect();
        assert_eq!(split(text, "::"), expected);
    }
}

#[test]
fn join_undoes_split() {
    for text in ["", "a", "::", "a::b", "x::::y::", ":::::"] {
        assert_eq!(join(&split(text, "::"), "::"), text);
    }
}

#[test]
fn replace_rewrites_each_match() {
    assert_eq!(replace("a___b___c", "___", "::"), "a::b::c");
    assert_eq!(replace("abc", "___", "::"), "abc");
    assert_eq!(replace("a____b", "___", "::"), "a::_b");
    assert_eq!(replace("______", "___", "::"), "::::");
    assert_eq!(replace("", "___", "::"), "");
    assert_eq!(replace("abc", "", "x"), "abc");
}

#[test]
fn replace_agrees_with_std() {
    for text in ["", "_", "___", "a___", "___a", "a_____b", "_________"] {
        assert_eq!(replace(text, "___", "::"), text.replace("___", "::"));
    }
}

#[test]
fn contains_finds_a_substring() {
    assert!(contains("VERIFICATION:- SUCCESSFUL", "SUCCESSFUL"));
    assert!(contains("abc", ""));
    assert!(contains("", ""));
    assert!(!contains("abc", "abd"));
    assert!(!contains("ab", "abc"));
    assert!(contains("xxabxx", "ab"));
}

#[test]
fn starts_with_looks_at_the_front() {
    assert!(starts_with("define i32 @f()", "define"));
    assert!(!starts_with(" define", "define"));
    assert!(!starts_with("def", "define"));
    assert!(starts_with("abc", ""));
}

#[test]
fn find_gives_the_first_position() {
    assert_eq!(find("a@b@c", "@"), Some(1));
    assert_eq!(find("abc", "@"), None);
    assert_eq!(find("abc", ""), Some(0));
    assert_eq!(find("éé@", "@"), Some(2));
    assert_eq!(find("", "@"), None);
}
