use prompt_forge::lookup::contains_text;
use prompt_forge::lookup::position_of;

fn list(items: &[&str]) -> Vec<String> {
    items.iter().map(|s| s.to_string()).collect()
}

#[test]
fn position_of_gives_the_first_equal_text() {
    let names = list(&["b", "a", "B", "a", ""]);
    assert_eq!(position_of(&names, "a"), Some(1));
    assert_eq!(position_of(&names, "b"), Some(0));
    assert_eq!(position_of(&names, "B"), Some(2));
    assert_eq!(position_of(&names, ""), Some(4));
    assert_eq!(position_of(&names, "A"), None);
    assert_eq!(position_of(&names, "ab"), None);
    assert_eq!(position_of(&list(&[]), "a"), None);
}

#[test]
fn contains_text_compares_whole_texts() {
    let names = list(&["i1", "i2"]);
    assert!(contains_text(&names, "i1"));
    assert!(contains_text(&names, "i2"));
    assert!(!contains_text(&names, "i"));
    assert!(!contains_text(&names, "I1"));
    assert!(!contains_text(&list(&[]), ""));
}
