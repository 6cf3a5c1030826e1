use ovaflus_backend::expression::{
    indexed_assignment, join_with, name_placeholder, set_expression, value_placeholder,
};

fn strings(parts: &[&str]) -> Vec<String> {
    parts.iter().map(|p| p.to_string()).collect()
}

#[test]
fn placeholders_are_numbered() {
    assert_eq!(name_placeholder(0), "#f0");
    assert_eq!(name_placeholder(12), "#f12");
    assert_eq!(value_placeholder(0), ":v0");
    assert_eq!(value_placeholder(305), ":v305");
    assert_eq!(indexed_assignment(3), "#f3 = :v3");
}

#[test]
fn join_with_puts_the_separator_between_neighbours() {
    assert_eq!(join_with(&strings(&[]), ", "), "");
    assert_eq!(join_with(&strings(&["a"]), ", "), "a");
    assert_eq!(join_with(&strings(&["a", "b", "c"]), ", "), "a, b, c");
    assert_eq!(join_with(&strings(&["", ""]), "-"), "-");
    assert_eq!(join_with(&strings(&["a", "b"]), ""), "ab");
}

#[test]
fn set_expression_needs_an_assignment() {
    assert_eq!(set_expression(&strings(&[])), None);
    assert_eq!(
        set_expression(&strings(&["#n = :name"])),
        Some("SET #n = :name".to_string())
    );
    assert_eq!(
        set_expression(&vec![indexed_assignment(0), indexed_assignment(1)]),
        Some("SET #f0 = :v0, #f1 = :v1".to_string())
    );
}
