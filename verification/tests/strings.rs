use oxidoc::text::{dashes, join_strings};

fn strings(items: &[&str]) -> Vec<String> {
    items.iter().map(|s| s.to_string()).collect()
}

#[test]
fn join_puts_separator_between_neighbours() {
    assert_eq!(join_strings(&strings(&["a", "b", "c"]), "::"), "a::b::c");
    assert_eq!(join_strings(&strings(&["a"]), "::"), "a");
    assert_eq!(join_strings(&Vec::new(), "::"), "");
    assert_eq!(join_strings(&strings(&["", ""]), "\n"), "\n");
    assert_eq!(join_strings(&strings(&["a", "b"]), ""), "ab");
}

#[test]
fn dashes_of_each_length() {
    assert_eq!(dashes(0), "");
    assert_eq!(dashes(3), "---");
    assert_eq!(dashes(10), "----------");
}
