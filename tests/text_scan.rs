use rightscrapex::text::{
    after_first_chars, contains_chars, starts_at, strip_all_chars, strip_statement_end_chars,
    tail_pieces_chars,
};

fn c(x: &str) -> Vec<char> {
    x.chars().collect()
}

#[test]
fn contains_finds_inner_and_edge_matches() {
    assert!(contains_chars(&c("var PAGE_MODEL = 1"), &c("PAGE_MODEL")));
    assert!(contains_chars(&c("abc"), &c("")));
    assert!(contains_chars(&c("abc"), &c("bc")));
    assert!(!contains_chars(&c("abc"), &c("abcd")));
    assert!(!contains_chars(&c(""), &c("a")));
}

#[test]
fn starts_at_checks_one_position() {
    assert!(starts_at(&c("a = b"), &c(" = "), 1));
    assert!(!starts_at(&c("a = b"), &c(" = "), 2));
    assert!(!starts_at(&c("a ="), &c(" = "), 1));
}

#[test]
fn after_first_and_strip_all() {
    assert_eq!(after_first_chars(&c("a = b = c"), &c(" = ")), Some(c("b = c")));
    assert_eq!(after_first_chars(&c("abc"), &c(" = ")), None);
    assert_eq!(strip_all_chars(&c("b = c = d"), &c(" = ")), c("bcd"));
    assert_eq!(strip_all_chars(&c("xyz"), &c("")), c("xyz"));
}

#[test]
fn tail_pieces_joins_all_but_first_piece() {
    assert_eq!(tail_pieces_chars(&c("a = b = c"), &c(" = ")), c("bc"));
    assert_eq!(tail_pieces_chars(&c("no separator"), &c(" = ")), c(""));
    assert_eq!(tail_pieces_chars(&c("var M = {\"k\":1};"), &c(" = ")), c("{\"k\":1};"));
}

#[test]
fn statement_end_is_cut_off() {
    assert_eq!(strip_statement_end_chars(&c("{\"a\":1};  \n")), c("{\"a\":1}"));
    assert_eq!(strip_statement_end_chars(&c("{}")), c("{}"));
    assert_eq!(strip_statement_end_chars(&c(" ;; ")), c(""));
}
