use tugger::text::{append_hex, join_strings, str_equal, str_less};

#[test]
fn lexicographic_order() {
    assert!(str_less("a", "b"));
    assert!(str_less("a", "ab"));
    assert!(!str_less("ab", "a"));
    assert!(!str_less("x", "x"));
    assert!(str_less("Z", "a"));
}

#[test]
fn equality_and_join() {
    assert!(str_equal("abc", "abc"));
    assert!(!str_equal("abc", "abd"));
    assert_eq!(join_strings(&vec!["a".to_string(), "b".to_string()], "--"), "a--b");
}

#[test]
fn hex_rendering() {
    let mut s = String::from("x");
    append_hex(&mut s, &vec![0x00, 0xab, 0x7f]);
    assert_eq!(s, "x00ab7f");
}
