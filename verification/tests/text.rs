use scoop_core::proxy::normalize_proxy;
use scoop_core::strings::{leaf_base, split_on, str_eq, str_starts_with};

#[test]
fn split_keeps_empty_tokens_and_order() {
    let toks = split_on("a|b||c", '|');
    assert_eq!(toks, vec!["a", "b", "", "c"]);
    assert_eq!(split_on("", ','), vec![""]);
    assert_eq!(split_on("plain", '|'), vec!["plain"]);
}

#[test]
fn string_equality_is_exact() {
    assert!(str_eq("abc", "abc"));
    assert!(!str_eq("abc", "abd"));
    assert!(!str_eq("abc", "ABC"));
}

#[test]
fn prefix_test_matches_character_prefixes() {
    assert!(str_starts_with("http://proxy", "http"));
    assert!(!str_starts_with("socks5://proxy", "http"));
    assert!(str_starts_with("anything", ""));
}

#[test]
fn leaf_base_strips_directories_and_extension() {
    assert_eq!(leaf_base("/repos/main/bucket/gcc.json"), "gcc");
    assert_eq!(leaf_base("gcc.json"), "gcc");
    assert_eq!(leaf_base("dir/noext"), "noext");
    assert_eq!(leaf_base("a/b/tool.v2.json"), "tool.v2");
}

#[test]
fn proxy_addresses_get_a_scheme_when_missing() {
    assert_eq!(normalize_proxy("proxy.local:8080"), "http://proxy.local:8080");
    assert_eq!(normalize_proxy("http://proxy.local:8080"), "http://proxy.local:8080");
    assert_eq!(normalize_proxy("https://proxy.local"), "https://proxy.local");
}
