use vm_build::symbols::{selected_symbols, symbol_is_selected};
use vm_build::text::{has_prefix, path_join, str_eq};

#[test]
fn bindings_expose_prefix_matches_and_the_allowlisted_primitive() {
    let names = vec![
        "vm_init".to_string(),
        "vm_run".to_string(),
        "helper_internal".to_string(),
        "free".to_string(),
    ];
    let selected = selected_symbols(&names);
    assert_eq!(selected, vec!["vm_init", "vm_run", "free"]);
}

#[test]
fn symbol_selection_by_prefix() {
    assert!(symbol_is_selected("vm_init"));
    assert!(symbol_is_selected("vm_run"));
    assert!(symbol_is_selected("vm_"));
    assert!(!symbol_is_selected("vm"));
    assert!(!symbol_is_selected("helper_internal"));
    assert!(!symbol_is_selected(""));
}

#[test]
fn symbol_selection_allowlist_is_exact() {
    assert!(symbol_is_selected("free"));
    assert!(!symbol_is_selected("freed"));
    assert!(!symbol_is_selected("fre"));
    assert!(!symbol_is_selected("malloc"));
}

#[test]
fn selection_keeps_order_and_duplicates() {
    let names = vec![
        "free".to_string(),
        "vm_a".to_string(),
        "free".to_string(),
        "other".to_string(),
    ];
    assert_eq!(selected_symbols(&names), vec!["free", "vm_a", "free"]);
    assert_eq!(selected_symbols(&Vec::new()), Vec::<String>::new());
}

#[test]
fn text_helpers() {
    assert_eq!(path_join("/a/b", "c"), "/a/b/c");
    assert_eq!(path_join("", "c"), "/c");
    assert!(str_eq("abc", "abc"));
    assert!(!str_eq("abc", "abd"));
    assert!(!str_eq("abc", "ab"));
    assert!(has_prefix("vm_init", "vm_"));
    assert!(has_prefix("vm_", "vm_"));
    assert!(!has_prefix("vm", "vm_"));
    assert!(!has_prefix("xm_init", "vm_"));
}
