use enpitsu::cli::{arg_value, resolve_dict_path, resolve_user_dict_path};

fn args(items: &[&str]) -> Vec<String> {
    items.iter().map(|s| s.to_string()).collect()
}

#[test]
fn arg_value_takes_next_argument() {
    let a = args(&["enpitsu", "--dict", "/d/SKK-JISYO.L", "--user-dict", "/u.txt"]);
    assert_eq!(arg_value(&a, "--dict"), Some("/d/SKK-JISYO.L"));
    assert_eq!(arg_value(&a, "--user-dict"), Some("/u.txt"));
    assert_eq!(arg_value(&a, "--other"), None);
}

#[test]
fn arg_value_first_occurrence_and_last_position() {
    let a = args(&["--dict", "a", "--dict", "b"]);
    assert_eq!(arg_value(&a, "--dict"), Some("a"));
    let a = args(&["x", "--dict"]);
    assert_eq!(arg_value(&a, "--dict"), None);
    assert_eq!(arg_value(&[], "--dict"), None);
}

#[test]
fn dictionary_resolution_order() {
    assert_eq!(resolve_dict_path(Some("/a"), Some("/c"), "/def", true), Some("/a".to_string()));
    assert_eq!(resolve_dict_path(None, Some("/c"), "/def", true), Some("/c".to_string()));
    assert_eq!(resolve_dict_path(None, None, "/def", true), Some("/def".to_string()));
    assert_eq!(resolve_dict_path(None, None, "/def", false), None);
}

#[test]
fn user_dictionary_resolution_order() {
    assert_eq!(resolve_user_dict_path(Some("/u"), false, "/def"), Some("/u".to_string()));
    assert_eq!(resolve_user_dict_path(None, true, "/def"), Some("/def".to_string()));
    assert_eq!(resolve_user_dict_path(None, false, "/def"), None);
}
