use wasmrunner::environment::{get_variable, has_unique_keys, set_variable};

fn pair(key: &str, value: &str) -> (String, String) {
    (key.to_string(), value.to_string())
}

#[test]
fn variable_is_found_by_its_name() {
    let environment = vec![pair("A", "1"), pair("B", "2")];
    assert_eq!(get_variable(&environment, "A"), Some(&"1".to_string()));
    assert_eq!(get_variable(&environment, "B"), Some(&"2".to_string()));
    assert_eq!(get_variable(&environment, "C"), None);
    assert_eq!(get_variable(&Vec::new(), "A"), None);
}

#[test]
fn set_variable_is_read_back() {
    let mut environment = vec![pair("A", "1"), pair("B", "2")];
    set_variable(&mut environment, "B".to_string(), "3".to_string());
    assert_eq!(get_variable(&environment, "B"), Some(&"3".to_string()));
    assert_eq!(get_variable(&environment, "A"), Some(&"1".to_string()));
    set_variable(&mut environment, "C".to_string(), "4".to_string());
    assert_eq!(environment, vec![pair("A", "1"), pair("B", "3"), pair("C", "4")]);
    assert!(has_unique_keys(&environment));
}

#[test]
fn names_set_twice_are_noticed() {
    assert!(has_unique_keys(&Vec::new()));
    assert!(has_unique_keys(&vec![pair("A", "1")]));
    assert!(has_unique_keys(&vec![pair("A", "1"), pair("a", "1")]));
    assert!(!has_unique_keys(&vec![pair("A", "1"), pair("B", "2"), pair("A", "3")]));
    assert!(!has_unique_keys(&vec![pair("A", "1"), pair("A", "1")]));
}
