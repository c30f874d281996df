//! Tests of the pure pieces: substring discovery and report text.

use nargo_test_runner::discovery::{contains_substring, find_tests};
use nargo_test_runner::model::{ProgramUnit, TestFunction};
use nargo_test_runner::text::{decimal_string, failure_message};

fn unit_of(names: &[&str]) -> ProgramUnit {
    ProgramUnit {
        tests: names
            .iter()
            .enumerate()
            .map(|(i, n)| TestFunction {
                name: n.to_string(),
                id: i as u64,
            })
            .collect(),
    }
}

#[test]
fn substring_matching() {
    assert!(contains_substring("test_add", "test_"));
    assert!(contains_substring("test_add", ""));
    assert!(contains_substring("test_add", "add"));
    assert!(contains_substring("test_add", "t_a"));
    assert!(contains_substring("", ""));
    assert!(!contains_substring("", "a"));
    assert!(!contains_substring("other", "test_"));
    assert!(!contains_substring("add", "test_add"));
    assert!(contains_substring("aab", "ab"));
}

#[test]
fn discovery_keeps_declaration_order() {
    let unit = unit_of(&["test_add", "other", "test_sub"]);
    let selected = find_tests(&unit, "test_");
    let names: Vec<&str> = selected.iter().map(|t| t.name.as_str()).collect();
    assert_eq!(names, vec!["test_add", "test_sub"]);
    assert_eq!(selected[0].id, 0);
    assert_eq!(selected[1].id, 2);
}

#[test]
fn discovery_with_empty_filter_selects_all() {
    let unit = unit_of(&["a", "b", "c"]);
    let selected = find_tests(&unit, "");
    assert_eq!(selected.len(), 3);
}

#[test]
fn discovery_may_select_nothing() {
    let unit = unit_of(&["a", "b"]);
    let selected = find_tests(&unit, "zzz");
    assert_eq!(selected.len(), 0);
}

#[test]
fn decimal_rendering() {
    assert_eq!(decimal_string(0), "0");
    assert_eq!(decimal_string(7), "7");
    assert_eq!(decimal_string(10), "10");
    assert_eq!(decimal_string(42), "42");
    assert_eq!(decimal_string(105), "105");
    assert_eq!(decimal_string(u64::MAX), "18446744073709551615");
}

#[test]
fn failure_message_pluralizes() {
    assert_eq!(failure_message("pkg", 1), "[pkg] 1 test failed");
    assert_eq!(failure_message("pkg", 2), "[pkg] 2 tests failed");
    assert_eq!(failure_message("workspace_member", 11), "[workspace_member] 11 tests failed");
}
