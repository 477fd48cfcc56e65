use kube_nimble::common::helper::{lowercase_is_true, string_to_bool};

#[test]
fn string_to_bool_reads_true_in_any_case() {
    assert!(string_to_bool("true".to_owned()));
    assert!(string_to_bool("TRUE".to_owned()));
    assert!(string_to_bool("True".to_owned()));
    assert!(string_to_bool("tRuE".to_owned()));
}

#[test]
fn string_to_bool_reads_everything_else_as_off() {
    assert!(!string_to_bool("false".to_owned()));
    assert!(!string_to_bool("FALSE".to_owned()));
    assert!(!string_to_bool("".to_owned()));
    assert!(!string_to_bool("yes".to_owned()));
    assert!(!string_to_bool("1".to_owned()));
    assert!(!string_to_bool(" true".to_owned()));
    assert!(!string_to_bool("true ".to_owned()));
}

#[test]
fn lowercase_is_true_takes_only_the_lowercase_word() {
    assert!(lowercase_is_true("true"));
    assert!(!lowercase_is_true("TRUE"));
    assert!(!lowercase_is_true("false"));
    assert!(!lowercase_is_true("tru"));
}
