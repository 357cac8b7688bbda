use knock_knock::utils::{decimal_string, join, pluralize};

#[test]
fn pluralize_keeps_the_singular_for_one() {
    assert_eq!(pluralize("day", 1), "day");
}

#[test]
fn pluralize_adds_s_for_zero() {
    assert_eq!(pluralize("day", 0), "days");
}

#[test]
fn pluralize_adds_s_for_two() {
    assert_eq!(pluralize("day", 2), "days");
}

#[test]
fn pluralize_adds_s_for_negative_one() {
    assert_eq!(pluralize("hour", -1), "hours");
}

#[test]
fn decimal_string_writes_zero() {
    assert_eq!(decimal_string(0), "0");
}

#[test]
fn decimal_string_agrees_with_std() {
    let samples: Vec<u128> = vec![1, 9, 10, 11, 99, 100, 101, 1234567890, u128::MAX];
    for n in samples {
        assert_eq!(decimal_string(n), format!("{}", n));
    }
}

#[test]
fn join_puts_the_separator_between_items() {
    let items = vec![String::from("a"), String::from("b"), String::from("c")];
    assert_eq!(join(&items, ", "), "a, b, c");
}

#[test]
fn join_of_nothing_is_empty() {
    let items: Vec<String> = Vec::new();
    assert_eq!(join(&items, ", "), "");
}

#[test]
fn join_of_one_item_has_no_separator() {
    let items = vec![String::from("a")];
    assert_eq!(join(&items, ", "), "a");
}

#[test]
fn the_crate_root_offers_the_helpers() {
    assert_eq!(knock_knock::pluralize("minute", 3), "minutes");
    assert_eq!(knock_knock::highlight_text("ok", "\x1b[32m"), "\x1b[32mok\x1b[0m");
    assert_ne!(
        knock_knock::KnockKnockError::NoServersFound,
        knock_knock::KnockKnockError::UnableToRetrieveListOfServers
    );
}
