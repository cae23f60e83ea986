use rpg_core::helpers::{titlecase, titlecase_with};

#[test]
fn titlecase_capitalises_first_letter() {
    assert_eq!(titlecase("hello"), "Hello");
    assert_eq!(titlecase("bevy game"), "Bevy game");
}

#[test]
fn titlecase_of_empty_is_empty() {
    assert_eq!(titlecase(""), "");
}

#[test]
fn titlecase_keeps_upper_case_and_non_letters() {
    assert_eq!(titlecase("Already"), "Already");
    assert_eq!(titlecase("1st place"), "1st place");
    assert_eq!(titlecase("x"), "X");
}

#[test]
fn titlecase_changes_only_the_first_character() {
    assert_eq!(titlecase("aBC def"), "ABC def");
}

#[test]
fn titlecase_handles_multi_character_upper_case() {
    assert_eq!(titlecase("\u{df}tra\u{df}e"), "SStra\u{df}e");
    assert_eq!(titlecase("\u{e9}lan"), "\u{c9}lan");
}

#[test]
fn titlecase_with_joins_given_head() {
    assert_eq!(titlecase_with("Z", "abc"), "Zbc");
    assert_eq!(titlecase_with("SS", "\u{df}x"), "SSx");
    assert_eq!(titlecase_with("", "abc"), "bc");
}

#[test]
fn titlecase_with_on_empty_text_is_empty() {
    assert_eq!(titlecase_with("Q", ""), "");
}
