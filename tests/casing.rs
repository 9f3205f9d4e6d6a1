use names::casing::Casing;
use names::case_text::capitalize;
use names::NumberSeperator;

fn foo_bar(casing: Casing) -> String {
    casing.apply(vec!["foo", "bar"])
}

#[test]
fn pascal_case_joins_capitalized_words() {
    assert_eq!(foo_bar(Casing::PascalCase), "FooBar");
}

#[test]
fn camel_case_capitalizes_all_but_first() {
    assert_eq!(foo_bar(Casing::CamelCase), "fooBar");
}

#[test]
fn snake_case_joins_with_underscore() {
    assert_eq!(foo_bar(Casing::SnakeCase), "foo_bar");
}

#[test]
fn screaming_snake_case_upper_cases() {
    assert_eq!(foo_bar(Casing::ScreamingSnakeCase), "FOO_BAR");
}

#[test]
fn kebab_cases() {
    assert_eq!(foo_bar(Casing::KebabCase), "foo-bar");
    assert_eq!(foo_bar(Casing::ScreamingKebabCase), "FOO-BAR");
}

#[test]
fn separator_casings_on_mixed_case_words() {
    let words = || vec!["fOO", "BaR"];
    assert_eq!(Casing::Lowercase(NumberSeperator::Dash).apply(words()), "foo-bar");
    assert_eq!(Casing::Uppercase(NumberSeperator::Underscore).apply(words()), "FOO_BAR");
    assert_eq!(Casing::Capitalize(NumberSeperator::Empty).apply(words()), "FooBar");
    assert_eq!(
        Casing::CapitalizeFirst(NumberSeperator::Custom("+".to_string())).apply(words()),
        "Foo+bar"
    );
    assert_eq!(Casing::CapitalizeLast(NumberSeperator::Dash).apply(words()), "foo-Bar");
}

#[test]
fn custom_separator_is_kept_as_written() {
    let casing = Casing::Lowercase(NumberSeperator::Custom("And".to_string()));
    assert_eq!(casing.apply(vec!["Salt", "Pepper"]), "saltAndpepper");
}

#[test]
fn three_words_and_capitalize_last() {
    let casing = Casing::CapitalizeLast(NumberSeperator::Dash);
    assert_eq!(casing.apply(vec!["ONE", "two", "three"]), "one-two-Three");
    assert_eq!(Casing::CamelCase.apply(vec!["ONE", "two", "three"]), "oneTwoThree");
}

#[test]
fn no_words_give_the_empty_string() {
    assert_eq!(Casing::CapitalizeLast(NumberSeperator::Dash).apply(vec![]), "");
    assert_eq!(Casing::PascalCase.apply(vec![]), "");
}

#[test]
fn empty_words_stay_empty() {
    assert_eq!(Casing::PascalCase.apply(vec!["", "bar"]), "Bar");
    assert_eq!(Casing::Capitalize(NumberSeperator::Dash).apply(vec!["", ""]), "-");
}

#[test]
fn capitalize_is_unicode_aware() {
    assert_eq!(capitalize("éCLAIR"), "Éclair");
    assert_eq!(capitalize("ßtraße"), "SStraße");
    assert_eq!(capitalize(""), "");
}

#[test]
fn seperator_of_each_casing() {
    assert_eq!(Casing::Lowercase(NumberSeperator::Underscore).seperator(), "_");
    assert_eq!(Casing::Uppercase(NumberSeperator::Custom("::".to_string())).seperator(), "::");
    assert_eq!(Casing::Capitalize(NumberSeperator::Empty).seperator(), "");
    assert_eq!(Casing::SnakeCase.seperator(), "_");
    assert_eq!(Casing::ScreamingSnakeCase.seperator(), "_");
    assert_eq!(Casing::CamelCase.seperator(), "");
    assert_eq!(Casing::PascalCase.seperator(), "");
    assert_eq!(Casing::KebabCase.seperator(), "-");
    assert_eq!(Casing::ScreamingKebabCase.seperator(), "-");
}

#[test]
fn default_casing_is_lowercase_dash() {
    assert_eq!(Casing::default(), Casing::Lowercase(NumberSeperator::Dash));
}
