use rand::SeedableRng;

use names::{
    Casing, Error, Generator, GeneratorBuilder, GeneratorConfig, Length, Name, NumberSeperator,
    StdRng,
};

fn seeded(seed: u64) -> StdRng {
    StdRng::seed_from_u64(seed)
}

fn strings(words: &[&str]) -> Vec<String> {
    words.iter().map(|w| w.to_string()).collect()
}

fn single_pair() -> GeneratorBuilder {
    GeneratorBuilder::default()
        .adjectives(strings(&["imaginary"]))
        .nouns(strings(&["roll"]))
        .rng(seeded(1))
}

#[test]
fn single_words_give_one_name() {
    let mut generator = single_pair().build().unwrap();
    for _ in 0..20 {
        assert_eq!(generator.next().unwrap(), "imaginary-roll");
    }
}

#[test]
fn default_generator_always_gives_a_name() {
    let mut generator = Generator::default();
    for _ in 0..1000 {
        let name = generator.next().unwrap();
        let parts: Vec<&str> = name.split('-').collect();
        assert_eq!(parts.len(), 2);
        assert!(!parts[0].is_empty() && !parts[1].is_empty());
    }
}

#[test]
fn built_generator_draws_from_its_lists() {
    let mut generator = GeneratorBuilder::default()
        .adjectives(strings(&["Red", "blue"]))
        .nouns(strings(&["Fox", "owl", "cat"]))
        .rng(seeded(2))
        .build()
        .unwrap();
    let allowed: Vec<String> = ["red", "blue"]
        .iter()
        .flat_map(|a| ["fox", "owl", "cat"].iter().map(move |n| format!("{a}-{n}")))
        .collect();
    let mut seen = std::collections::HashSet::new();
    for _ in 0..500 {
        let name = generator.next().unwrap();
        assert!(allowed.contains(&name), "{name}");
        seen.insert(name);
    }
    assert_eq!(seen.len(), 6);
}

#[test]
fn numbered_four_digits_never_lead_with_zero() {
    let mut generator = single_pair()
        .naming(Name::Numbered(4, NumberSeperator::Dash))
        .build()
        .unwrap();
    for _ in 0..10_000 {
        let name = generator.next().unwrap();
        let number = name.strip_prefix("imaginary-roll-").unwrap();
        assert_eq!(number.len(), 4, "{name}");
        assert!(number.chars().all(|c| c.is_ascii_digit()), "{name}");
        assert!(('1'..='9').contains(&number.chars().next().unwrap()), "{name}");
    }
}

#[test]
fn numbered_one_digit_is_one_to_nine() {
    let mut generator = single_pair()
        .naming(Name::Numbered(1, NumberSeperator::Empty))
        .build()
        .unwrap();
    for _ in 0..500 {
        let name = generator.next().unwrap();
        let number: u64 = name.strip_prefix("imaginary-roll").unwrap().parse().unwrap();
        assert!((1..=9).contains(&number), "{name}");
    }
}

#[test]
fn zero_padded_two_digits() {
    let mut generator = single_pair()
        .naming(Name::ZeroPaddedNumbered(2, NumberSeperator::Underscore))
        .build()
        .unwrap();
    for _ in 0..2000 {
        let name = generator.next().unwrap();
        let number = name.strip_prefix("imaginary-roll_").unwrap();
        assert_eq!(number.len(), 2, "{name}");
        assert!(number.chars().all(|c| c.is_ascii_digit()), "{name}");
    }
}

#[test]
fn nineteen_digits_fit() {
    let mut generator = single_pair()
        .naming(Name::Numbered(19, NumberSeperator::Dash))
        .build()
        .unwrap();
    let name = generator.next().unwrap();
    let number = name.strip_prefix("imaginary-roll-").unwrap();
    assert_eq!(number.len(), 19);
    assert_ne!(number.chars().next().unwrap(), '0');
}

#[test]
fn digit_count_out_of_range_is_rejected() {
    for naming in [
        Name::Numbered(0, NumberSeperator::Dash),
        Name::ZeroPaddedNumbered(0, NumberSeperator::Dash),
        Name::Numbered(20, NumberSeperator::Dash),
    ] {
        let result = single_pair().naming(naming).build();
        assert!(matches!(result, Err(Error::ValidationError(_))));
    }
}

#[test]
fn truncate_cuts_long_names() {
    let mut generator = single_pair().length(Length::Truncate(5)).build().unwrap();
    assert_eq!(generator.next().unwrap(), "imagi");
}

#[test]
fn truncate_keeps_short_names() {
    let mut generator = GeneratorBuilder::default()
        .adjectives(strings(&["a"]))
        .nouns(strings(&["b"]))
        .length(Length::Truncate(5))
        .rng(seeded(3))
        .build()
        .unwrap();
    assert_eq!(generator.next().unwrap(), "a-b");
}

#[test]
fn truncate_counts_characters() {
    let mut generator = GeneratorBuilder::default()
        .adjectives(strings(&["ÉÉÉ"]))
        .nouns(strings(&["x"]))
        .length(Length::Truncate(2))
        .rng(seeded(4))
        .build()
        .unwrap();
    assert_eq!(generator.next().unwrap(), "éé");
}

#[test]
fn truncate_to_exact_length_keeps_the_name() {
    let mut generator = single_pair().length(Length::Truncate(14)).build().unwrap();
    assert_eq!(generator.next().unwrap(), "imaginary-roll");
}

#[test]
fn reroll_finds_the_asked_length() {
    let mut generator = GeneratorBuilder::default()
        .adjectives(strings(&["a", "bbb", "cc"]))
        .nouns(strings(&["d", "eeee"]))
        .length(Length::Reroll(4))
        .rng(seeded(5))
        .build()
        .unwrap();
    for _ in 0..200 {
        let name = generator.next().unwrap();
        assert_eq!(name.chars().count(), 4, "{name}");
    }
}

#[test]
fn reroll_gives_up_after_the_limit() {
    let mut generator = single_pair().length(Length::Reroll(3)).build().unwrap();
    assert_eq!(generator.next().unwrap(), "imaginary-roll");
}

#[test]
fn empty_adjectives_are_rejected() {
    let result = GeneratorBuilder::default().adjectives(vec![]).rng(seeded(6)).build();
    assert!(matches!(result, Err(Error::AdjectivesEmpty)));
}

#[test]
fn empty_nouns_are_rejected() {
    let result = GeneratorBuilder::default().nouns(vec![]).rng(seeded(7)).build();
    assert!(matches!(result, Err(Error::NounsEmpty)));
}

#[test]
fn empty_adjectives_are_reported_before_empty_nouns() {
    let result = GeneratorBuilder::default().adjectives(vec![]).nouns(vec![]).build();
    assert!(matches!(result, Err(Error::AdjectivesEmpty)));
}

#[test]
fn builder_defaults() {
    let generator = GeneratorBuilder::default().build().unwrap();
    assert_eq!(generator.naming(), &Name::Plain);
    assert_eq!(generator.casing(), &Casing::Lowercase(NumberSeperator::Dash));
    assert_eq!(generator.length(), Length::Unlimited);
    assert_eq!(generator.adjectives(), &names::words::adjectives());
    assert_eq!(generator.nouns(), &names::words::nouns());
    assert!(generator.adjectives().iter().any(|w| w == "imaginary"));
}

#[test]
fn config_survives_a_round_trip() {
    let config = GeneratorConfig {
        adjectives: strings(&["quick", "lazy"]),
        nouns: strings(&["dog"]),
        naming: Name::ZeroPaddedNumbered(3, NumberSeperator::Custom("#".to_string())),
        casing: Casing::ScreamingKebabCase,
        length: Length::Truncate(12),
    };
    let generator = Generator::from_config(config.clone(), seeded(8)).unwrap();
    let back = generator.into_config();
    assert_eq!(back.adjectives, config.adjectives);
    assert_eq!(back.nouns, config.nouns);
    assert_eq!(back.naming, config.naming);
    assert_eq!(back.casing, config.casing);
    assert_eq!(back.length, config.length);
}

#[test]
fn from_config_checks_the_lists() {
    let mut config = GeneratorConfig::default();
    config.nouns.clear();
    assert!(matches!(Generator::from_config(config, seeded(9)), Err(Error::NounsEmpty)));
}

#[test]
fn compose_applies_casing_and_number() {
    let generator = GeneratorBuilder::default()
        .casing(Casing::Capitalize(NumberSeperator::Underscore))
        .naming(Name::ZeroPaddedNumbered(3, NumberSeperator::Dash))
        .rng(seeded(10))
        .build()
        .unwrap();
    assert_eq!(generator.compose("hAPPY", "tREE", 7), "Happy_Tree-007");
    let upper = GeneratorBuilder::default()
        .casing(Casing::Uppercase(NumberSeperator::Dash))
        .naming(Name::Numbered(2, NumberSeperator::Empty))
        .rng(seeded(11))
        .build()
        .unwrap();
    assert_eq!(upper.compose("calm", "lake", 42), "CALM-LAKE42");
}

#[test]
fn same_seed_same_names() {
    let make = || {
        GeneratorBuilder::default()
            .naming(Name::Numbered(3, NumberSeperator::Dash))
            .rng(seeded(12))
            .build()
            .unwrap()
    };
    let (mut a, mut b) = (make(), make());
    for _ in 0..50 {
        assert_eq!(a.next(), b.next());
    }
}

#[test]
fn command_line_naming() {
    assert_eq!(Name::for_number(None), Name::Plain);
    assert_eq!(
        Name::for_number(Some(4)),
        Name::ZeroPaddedNumbered(4, NumberSeperator::Dash)
    );
}

#[test]
fn length_settle_decisions() {
    assert_eq!(Length::Unlimited.settle("abcdef".to_string()), Some("abcdef".to_string()));
    assert_eq!(Length::Truncate(3).settle("abcdef".to_string()), Some("abc".to_string()));
    assert_eq!(Length::Truncate(0).settle("abc".to_string()), Some(String::new()));
    assert_eq!(Length::Reroll(3).settle("abc".to_string()), Some("abc".to_string()));
    assert_eq!(Length::Reroll(3).settle("abcd".to_string()), None);
    assert_eq!(Length::default(), Length::Unlimited);
    assert_eq!(Name::default(), Name::Plain);
}

#[test]
fn validation_error_from_string() {
    let e: Error = "bad".to_string().into();
    assert!(matches!(e, Error::ValidationError(ref m) if m == "bad"));
}
