use uni_rs::bottles::english_number;
use uni_rs::bottles::sing_bottles;
use uni_rs::bottles::under_1000;
use uni_rs::fizz_buzz::fizz_buzz;
use uni_rs::text::capitalize;
use uni_rs::validator::validate;
use uni_rs::validator::Criteria;
use uni_rs::validator::ValidationState;

#[test]
fn zero_is_spelled_out() {
    assert_eq!(english_number(0), "zero");
}

#[test]
fn small_numbers() {
    assert_eq!(english_number(1), "one");
    assert_eq!(english_number(7), "seven");
    assert_eq!(english_number(10), "ten");
    assert_eq!(english_number(11), "eleven");
    assert_eq!(english_number(15), "fifteen");
    assert_eq!(english_number(19), "nineteen");
    assert_eq!(english_number(20), "twenty");
    assert_eq!(english_number(42), "forty-two");
    assert_eq!(english_number(99), "ninety-nine");
}

#[test]
fn hundreds() {
    assert_eq!(english_number(100), "one-hundred");
    assert_eq!(english_number(101), "one-hundred and one");
    assert_eq!(english_number(110), "one-hundred and ten");
    assert_eq!(english_number(111), "one-hundred and eleven");
    assert_eq!(english_number(999), "nine-hundred and ninety-nine");
}

#[test]
fn thousands_are_comma_joined_most_significant_first() {
    assert_eq!(english_number(1000), "one thousand");
    assert_eq!(english_number(1001), "one thousand, one");
    assert_eq!(english_number(2015), "two thousand, fifteen");
    assert_eq!(english_number(1_002_003), "one million, two thousand, three");
}

#[test]
fn zero_groups_are_skipped() {
    assert_eq!(english_number(1_000_000), "one million");
    assert_eq!(english_number(1_000_000_000), "one billion");
    assert_eq!(english_number(1_000_000_001), "one billion, one");
    assert_eq!(english_number(2_000_000_000_000), "two trillion");
}

#[test]
fn largest_supported_number() {
    assert_eq!(
        english_number(999_999_999_999_999),
        "nine-hundred and ninety-nine trillion, nine-hundred and ninety-nine billion, \
         nine-hundred and ninety-nine million, nine-hundred and ninety-nine thousand, \
         nine-hundred and ninety-nine"
    );
}

#[test]
fn segment_words_carry_the_magnitude_suffix() {
    assert_eq!(under_1000(5, 0), "five");
    assert_eq!(under_1000(5, 1), "five thousand");
    assert_eq!(under_1000(212, 2), "two-hundred and twelve million");
    assert_eq!(under_1000(999, 4), "nine-hundred and ninety-nine trillion");
}

#[test]
fn names_never_hold_stray_commas() {
    let mut samples: Vec<usize> = (1..=2000).collect();
    samples.extend([
        999_999,
        1_000_000,
        1_000_001,
        123_000_456,
        999_999_999_999_999,
    ]);
    for n in samples {
        let name = english_number(n);
        assert!(!name.starts_with(','), "leading comma in {:?}", name);
        assert!(!name.ends_with(','), "trailing comma in {:?}", name);
        assert!(!name.contains(",,"), "double comma in {:?}", name);
    }
}

#[test]
fn capitalize_upper_cases_the_first_letter_only() {
    assert_eq!(capitalize("one"), "One");
    assert_eq!(capitalize("twenty-two"), "Twenty-two");
    assert_eq!(capitalize("Already"), "Already");
    assert_eq!(capitalize(""), "");
}

#[test]
fn fizz_buzz_fifteen() {
    assert_eq!(
        fizz_buzz(15),
        "1,2,Fizz,4,Buzz,Fizz,7,8,Fizz,Buzz,11,Fizz,13,14,FizzBuzz"
    );
}

#[test]
fn fizz_buzz_twenty_positions() {
    let line = fizz_buzz(20);
    assert!(!line.ends_with(','));
    let entries: Vec<&str> = line.split(',').collect();
    assert_eq!(entries.len(), 20);
    for (idx, entry) in entries.iter().enumerate() {
        let position = idx + 1;
        if position % 15 == 0 {
            assert_eq!(*entry, "FizzBuzz");
        } else if position % 3 == 0 {
            assert_eq!(*entry, "Fizz");
        } else if position % 5 == 0 {
            assert_eq!(*entry, "Buzz");
        } else {
            assert_eq!(*entry, position.to_string());
        }
    }
}

#[test]
fn fizz_buzz_single_entry() {
    assert_eq!(fizz_buzz(1), "1");
    assert_eq!(fizz_buzz(3), "1,2,Fizz");
    assert_eq!(fizz_buzz(5), "1,2,Fizz,4,Buzz");
}

#[test]
fn short_password_is_rejected_before_anything_else() {
    assert_eq!(validate(String::from("abc")), ValidationState::TooShort);
    assert_eq!(validate(String::from("")), ValidationState::TooShort);
    assert_eq!(validate(String::from("Abcdef1")), ValidationState::TooShort);
}

#[test]
fn missing_criteria_are_reported_in_order() {
    assert_eq!(
        validate(String::from("abcdefgh")),
        ValidationState::Failed(vec![Criteria::UppercaseChar, Criteria::Digit])
    );
    assert_eq!(
        validate(String::from("ABCDEFGH")),
        ValidationState::Failed(vec![Criteria::LowercaseChar, Criteria::Digit])
    );
    assert_eq!(
        validate(String::from("12345678")),
        ValidationState::Failed(vec![Criteria::LowercaseChar, Criteria::UppercaseChar])
    );
    assert_eq!(
        validate(String::from("Abcdefgh")),
        ValidationState::Failed(vec![Criteria::Digit])
    );
    assert_eq!(
        validate(String::from("abcdefg1")),
        ValidationState::Failed(vec![Criteria::UppercaseChar])
    );
    assert_eq!(
        validate(String::from("ABCDEFG1")),
        ValidationState::Failed(vec![Criteria::LowercaseChar])
    );
}

#[test]
fn compliant_password_passes() {
    assert_eq!(validate(String::from("Abcdefg1")), ValidationState::Passed);
    assert_eq!(validate(String::from("xYz12345")), ValidationState::Passed);
}

#[test]
fn criteria_descriptions() {
    assert_eq!(Criteria::LowercaseChar.describe(), "1 lowercase character");
    assert_eq!(Criteria::UppercaseChar.describe(), "1 uppercase character");
    assert_eq!(Criteria::Digit.describe(), "1 digit");
}

#[test]
fn song_for_two_bottles() {
    let expected = "Two green bottles\n\
                    Hanging on the wall\n\
                    Two green bottles\n\
                    Hanging on the wall\n\
                    And if one green bottle\n\
                    Should accidentally fall\n\
                    There'll be one green bottles\n\
                    Hanging on the wall\n\
                    \n\
                    One green bottles\n\
                    Hanging on the wall\n\
                    One green bottles\n\
                    Hanging on the wall\n\
                    And if one green bottle\n\
                    Should accidentally fall\n\
                    There'll be no green bottles\n\
                    Hanging on the wall";
    assert_eq!(sing_bottles(2), expected);
}

#[test]
fn song_edges() {
    assert_eq!(sing_bottles(0), "");
    let one = sing_bottles(1);
    assert!(one.starts_with("One green bottles\n"));
    assert!(one.ends_with("There'll be no green bottles\nHanging on the wall"));
    let ten = sing_bottles(10);
    assert_eq!(ten.split("\n\n").count(), 10);
    assert!(ten.starts_with("Ten green bottles\n"));
}
