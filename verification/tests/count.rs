use vector_dot_product::count::{parse_vector_count, vector_count_from_args, DEFAULT_VECTOR_COUNT};

fn args(words: &[&str]) -> Vec<String> {
    words.iter().map(|w| w.to_string()).collect()
}

#[test]
fn default_count_is_ten_million() {
    assert_eq!(DEFAULT_VECTOR_COUNT, 10_000_000);
}

#[test]
fn parses_plain_number() {
    assert_eq!(parse_vector_count("500"), Some(500));
    assert_eq!(parse_vector_count("0"), Some(0));
    assert_eq!(parse_vector_count("7"), Some(7));
    assert_eq!(parse_vector_count("10000000"), Some(10_000_000));
}

#[test]
fn accepts_plus_sign_and_leading_zeros() {
    assert_eq!(parse_vector_count("+42"), Some(42));
    assert_eq!(parse_vector_count("000123"), Some(123));
    assert_eq!(parse_vector_count("+000"), Some(0));
    assert_eq!(parse_vector_count("0000000000000000000000000000000000000001"), Some(1));
}

#[test]
fn rejects_what_is_not_a_count() {
    for text in [
        "", "+", "-", "abc", "-5", "-0", "++5", "+-5", "5+", "12a", "a12", " 12", "12 ", "1_000",
        "1.5", "1e3", "0x10", "५", "12é", "é", "１２",
    ] {
        assert_eq!(parse_vector_count(text), None, "{:?}", text);
    }
}

#[test]
fn largest_count_parses_and_one_more_does_not() {
    let max = usize::MAX.to_string();
    assert_eq!(parse_vector_count(&max), Some(usize::MAX));
    let beyond = (usize::MAX as u128 + 1).to_string();
    assert_eq!(parse_vector_count(&beyond), None);
    let tenfold = format!("{}0", usize::MAX);
    assert_eq!(parse_vector_count(&tenfold), None);
    assert_eq!(parse_vector_count("99999999999999999999999999999999999999999"), None);
    assert_eq!(parse_vector_count("99999999999999999999999999999999999999999x"), None);
}

#[test]
fn agrees_with_the_standard_parser() {
    let samples = [
        "0", "1", "9", "10", "99", "100", "+1", "+", "-1", "", "18446744073709551615",
        "18446744073709551616", "18446744073709551614", "4294967295", "4294967296", "00", "+00",
        "1 ", " 1", "1\n", "٣", "1٣", "+٣", "--1", "+ 1", "1+1", "123456789", "9876543210",
    ];
    for text in samples {
        assert_eq!(parse_vector_count(text), text.parse::<usize>().ok(), "{:?}", text);
    }
    for n in 0..2000usize {
        assert_eq!(parse_vector_count(&n.to_string()), Some(n));
    }
}

#[test]
fn missing_argument_gives_default() {
    assert_eq!(vector_count_from_args(&args(&[])), 10_000_000);
    assert_eq!(vector_count_from_args(&args(&["bench"])), 10_000_000);
}

#[test]
fn unreadable_argument_behaves_like_none() {
    let without = vector_count_from_args(&args(&["bench"]));
    assert_eq!(vector_count_from_args(&args(&["bench", "abc"])), without);
    assert_eq!(vector_count_from_args(&args(&["bench", "abc"])), 10_000_000);
    assert_eq!(vector_count_from_args(&args(&["bench", "-3"])), 10_000_000);
    assert_eq!(vector_count_from_args(&args(&["bench", ""])), 10_000_000);
}

#[test]
fn numeric_argument_sets_the_count() {
    assert_eq!(vector_count_from_args(&args(&["bench", "500"])), 500);
    assert_eq!(vector_count_from_args(&args(&["bench", "0"])), 0);
    assert_eq!(vector_count_from_args(&args(&["bench", "500", "junk"])), 500);
    assert_eq!(vector_count_from_args(&args(&["500", "junk"])), 10_000_000);
}
