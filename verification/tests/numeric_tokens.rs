use cubesat_telemetry::numeric::numeric_token;
use cubesat_telemetry::tokens::tokenize;

#[test]
fn accepts_plain_and_signed_numbers() {
    assert!(numeric_token("1"));
    assert!(numeric_token("-1.5"));
    assert!(numeric_token("+0.25"));
    assert!(numeric_token("1."));
    assert!(numeric_token(".5"));
    assert!(numeric_token("+.5"));
}

#[test]
fn accepts_exponents() {
    assert!(numeric_token("1e10"));
    assert!(numeric_token("1E-3"));
    assert!(numeric_token("2.5e+7"));
    assert!(numeric_token(".5e1"));
}

#[test]
fn accepts_special_words_in_any_case() {
    assert!(numeric_token("inf"));
    assert!(numeric_token("-inf"));
    assert!(numeric_token("Infinity"));
    assert!(numeric_token("NaN"));
    assert!(numeric_token("nan"));
}

#[test]
fn rejects_non_numbers() {
    assert!(!numeric_token(""));
    assert!(!numeric_token("."));
    assert!(!numeric_token("+"));
    assert!(!numeric_token("e5"));
    assert!(!numeric_token("1e"));
    assert!(!numeric_token("1e+"));
    assert!(!numeric_token("--1"));
    assert!(!numeric_token("1.2.3"));
    assert!(!numeric_token("abc"));
    assert!(!numeric_token("0x10"));
    assert!(!numeric_token("1 2"));
    assert!(!numeric_token("infini"));
}

#[test]
fn matches_standard_parser_on_samples() {
    let samples = [
        "", ".", "+", "-", "0", "1", "-1.5", "+0.25", "1.", ".5", "+.5", "1e10", "1E-3",
        "2.5e+7", ".5e1", "1e", "1e+", "--1", "1.2.3", "abc", "0x10", "inf", "-inf",
        "Infinity", "NaN", "nan", "infini", "1_000", " 1", "1 ", "3.14159", "6.02e23",
        "1e999", "-0",
    ];
    for s in samples {
        assert_eq!(
            numeric_token(s),
            s.parse::<f64>().is_ok(),
            "disagreement on {:?}",
            s
        );
    }
}

#[test]
fn tokenize_splits_on_whitespace_and_commas() {
    let toks = tokenize("a b,c  d,\t e");
    assert_eq!(toks, vec!["a", "b", "c", "d", "e"]);
}

#[test]
fn tokenize_discards_empty_tokens() {
    let toks = tokenize(" , ,, ");
    assert!(toks.is_empty());
    let toks2 = tokenize("");
    assert!(toks2.is_empty());
}
