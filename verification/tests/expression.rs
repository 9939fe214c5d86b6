use sermo::parser::expression::{get_capture_value, parse_capture_reference, Expr};
use sermo::parser::extraction::ExtractionResult;
use sermo::{Error, Number};

fn num(s: &str) -> Number {
    Number::from_text(s.to_string()).unwrap()
}

fn extraction(captures: &[&str]) -> ExtractionResult {
    ExtractionResult { captures: captures.iter().map(|s| s.to_string()).collect() }
}

#[test]
fn test_parse_capture_reference() {
    let ex = extraction(&["full", "42.5"]);
    let expr = Expr::new("$1").eval(&ex).unwrap();
    match expr {
        Expr::Value(n) => assert_eq!(n.as_text().parse::<f64>().unwrap(), 42.5),
        _ => panic!("Expected Value"),
    }
}

#[test]
fn test_parse_string_reference() {
    let ex = extraction(&["full", "hello"]);
    let expr = Expr::new("$1").eval(&ex).unwrap();
    match expr {
        Expr::Str(s) => assert_eq!(s, "hello"),
        _ => panic!("Expected Str"),
    }
}

#[test]
fn test_parse_numeric_literal() {
    let ex = extraction(&[]);
    let expr = Expr::new("42.5").eval(&ex).unwrap();
    match expr {
        Expr::Value(n) => assert_eq!(n.as_text().parse::<f64>().unwrap(), 42.5),
        _ => panic!("Expected Value"),
    }
}

#[test]
fn test_parse_string_literal() {
    let ex = extraction(&[]);
    let expr = Expr::new("hello").eval(&ex).unwrap();
    match expr {
        Expr::Str(s) => assert_eq!(s, "hello"),
        _ => panic!("Expected Str"),
    }
}

#[test]
fn test_eval_f64() {
    let expr = Expr::Value(num("42.5"));
    let n = expr.to_number().unwrap();
    assert_eq!(n.as_text().parse::<f64>().unwrap(), 42.5);
}

#[test]
fn test_eval_string() {
    let expr = Expr::Value(num("42.5"));
    assert_eq!(expr.to_text().unwrap(), "42.5");
}

#[test]
fn test_display_string_expr() {
    let expr = Expr::Str("hello".to_string());
    assert_eq!(expr.to_text().unwrap(), "hello");
}

#[test]
fn test_invalid_capture_reference() {
    let ex = extraction(&["full", "42"]);
    let result = Expr::new("$5").eval(&ex);
    assert!(result.is_err());
}

#[test]
fn short_capture_list_fails_with_capture_not_found() {
    // $3 against three captures: index 3 is out of range.
    let ex = extraction(&["a", "b", "c"]);
    let result = Expr::new("$3").eval(&ex);
    assert!(matches!(result, Err(Error::ParseError(_))));
}

#[test]
fn ref_resolves_numeric_capture_to_value() {
    let ex = extraction(&["w", "x", "y", "12.5"]);
    match Expr::new("$3").eval(&ex).unwrap() {
        Expr::Value(n) => assert_eq!(n.as_text().parse::<f64>().unwrap(), 12.5),
        _ => panic!("Expected Value"),
    }
}

#[test]
fn ref_falls_back_to_string_for_non_numeric_capture() {
    let ex = extraction(&["w", "x", "y", "abc"]);
    match Expr::new("$3").eval(&ex).unwrap() {
        Expr::Str(s) => assert_eq!(s, "abc"),
        _ => panic!("Expected Str"),
    }
}

#[test]
fn literal_ignores_extraction_contents() {
    for caps in [&[] as &[&str], &["1"], &["x", "y"]] {
        let ex = extraction(caps);
        match Expr::new("42.5").eval(&ex).unwrap() {
            Expr::Value(n) => assert_eq!(n.as_text().parse::<f64>().unwrap(), 42.5),
            _ => panic!("Expected Value"),
        }
    }
}

#[test]
fn whole_match_is_referencable_as_dollar_zero() {
    let ex = extraction(&["7.5", "x"]);
    match Expr::new("$0").eval(&ex).unwrap() {
        Expr::Value(n) => assert_eq!(n.as_text(), "7.5"),
        _ => panic!("Expected Value"),
    }
}

#[test]
fn expression_trim_covers_unicode_whitespace() {
    let ex = extraction(&[]);
    // A leading no-break space is trimmed, so this is the numeric
    // literal 1, not a string literal.
    match Expr::new("\u{a0}1").eval(&ex).unwrap() {
        Expr::Value(n) => assert_eq!(n.as_text().parse::<f64>().unwrap(), 1.0),
        _ => panic!("Expected Value"),
    }
    let ex = extraction(&["full", "8.5"]);
    match Expr::new("\u{2028}$1\u{3000}").eval(&ex).unwrap() {
        Expr::Value(n) => assert_eq!(n.as_text(), "8.5"),
        _ => panic!("Expected Value"),
    }
}

#[test]
fn expression_text_is_trimmed_before_parsing() {
    let ex = extraction(&["full", "9.5"]);
    match Expr::new("  $1  ").eval(&ex).unwrap() {
        Expr::Value(n) => assert_eq!(n.as_text(), "9.5"),
        _ => panic!("Expected Value"),
    }
    match Expr::new("  hi there  ").eval(&ex).unwrap() {
        Expr::Str(s) => assert_eq!(s, "hi there"),
        _ => panic!("Expected Str"),
    }
}

#[test]
fn unevaluated_reference_converts_to_neither_number_nor_text() {
    let expr = Expr::Ref(1);
    assert!(matches!(expr.to_number(), Err(Error::ParseError(_))));
    assert!(matches!(expr.to_text(), Err(Error::ParseError(_))));
}

#[test]
fn string_expr_converts_to_number_by_reparsing() {
    assert_eq!(
        Expr::Str("3.25".to_string()).to_number().unwrap().as_text().parse::<f64>().unwrap(),
        3.25
    );
    assert!(matches!(
        Expr::Str("three".to_string()).to_number(),
        Err(Error::ParseError(_))
    ));
}

#[test]
fn parse_capture_reference_accepts_only_dollar_and_index() {
    assert_eq!(parse_capture_reference("$1"), Some(1));
    assert_eq!(parse_capture_reference("$0"), Some(0));
    assert_eq!(parse_capture_reference("$12"), Some(12));
    assert_eq!(parse_capture_reference("$+3"), Some(3));
    assert_eq!(parse_capture_reference("$"), None);
    assert_eq!(parse_capture_reference("$x"), None);
    assert_eq!(parse_capture_reference("$1.5"), None);
    assert_eq!(parse_capture_reference("$-1"), None);
    assert_eq!(parse_capture_reference("1"), None);
    assert_eq!(parse_capture_reference("$99999999999999999999999999"), None);
}

#[test]
fn get_capture_value_fetches_by_index() {
    let caps: Vec<String> = vec!["a".to_string(), "b".to_string()];
    assert_eq!(get_capture_value(&caps, 1).unwrap(), "b");
    assert!(matches!(get_capture_value(&caps, 2), Err(Error::ParseError(_))));
}

#[test]
fn number_grammar_acceptance() {
    for ok in ["42.5", "65", "1e5", "+.5e-2", "5.", ".5", "-12.25", "inf", "NaN", "Infinity",
        "-inf", "3E+4"] {
        assert!(Number::from_text(ok.to_string()).is_some(), "{ok}");
    }
    for bad in ["", ".", "1e", "abc", " 42", "42 ", "$1", "1.2.3", "e5", "+", "inf5", "0x10"] {
        assert!(Number::from_text(bad.to_string()).is_none(), "{bad}");
    }
}
