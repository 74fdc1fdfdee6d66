use amber_parser::diagnostic::{ErrorKind, Severity};
use amber_parser::expr::Expr;
use amber_parser::literal::parse_interpolated_region;
use amber_parser::metadata::ParserMetadata;
use amber_parser::token::Token;

fn sc_chars(s: &str) -> Vec<char> {
    s.chars().collect()
}

fn sc_meta(words: &[&str]) -> ParserMetadata {
    let mut tokens: Vec<Token> = Vec::new();
    for (i, w) in words.iter().enumerate() {
        tokens.push(Token::new(sc_chars(w), i));
    }
    ParserMetadata::new(tokens)
}

#[test]
fn fast_path_single_wrapped_token() {
    let mut meta = sc_meta(&["\"abc\""]);
    let (strings, interps) = parse_interpolated_region(&mut meta, '"').unwrap();
    assert_eq!(strings, vec![sc_chars("abc")]);
    assert_eq!(interps.len(), 0);
    assert_eq!(meta.get_index(), 1);
}

#[test]
fn fast_path_empty_literal() {
    let mut meta = sc_meta(&["\"\""]);
    let (strings, interps) = parse_interpolated_region(&mut meta, '"').unwrap();
    assert_eq!(strings, vec![sc_chars("")]);
    assert_eq!(interps.len(), 0);
}

#[test]
fn interpolation_with_declared_name() {
    let mut meta = sc_meta(&["\"hello ", "{", "name", "}", " !\""]);
    meta.var_mem.push_scope();
    meta.var_mem.add_variable(sc_chars("name"));
    let (strings, interps) = parse_interpolated_region(&mut meta, '"').unwrap();
    assert_eq!(strings, vec![sc_chars("hello "), sc_chars(" !")]);
    assert_eq!(interps.len(), 1);
    assert_eq!(strings.len(), interps.len() + 1);
    match &interps[0] {
        Expr::Var(v) => assert_eq!(v.name, sc_chars("name")),
        _ => panic!("expected a variable expression"),
    }
    for seg in &strings {
        assert!(!seg.contains(&'{'));
        assert!(!seg.contains(&'}'));
    }
    assert_eq!(meta.get_index(), 5);
}

#[test]
fn interpolation_with_number() {
    let mut meta = sc_meta(&["\"x", "{", "7", "}", "y\""]);
    let (strings, interps) = parse_interpolated_region(&mut meta, '"').unwrap();
    assert_eq!(strings, vec![sc_chars("x"), sc_chars("y")]);
    assert_eq!(interps.len(), 1);
    match &interps[0] {
        Expr::Number(n) => assert_eq!(n.word, sc_chars("7")),
        _ => panic!("expected a number expression"),
    }
}

#[test]
fn raw_tokens_append_to_current_segment() {
    let mut meta = sc_meta(&["\"ab", "cd\""]);
    let (strings, interps) = parse_interpolated_region(&mut meta, '"').unwrap();
    assert_eq!(strings, vec![sc_chars("abcd")]);
    assert_eq!(interps.len(), 0);
    assert_eq!(meta.get_index(), 2);
}

#[test]
fn interpolated_inequality_nests() {
    let mut meta = sc_meta(&["\"a", "{", "1", "!=", "1", "}", "b\""]);
    let (strings, interps) = parse_interpolated_region(&mut meta, '"').unwrap();
    assert_eq!(strings, vec![sc_chars("a"), sc_chars("b")]);
    assert_eq!(interps.len(), 1);
    assert!(matches!(interps[0], Expr::Neq(_)));
    assert_eq!(meta.get_index(), 7);
}

#[test]
fn interpolated_mismatch_propagates() {
    let mut meta = sc_meta(&["\"a", "{", "1", "!=", "\"x\"", "}", "b\""]);
    let err = parse_interpolated_region(&mut meta, '"').unwrap_err();
    assert!(matches!(err.kind, ErrorKind::TypeMismatch(_, _)));
    assert_eq!(err.position, Some(3));
}

#[test]
fn right_brace_in_raw_text_stays_text() {
    let mut meta = sc_meta(&["\"a", "}", "b\""]);
    let (strings, interps) = parse_interpolated_region(&mut meta, '"').unwrap();
    assert_eq!(strings, vec![sc_chars("a}b")]);
    assert_eq!(interps.len(), 0);
}

#[test]
fn left_brace_inside_interpolation_fails() {
    let mut meta = sc_meta(&["\"a", "{", "{", "}", "b\""]);
    let err = parse_interpolated_region(&mut meta, '"').unwrap_err();
    assert_eq!(err.kind, ErrorKind::UnexpectedToken);
}

#[test]
fn unterminated_literal_fails() {
    let mut meta = sc_meta(&["\"unterminated"]);
    let err = parse_interpolated_region(&mut meta, '"').unwrap_err();
    assert_eq!(err.kind, ErrorKind::UnterminatedLiteral);
    assert_eq!(err.position, Some(0));
    assert_eq!(err.severity, Severity::Error);
}

#[test]
fn unterminated_literal_anchors_at_last_token() {
    let mut meta = sc_meta(&["\"a", "b"]);
    let err = parse_interpolated_region(&mut meta, '"').unwrap_err();
    assert_eq!(err.kind, ErrorKind::UnterminatedLiteral);
    assert_eq!(err.position, Some(1));
}

#[test]
fn empty_input_is_end_of_input() {
    let mut meta = sc_meta(&[]);
    let err = parse_interpolated_region(&mut meta, '"').unwrap_err();
    assert_eq!(err.kind, ErrorKind::EndOfInput);
    assert_eq!(err.position, None);
}

#[test]
fn missing_delimiter_is_unexpected_token() {
    let mut meta = sc_meta(&["abc"]);
    let err = parse_interpolated_region(&mut meta, '"').unwrap_err();
    assert_eq!(err.kind, ErrorKind::UnexpectedToken);
    assert_eq!(err.position, Some(0));
    assert_eq!(meta.get_index(), 0);
}

#[test]
fn undeclared_interpolated_name_fails() {
    let mut meta = sc_meta(&["\"a", "{", "zzz", "}", "b\""]);
    let err = parse_interpolated_region(&mut meta, '"').unwrap_err();
    assert_eq!(err.kind, ErrorKind::UnexpectedToken);
}
