use amber_parser::block::Block;
use amber_parser::diagnostic::ErrorKind;
use amber_parser::expr::Expr;
use amber_parser::metadata::ParserMetadata;
use amber_parser::token::Token;
use amber_parser::types::{Type, Typed};

fn op_chars(s: &str) -> Vec<char> {
    s.chars().collect()
}

fn op_meta(words: &[&str]) -> ParserMetadata {
    let mut tokens: Vec<Token> = Vec::new();
    for (i, w) in words.iter().enumerate() {
        tokens.push(Token::new(op_chars(w), i));
    }
    ParserMetadata::new(tokens)
}

#[test]
fn inequality_of_matching_types_is_bool() {
    let mut meta = op_meta(&["1", "!=", "1"]);
    let mut block = Block::new();
    block.parse(&mut meta).unwrap();
    assert_eq!(block.statements.len(), 1);
    match &block.statements[0].expr {
        Expr::Neq(n) => {
            assert_eq!(n.get_type(), Type::Bool);
            assert!(matches!(*n.left, Expr::Number(_)));
            assert!(matches!(*n.right, Expr::Number(_)));
        },
        _ => panic!("expected an inequality node"),
    }
}

#[test]
fn inequality_of_mismatched_types_fails() {
    let mut meta = op_meta(&["1", "!=", "\"x\""]);
    let mut block = Block::new();
    let err = block.parse(&mut meta).unwrap_err();
    assert_eq!(err.kind, ErrorKind::TypeMismatch(Type::Num, Type::Text));
    assert_eq!(err.position, Some(1));
}

#[test]
fn inequality_of_booleans() {
    let mut meta = op_meta(&["true", "!=", "false"]);
    let mut block = Block::new();
    block.parse(&mut meta).unwrap();
    assert_eq!(block.statements.len(), 1);
    assert_eq!(block.statements[0].expr.get_type(), Type::Bool);
}

#[test]
fn nested_inequality_mismatches_on_result_type() {
    let mut meta = op_meta(&["1", "!=", "2", "!=", "3"]);
    let mut block = Block::new();
    let err = block.parse(&mut meta).unwrap_err();
    assert_eq!(err.kind, ErrorKind::TypeMismatch(Type::Num, Type::Bool));
    assert_eq!(err.position, Some(1));
}

#[test]
fn variable_against_text_literal_matches() {
    let mut meta = op_meta(&["name", "!=", "\"x\""]);
    meta.var_mem.push_scope();
    meta.var_mem.add_variable(op_chars("name"));
    let mut block = Block::new();
    block.parse(&mut meta).unwrap();
    assert_eq!(block.statements.len(), 1);
    assert_eq!(block.statements[0].expr.get_type(), Type::Bool);
}

#[test]
fn boolean_against_number_mismatches() {
    let mut meta = op_meta(&["true", "!=", "1"]);
    let mut block = Block::new();
    let err = block.parse(&mut meta).unwrap_err();
    assert_eq!(err.kind, ErrorKind::TypeMismatch(Type::Bool, Type::Num));
    assert_eq!(err.position, Some(1));
}

#[test]
fn dangling_operator_fails() {
    let mut meta = op_meta(&["1", "!="]);
    let mut block = Block::new();
    let err = block.parse(&mut meta).unwrap_err();
    assert_eq!(err.kind, ErrorKind::UnexpectedToken);
    assert_eq!(err.position, Some(1));
}
