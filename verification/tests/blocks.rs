use amber_parser::block::Block;
use amber_parser::diagnostic::ErrorKind;
use amber_parser::expr::Expr;
use amber_parser::metadata::ParserMetadata;
use amber_parser::token::Token;
use amber_parser::types::{Type, Typed};

fn bl_chars(s: &str) -> Vec<char> {
    s.chars().collect()
}

fn bl_meta(words: &[&str]) -> ParserMetadata {
    let mut tokens: Vec<Token> = Vec::new();
    for (i, w) in words.iter().enumerate() {
        tokens.push(Token::new(bl_chars(w), i));
    }
    ParserMetadata::new(tokens)
}

#[test]
fn empty_block_has_zero_statements() {
    let mut meta = bl_meta(&[]);
    let mut block = Block::new();
    block.parse(&mut meta).unwrap();
    assert_eq!(block.statements.len(), 0);
    assert_eq!(meta.get_index(), 0);
}

#[test]
fn block_sequences_statements_in_order() {
    let mut meta = bl_meta(&["1", "2", "true"]);
    let mut block = Block::new();
    block.parse(&mut meta).unwrap();
    assert_eq!(block.statements.len(), 3);
    assert_eq!(block.statements[0].expr.get_type(), Type::Num);
    assert_eq!(block.statements[1].expr.get_type(), Type::Num);
    assert_eq!(block.statements[2].expr.get_type(), Type::Bool);
    assert_eq!(meta.get_index(), 3);
}

#[test]
fn block_consumes_text_literal_statement() {
    let mut meta = bl_meta(&["\"plain\""]);
    let mut block = Block::new();
    block.parse(&mut meta).unwrap();
    assert_eq!(block.statements.len(), 1);
    match &block.statements[0].expr {
        Expr::Text(t) => {
            assert_eq!(t.strings, vec![bl_chars("plain")]);
            assert_eq!(t.interps.len(), 0);
        },
        _ => panic!("expected a text literal"),
    }
}

#[test]
fn first_failure_terminates_the_block_parse() {
    let mut meta = bl_meta(&["1", "@@@", "2"]);
    let mut block = Block::new();
    let err = block.parse(&mut meta).unwrap_err();
    assert_eq!(err.kind, ErrorKind::UnexpectedToken);
    assert_eq!(err.position, Some(1));
}

#[test]
fn undeclared_statement_name_fails() {
    let mut meta = bl_meta(&["nobody"]);
    let mut block = Block::new();
    let err = block.parse(&mut meta).unwrap_err();
    assert_eq!(err.kind, ErrorKind::UnexpectedToken);
    assert_eq!(err.position, Some(0));
}
