use amber_parser::block::Block;
use amber_parser::metadata::ParserMetadata;
use amber_parser::scope::ScopeStack;
use amber_parser::token::Token;

fn sp_chars(s: &str) -> Vec<char> {
    s.chars().collect()
}

#[test]
fn name_declared_in_popped_scope_is_invisible() {
    let mut s = ScopeStack::new();
    s.push_scope();
    s.add_variable(sp_chars("outer"));
    s.push_scope();
    s.add_variable(sp_chars("inner"));
    assert!(s.variable_exists(&sp_chars("inner")));
    assert!(s.variable_exists(&sp_chars("outer")));
    s.pop_scope();
    assert!(!s.variable_exists(&sp_chars("inner")));
    assert!(s.variable_exists(&sp_chars("outer")));
    assert_eq!(s.depth(), 1);
}

#[test]
fn lookup_misses_on_empty_stack() {
    let s = ScopeStack::new();
    assert!(!s.variable_exists(&sp_chars("anything")));
    assert_eq!(s.depth(), 0);
}

#[test]
fn block_parse_pushes_and_pops_exactly_once() {
    let mut tokens: Vec<Token> = Vec::new();
    tokens.push(Token::new(sp_chars("x"), 0));
    let mut meta = ParserMetadata::new(tokens);
    meta.var_mem.push_scope();
    meta.var_mem.add_variable(sp_chars("x"));
    assert_eq!(meta.var_mem.depth(), 1);
    let mut block = Block::new();
    block.parse(&mut meta).unwrap();
    assert_eq!(meta.var_mem.depth(), 1);
    assert!(meta.var_mem.variable_exists(&sp_chars("x")));
}

#[test]
fn block_pops_its_scope_on_failure_too() {
    let mut tokens: Vec<Token> = Vec::new();
    tokens.push(Token::new(sp_chars("@@@"), 0));
    let mut meta = ParserMetadata::new(tokens);
    assert_eq!(meta.var_mem.depth(), 0);
    let mut block = Block::new();
    assert!(block.parse(&mut meta).is_err());
    assert_eq!(meta.var_mem.depth(), 0);
}

#[test]
fn outer_declaration_is_visible_inside_block() {
    let mut tokens: Vec<Token> = Vec::new();
    tokens.push(Token::new(sp_chars("greeting"), 0));
    let mut meta = ParserMetadata::new(tokens);
    meta.var_mem.push_scope();
    meta.var_mem.add_variable(sp_chars("greeting"));
    let mut block = Block::new();
    block.parse(&mut meta).unwrap();
    assert_eq!(block.statements.len(), 1);
}
