use gl_fmt::ast::{Block, Expression, Literal, ParseError, Statement};
use gl_fmt::render::Format;
use gl_fmt::source::Parser;

fn int_lit(n: i64) -> Expression {
    Expression::Literal(Literal::Integer(n))
}

#[test]
fn draining_three_statements_concatenates_their_lines() {
    let parser = Parser::new(
        vec![
            Statement::Import("m".to_string()),
            Statement::Let("x".to_string(), int_lit(5)),
            Statement::Expression(Expression::Identifier("x".to_string())),
        ],
        None,
    );
    let mut f = Format::new();
    let out = f.run_with_parser(parser).unwrap();
    assert_eq!(out, "import \"m\";\nlet x = 5;\nx;\n");
}

#[test]
fn draining_empty_source_gives_empty_text() {
    let mut f = Format::new();
    let out = f.run_with_parser(Parser::new(vec![], None)).unwrap();
    assert_eq!(out, "");
}

#[test]
fn let_statement_line_exact() {
    let parser = Parser::new(vec![Statement::Let("x".to_string(), int_lit(5))], None);
    let mut f = Format::new();
    assert_eq!(f.run_with_parser(parser).unwrap(), "let x = 5;\n");
}

#[test]
fn named_function_with_empty_block_line_exact() {
    let parser = Parser::new(
        vec![Statement::Fn {
            name: "f".to_string(),
            params: vec!["a".to_string(), "b".to_string()],
            body: Block(vec![]),
        }],
        None,
    );
    let mut f = Format::new();
    assert_eq!(f.run_with_parser(parser).unwrap(), "fn f(a, b) {}\n");
}

#[test]
fn empty_collections_render_without_whitespace() {
    let parser = Parser::new(
        vec![
            Statement::ExpressionReturn(Expression::Literal(Literal::Vec(vec![]))),
            Statement::ExpressionReturn(Expression::Literal(Literal::Tuple(vec![]))),
            Statement::ExpressionReturn(Expression::Literal(Literal::HashMap(vec![]))),
        ],
        None,
    );
    let mut f = Format::new();
    assert_eq!(f.run_with_parser(parser).unwrap(), "[]\n()\n{}\n");
}

#[test]
fn failure_on_second_pull_discards_first_statement() {
    let parser = Parser::new(
        vec![Statement::Let("x".to_string(), int_lit(1))],
        Some(ParseError { message: "unexpected token".to_string() }),
    );
    let mut f = Format::new();
    let result = f.run_with_parser(parser);
    assert!(result.is_err());
    assert_eq!(result.unwrap_err().message, "unexpected token");
}

#[test]
fn failure_on_first_pull_propagates() {
    let parser = Parser::new(
        vec![],
        Some(ParseError { message: "eof".to_string() }),
    );
    let mut f = Format::new();
    assert_eq!(f.run_with_parser(parser).unwrap_err().message, "eof");
}

#[test]
fn streamed_statements_render_nested_blocks_at_starting_depth() {
    let parser = Parser::new(
        vec![Statement::Fn {
            name: "f".to_string(),
            params: vec![],
            body: Block(vec![Statement::Let("y".to_string(), int_lit(2))]),
        }],
        None,
    );
    let mut f = Format { hard_tabs: true, tab_spaces: 4, indent_size: 1 };
    assert_eq!(f.run_with_parser(parser).unwrap(), "fn f() {\n\t\tlet y = 2;\n\t}\n");
}
