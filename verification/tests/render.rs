use gl_fmt::ast::{AbstractSyntaxTree, Block, Expression, Literal, Statement};
use gl_fmt::render::Format;

fn int_lit(n: i64) -> Expression {
    Expression::Literal(Literal::Integer(n))
}

fn ident(name: &str) -> Expression {
    Expression::Identifier(name.to_string())
}

fn tree(statements: Vec<Statement>) -> AbstractSyntaxTree {
    AbstractSyntaxTree { statements }
}

#[test]
fn run_empty_tree_renders_empty_block() {
    let mut f = Format::new();
    assert_eq!(f.run(tree(vec![])), "{}");
}

#[test]
fn block_two_statements_tab_indented() {
    let mut f = Format::new();
    let out = f.run(tree(vec![
        Statement::Let("x".to_string(), int_lit(1)),
        Statement::ExpressionReturn(ident("x")),
    ]));
    assert_eq!(out, "{\n\tlet x = 1;\n\tx\n}");
}

#[test]
fn repeated_render_is_byte_identical() {
    let build = || {
        tree(vec![
            Statement::Expression(Expression::Literal(Literal::Null)),
            Statement::Expression(Expression::Literal(Literal::Boolean(true))),
            Statement::Expression(int_lit(7)),
        ])
    };
    let mut f = Format::new();
    let first = f.run(build());
    let second = f.run(build());
    let mut fresh = Format::new();
    let third = fresh.run(build());
    assert_eq!(first, second);
    assert_eq!(first, third);
    assert_eq!(first, "{\n\tnull;\n\ttrue;\n\t7;\n}");
}

#[test]
fn nested_blocks_add_one_indent_unit_per_depth() {
    let inner = Statement::Fn {
        name: "i".to_string(),
        params: vec![],
        body: Block(vec![Statement::Let("x".to_string(), int_lit(1))]),
    };
    let outer = Statement::Fn {
        name: "o".to_string(),
        params: vec![],
        body: Block(vec![inner]),
    };
    let mut f = Format::new();
    let out = f.run(tree(vec![outer]));
    assert_eq!(out, "{\n\tfn o() {\n\t\tfn i() {\n\t\t\tlet x = 1;\n\t\t}\n\t}\n}");
}

#[test]
fn space_indentation_uses_configured_width() {
    let mut f = Format { hard_tabs: false, tab_spaces: 2, indent_size: 0 };
    let out = f.run(tree(vec![
        Statement::Let("x".to_string(), int_lit(1)),
        Statement::ExpressionReturn(ident("x")),
    ]));
    assert_eq!(out, "{\n  let x = 1;\n  x\n}");
}

#[test]
fn starting_depth_shifts_every_line() {
    let mut f = Format { hard_tabs: true, tab_spaces: 4, indent_size: 1 };
    let out = f.run(tree(vec![Statement::Let("x".to_string(), int_lit(1))]));
    assert_eq!(out, "{\n\t\tlet x = 1;\n\t}");
}

#[test]
fn integer_rendering_exact() {
    let mut f = Format::new();
    let out = f.run(tree(vec![
        Statement::Expression(int_lit(0)),
        Statement::Expression(int_lit(-42)),
        Statement::Expression(int_lit(i64::MAX)),
        Statement::Expression(int_lit(i64::MIN)),
    ]));
    assert_eq!(
        out,
        "{\n\t0;\n\t-42;\n\t9223372036854775807;\n\t-9223372036854775808;\n}"
    );
}

#[test]
fn float_rendering_is_exact_decimal() {
    let float = |m: i64, s: u32| Statement::Expression(Expression::Literal(Literal::Float(m, s)));
    let mut f = Format::new();
    let out = f.run(tree(vec![
        float(314, 2),
        float(-5, 1),
        float(5, 0),
        float(100, 2),
        float(-1234567890123456789, 18),
    ]));
    assert_eq!(
        out,
        "{\n\t3.14;\n\t-0.5;\n\t5;\n\t1.00;\n\t-1.234567890123456789;\n}"
    );
}

#[test]
fn float_rendering_with_more_fraction_digits_than_magnitude() {
    let mut f = Format::new();
    let out = f.run(tree(vec![Statement::Expression(Expression::Literal(
        Literal::Float(7, 25),
    ))]));
    assert_eq!(out, "{\n\t0.0000000000000000000000007;\n}");
}

#[test]
fn string_payload_is_embedded_verbatim() {
    let mut f = Format::new();
    let out = f.run(tree(vec![Statement::Expression(Expression::Literal(
        Literal::String("he\"llo".to_string()),
    ))]));
    assert_eq!(out, "{\n\t\"he\"llo\";\n}");
}

#[test]
fn prefix_operator_is_adjacent() {
    let mut f = Format::new();
    let out = f.run(tree(vec![Statement::Expression(Expression::Prefix(
        "-".to_string(),
        Box::new(ident("x")),
    ))]));
    assert_eq!(out, "{\n\t-x;\n}");
}

#[test]
fn infix_operator_is_spaced() {
    let mut f = Format::new();
    let out = f.run(tree(vec![Statement::Expression(Expression::Infix(
        "+".to_string(),
        Box::new(int_lit(1)),
        Box::new(int_lit(2)),
    ))]));
    assert_eq!(out, "{\n\t1 + 2;\n}");
}

#[test]
fn call_and_index_rendering() {
    let call = Expression::Call {
        function: Box::new(ident("f")),
        arguments: vec![ident("x"), int_lit(1)],
    };
    let index = Expression::Index(Box::new(ident("a")), Box::new(int_lit(0)));
    let mut f = Format::new();
    let out = f.run(tree(vec![
        Statement::Expression(call),
        Statement::Expression(index),
    ]));
    assert_eq!(out, "{\n\tf(x, 1);\n\ta[0];\n}");
}

#[test]
fn anonymous_function_rendering() {
    let lambda = Expression::Fn {
        params: vec!["a".to_string()],
        body: Block(vec![]),
    };
    let mut f = Format::new();
    let out = f.run(tree(vec![Statement::Let("g".to_string(), lambda)]));
    assert_eq!(out, "{\n\tlet g = fn (a) {};\n}");
}

#[test]
fn vec_and_tuple_literals_nest() {
    let pair = Expression::Literal(Literal::Tuple(vec![int_lit(1), int_lit(2)]));
    let list = Expression::Literal(Literal::Vec(vec![pair, int_lit(3)]));
    let mut f = Format::new();
    let out = f.run(tree(vec![Statement::Expression(list)]));
    assert_eq!(out, "{\n\t[(1, 2), 3];\n}");
}

#[test]
fn hashmap_literal_keeps_insertion_order() {
    let map = Expression::Literal(Literal::HashMap(vec![
        (Expression::Literal(Literal::String("a".to_string())), int_lit(1)),
        (ident("k"), int_lit(2)),
    ]));
    let mut f = Format::new();
    let out = f.run(tree(vec![Statement::Expression(map)]));
    assert_eq!(out, "{\n\t{\"a\": 1, k: 2};\n}");
}

#[test]
fn import_statement_rendering() {
    let mut f = Format::new();
    let out = f.run(tree(vec![Statement::Import("std".to_string())]));
    assert_eq!(out, "{\n\timport \"std\";\n}");
}
