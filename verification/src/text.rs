//! The specification of the rendered text.
//!
//! These functions say, as mathematical functions over the tree and the
//! formatting configuration, exactly which sequence of characters each node
//! renders to.  The executable renderer in [`crate::render`] is proved to
//! produce these sequences, and the laws in [`crate::props`] are stated over
//! them.

use vstd::prelude::*;
use crate::ast::{Literal, Expression, Statement, Block, AbstractSyntaxTree};
use crate::digits::{int_text, float_text, char_run};
use crate::render::Format;

verus! {

/// One indentation unit: a tab character, or a fixed run of spaces.
pub open spec fn indent_unit(fmt: Format) -> Seq<char> {
    if fmt.hard_tabs {
        seq!['\t']
    } else {
        char_run(' ', fmt.tab_spaces as nat)
    }
}

/// The prefix for a line at nesting depth `d`: `d` indentation units.
pub open spec fn indent_text(fmt: Format, d: nat) -> Seq<char>
    decreases d,
{
    if d == 0 {
        Seq::empty()
    } else {
        indent_text(fmt, (d - 1) as nat) + indent_unit(fmt)
    }
}

/// The text of a literal at nesting depth `d`.
pub open spec fn lit_text(fmt: Format, l: Literal, d: nat) -> Seq<char>
    decreases l,
{
    match l {
        Literal::Null => "null"@,
        Literal::Integer(i) => int_text(i as int),
        Literal::Float(m, s) => float_text(m as int, s as nat),
        Literal::Boolean(b) => if b {
            "true"@
        } else {
            "false"@
        },
        Literal::String(s) => seq!['"'] + s@ + seq!['"'],
        Literal::Vec(v) => seq!['['] + exprs_text(fmt, v@, d) + seq![']'],
        Literal::Tuple(v) => seq!['('] + exprs_text(fmt, v@, d) + seq![')'],
        Literal::HashMap(m) => seq!['{'] + pairs_text(fmt, m@, d) + seq!['}'],
    }
}

/// Comma-and-space joined expressions, with no trailing separator.
pub open spec fn exprs_text(fmt: Format, s: Seq<Expression>, d: nat) -> Seq<char>
    decreases s,
{
    if s.len() == 0 {
        Seq::empty()
    } else if s.len() == 1 {
        expr_text(fmt, s[0], d)
    } else {
        expr_text(fmt, s[0], d) + ", "@ + exprs_text(fmt, s.drop_first(), d)
    }
}

/// Comma-and-space joined `key: value` pairs, in order.
pub open spec fn pairs_text(fmt: Format, s: Seq<(Expression, Expression)>, d: nat) -> Seq<char>
    decreases s,
{
    if s.len() == 0 {
        Seq::empty()
    } else if s.len() == 1 {
        expr_text(fmt, s[0].0, d) + ": "@ + expr_text(fmt, s[0].1, d)
    } else {
        expr_text(fmt, s[0].0, d) + ": "@ + expr_text(fmt, s[0].1, d) + ", "@
            + pairs_text(fmt, s.drop_first(), d)
    }
}

/// Comma-and-space joined parameter names, with no trailing separator.
pub open spec fn params_text(s: Seq<String>) -> Seq<char>
    decreases s,
{
    if s.len() == 0 {
        Seq::empty()
    } else if s.len() == 1 {
        s[0]@
    } else {
        s[0]@ + ", "@ + params_text(s.drop_first())
    }
}

/// The text of an expression at nesting depth `d`.
pub open spec fn expr_text(fmt: Format, e: Expression, d: nat) -> Seq<char>
    decreases e,
{
    match e {
        Expression::Identifier(name) => name@,
        Expression::Literal(l) => lit_text(fmt, l, d),
        Expression::Prefix(op, rhs) => op@ + expr_text(fmt, *rhs, d),
        Expression::Infix(op, lhs, rhs) => expr_text(fmt, *lhs, d) + seq![' '] + op@ + seq![' ']
            + expr_text(fmt, *rhs, d),
        Expression::Fn { params, body } => "fn ("@ + params_text(params@) + ") "@
            + block_text(fmt, body, d),
        Expression::Call { function, arguments } => expr_text(fmt, *function, d) + seq!['(']
            + exprs_text(fmt, arguments@, d) + seq![')'],
        Expression::Index(target, index) => expr_text(fmt, *target, d) + seq!['[']
            + expr_text(fmt, *index, d) + seq![']'],
    }
}

/// The text of a statement at nesting depth `d`, without the trailing
/// newline.
pub open spec fn stmt_text(fmt: Format, s: Statement, d: nat) -> Seq<char>
    decreases s,
{
    match s {
        Statement::Let(name, value) => "let "@ + name@ + " = "@ + expr_text(fmt, value, d)
            + seq![';'],
        Statement::Expression(e) => expr_text(fmt, e, d) + seq![';'],
        Statement::ExpressionReturn(e) => expr_text(fmt, e, d),
        Statement::Fn { name, params, body } => "fn "@ + name@ + seq!['(']
            + params_text(params@) + ") "@ + block_text(fmt, body, d),
        Statement::Import(name) => "import \""@ + name@ + "\";"@,
    }
}

/// The statements of a block body, each on its own line: for every
/// statement, the indentation prefix for depth `d`, the statement's text at
/// depth `d`, and a newline.
pub open spec fn stmts_text(fmt: Format, s: Seq<Statement>, d: nat) -> Seq<char>
    decreases s,
{
    if s.len() == 0 {
        Seq::empty()
    } else {
        indent_text(fmt, d) + stmt_text(fmt, s[0], d) + seq!['\n']
            + stmts_text(fmt, s.drop_first(), d)
    }
}

/// The text of a block standing at nesting depth `d`: `{}` when empty;
/// otherwise an opening brace, the statement lines at depth `d + 1`, and a
/// closing brace on its own line at depth `d`.
pub open spec fn block_text(fmt: Format, b: Block, d: nat) -> Seq<char>
    decreases b,
{
    if b.0@.len() == 0 {
        "{}"@
    } else {
        seq!['{', '\n'] + stmts_text(fmt, b.0@, (d + 1) as nat) + indent_text(fmt, d)
            + seq!['}']
    }
}

/// The text of a drained statement stream: each statement's newline-
/// terminated text at the renderer's own nesting depth, concatenated in
/// order, with no indentation prefix.
pub open spec fn stream_text(fmt: Format, s: Seq<Statement>) -> Seq<char>
    decreases s,
{
    if s.len() == 0 {
        Seq::empty()
    } else {
        stmt_text(fmt, s[0], fmt.indent_size as nat) + seq!['\n']
            + stream_text(fmt, s.drop_first())
    }
}

/// The text of a whole tree: its top-level statements rendered as one block
/// standing at the renderer's own nesting depth.
pub open spec fn tree_text(fmt: Format, t: AbstractSyntaxTree) -> Seq<char> {
    block_text(fmt, Block(t.statements), fmt.indent_size as nat)
}

/// Joining two expression lists joins their texts, with a separator
/// exactly when both are non-empty.
pub proof fn lemma_exprs_text_concat(fmt: Format, a: Seq<Expression>, b: Seq<Expression>, d: nat)
    ensures
        a.len() == 0 ==> exprs_text(fmt, a + b, d) == exprs_text(fmt, b, d),
        b.len() == 0 ==> exprs_text(fmt, a + b, d) == exprs_text(fmt, a, d),
        a.len() > 0 && b.len() > 0 ==> exprs_text(fmt, a + b, d) == exprs_text(fmt, a, d)
            + ", "@ + exprs_text(fmt, b, d),
    decreases a.len(),
{
    if a.len() == 0 {
        assert(a + b =~= b);
    } else if b.len() == 0 {
        assert(a + b =~= a);
    } else {
        assert((a + b).drop_first() =~= a.drop_first() + b);
        lemma_exprs_text_concat(fmt, a.drop_first(), b, d);
        if a.len() == 1 {
            assert(exprs_text(fmt, a + b, d) =~= exprs_text(fmt, a, d) + ", "@
                + exprs_text(fmt, b, d));
        } else {
            assert(exprs_text(fmt, a + b, d) =~= exprs_text(fmt, a, d) + ", "@
                + exprs_text(fmt, b, d));
        }
    }
}

/// Joining two pair lists joins their texts, with a separator exactly when
/// both are non-empty.
pub proof fn lemma_pairs_text_concat(
    fmt: Format,
    a: Seq<(Expression, Expression)>,
    b: Seq<(Expression, Expression)>,
    d: nat,
)
    ensures
        a.len() == 0 ==> pairs_text(fmt, a + b, d) == pairs_text(fmt, b, d),
        b.len() == 0 ==> pairs_text(fmt, a + b, d) == pairs_text(fmt, a, d),
        a.len() > 0 && b.len() > 0 ==> pairs_text(fmt, a + b, d) == pairs_text(fmt, a, d)
            + ", "@ + pairs_text(fmt, b, d),
    decreases a.len(),
{
    if a.len() == 0 {
        assert(a + b =~= b);
    } else if b.len() == 0 {
        assert(a + b =~= a);
    } else {
        assert((a + b).drop_first() =~= a.drop_first() + b);
        lemma_pairs_text_concat(fmt, a.drop_first(), b, d);
        assert(pairs_text(fmt, a + b, d) =~= pairs_text(fmt, a, d) + ", "@
            + pairs_text(fmt, b, d));
    }
}

/// Joining two parameter lists joins their texts, with a separator exactly
/// when both are non-empty.
pub proof fn lemma_params_text_concat(a: Seq<String>, b: Seq<String>)
    ensures
        a.len() == 0 ==> params_text(a + b) == params_text(b),
        b.len() == 0 ==> params_text(a + b) == params_text(a),
        a.len() > 0 && b.len() > 0 ==> params_text(a + b) == params_text(a) + ", "@
            + params_text(b),
    decreases a.len(),
{
    if a.len() == 0 {
        assert(a + b =~= b);
    } else if b.len() == 0 {
        assert(a + b =~= a);
    } else {
        assert((a + b).drop_first() =~= a.drop_first() + b);
        lemma_params_text_concat(a.drop_first(), b);
        assert(params_text(a + b) =~= params_text(a) + ", "@ + params_text(b));
    }
}

/// Block-body lines concatenate: the lines of a joined statement list are
/// the lines of the first part followed by the lines of the second.
pub proof fn lemma_stmts_text_concat(fmt: Format, a: Seq<Statement>, b: Seq<Statement>, d: nat)
    ensures
        stmts_text(fmt, a + b, d) == stmts_text(fmt, a, d) + stmts_text(fmt, b, d),
    decreases a.len(),
{
    if a.len() == 0 {
        assert(a + b =~= b);
        assert(stmts_text(fmt, a + b, d) =~= stmts_text(fmt, a, d) + stmts_text(fmt, b, d));
    } else {
        assert((a + b).drop_first() =~= a.drop_first() + b);
        lemma_stmts_text_concat(fmt, a.drop_first(), b, d);
        assert(stmts_text(fmt, a + b, d) =~= stmts_text(fmt, a, d) + stmts_text(fmt, b, d));
    }
}

/// Stream text concatenates: draining a stream that yields `a` then `b`
/// gives the text for `a` followed by the text for `b`.
pub proof fn lemma_stream_text_concat(fmt: Format, a: Seq<Statement>, b: Seq<Statement>)
    ensures
        stream_text(fmt, a + b) == stream_text(fmt, a) + stream_text(fmt, b),
    decreases a.len(),
{
    if a.len() == 0 {
        assert(a + b =~= b);
        assert(stream_text(fmt, a + b) =~= stream_text(fmt, a) + stream_text(fmt, b));
    } else {
        assert((a + b).drop_first() =~= a.drop_first() + b);
        lemma_stream_text_concat(fmt, a.drop_first(), b);
        assert(stream_text(fmt, a + b) =~= stream_text(fmt, a) + stream_text(fmt, b));
    }
}

} // verus!
