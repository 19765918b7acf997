//! Laws of the rendered text, proved over the specification functions that
//! the renderer's contracts are stated against.

use vstd::prelude::*;
use crate::ast::{Literal, Expression, Statement, Block, AbstractSyntaxTree};
use crate::render::Format;
use crate::text::{
    indent_text, lit_text, stmt_text, stmts_text, block_text, tree_text, lemma_stmts_text_concat,
};

verus! {

/// Rendering is deterministic: the text of a tree is a function of the
/// configuration and the tree alone, so repeated renders of one tree under
/// one configuration are byte-identical.
pub proof fn lemma_render_deterministic(
    fmt: Format,
    t: AbstractSyntaxTree,
    r1: Seq<char>,
    r2: Seq<char>,
)
    requires
        r1 == tree_text(fmt, t),
        r2 == tree_text(fmt, t),
    ensures
        r1 == r2,
{
}

/// Empty collections render with zero internal whitespace, whatever the
/// configuration and depth: `[]`, `()` and `{}`.
pub proof fn lemma_empty_collections(
    fmt: Format,
    v: Vec<Expression>,
    t: Vec<Expression>,
    m: Vec<(Expression, Expression)>,
    d: nat,
)
    requires
        v@.len() == 0,
        t@.len() == 0,
        m@.len() == 0,
    ensures
        lit_text(fmt, Literal::Vec(v), d) == seq!['[', ']'],
        lit_text(fmt, Literal::Tuple(t), d) == seq!['(', ')'],
        lit_text(fmt, Literal::HashMap(m), d) == seq!['{', '}'],
{
    assert(lit_text(fmt, Literal::Vec(v), d) =~= seq!['[', ']']);
    assert(lit_text(fmt, Literal::Tuple(t), d) =~= seq!['(', ')']);
    assert(lit_text(fmt, Literal::HashMap(m), d) =~= seq!['{', '}']);
}

/// The body lines of a statement list split around any one statement.
pub proof fn lemma_stmts_text_split(fmt: Format, s: Seq<Statement>, d: nat, i: int)
    requires
        0 <= i < s.len(),
    ensures
        stmts_text(fmt, s, d) == stmts_text(fmt, s.take(i), d) + (indent_text(fmt, d)
            + stmt_text(fmt, s[i], d) + seq!['\n']) + stmts_text(fmt, s.skip(i + 1), d),
{
    assert(s =~= s.take(i) + seq![s[i]] + s.skip(i + 1));
    lemma_stmts_text_concat(fmt, s.take(i) + seq![s[i]], s.skip(i + 1), d);
    lemma_stmts_text_concat(fmt, s.take(i), seq![s[i]], d);
    assert(stmts_text(fmt, seq![s[i]], d) =~= indent_text(fmt, d) + stmt_text(fmt, s[i], d)
        + seq!['\n']) by {
        reveal_with_fuel(stmts_text, 2);
    }
    assert(stmts_text(fmt, s, d) =~= stmts_text(fmt, s.take(i), d) + (indent_text(fmt, d)
        + stmt_text(fmt, s[i], d) + seq!['\n']) + stmts_text(fmt, s.skip(i + 1), d));
}

/// The indentation nesting invariant: inside a block standing at depth
/// `d`, every statement lies on a line of its own that begins with exactly
/// `d + 1` indentation units — the statement's rendered line, prefix
/// included, appears verbatim in the block's text, at the offset given by
/// the opening brace and the lines before it.
pub proof fn lemma_block_statement_indent(fmt: Format, b: Block, d: nat, i: int)
    requires
        0 <= i < b.0@.len(),
    ensures
        ({
            let whole = block_text(fmt, b, d);
            let off = 2 + stmts_text(fmt, b.0@.take(i), (d + 1) as nat).len();
            let line = indent_text(fmt, (d + 1) as nat) + stmt_text(fmt, b.0@[i], (d + 1) as nat)
                + seq!['\n'];
            &&& off + line.len() <= whole.len()
            &&& whole.subrange(off as int, off + line.len() as int) == line
        }),
{
    let whole = block_text(fmt, b, d);
    let off = 2 + stmts_text(fmt, b.0@.take(i), (d + 1) as nat).len();
    let line = indent_text(fmt, (d + 1) as nat) + stmt_text(fmt, b.0@[i], (d + 1) as nat)
        + seq!['\n'];
    lemma_stmts_text_split(fmt, b.0@, (d + 1) as nat, i);
    assert(whole =~= (seq!['{', '\n'] + stmts_text(fmt, b.0@.take(i), (d + 1) as nat)) + line
        + (stmts_text(fmt, b.0@.skip(i + 1), (d + 1) as nat) + indent_text(fmt, d)
        + seq!['}']));
    assert(whole.subrange(off as int, off + line.len() as int) =~= line);
}

} // verus!
