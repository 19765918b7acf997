//! The renderer: executable rendering, proved to produce the text that
//! [`crate::text`] specifies.
//!
//! Nesting depth is threaded through the recursion as an explicit
//! parameter (a ready-made indentation prefix with its ghost depth), so a
//! render call leaves the renderer exactly as it found it.

use vstd::prelude::*;
use vstd::string::StringExecFns;
use crate::ast::{Literal, Expression, Statement, Block, AbstractSyntaxTree, ParseError};
use crate::digits::{char_run, i64_string, float_string};
use crate::text::{
    indent_unit, indent_text, lit_text, exprs_text, pairs_text, params_text, expr_text,
    stmt_text, stmts_text, block_text, stream_text, tree_text, lemma_exprs_text_concat,
    lemma_pairs_text_concat, lemma_params_text_concat, lemma_stmts_text_concat,
    lemma_stream_text_concat,
};
use crate::source::StatementSource;

verus! {

/// The renderer: formatting configuration and the nesting depth at which
/// rendering starts.
pub struct Format {
    /// Indent with tab characters when true, with runs of spaces otherwise.
    pub hard_tabs: bool,
    /// Spaces per indentation unit when not using hard tabs.
    pub tab_spaces: usize,
    /// The nesting depth at which rendering starts.
    pub indent_size: usize,
}

impl Default for Format {
    /// The default configuration: hard tabs, four-space width, depth zero.
    fn default() -> (r: Self)
        ensures
            r == (Format { hard_tabs: true, tab_spaces: 4, indent_size: 0 }),
    {
        Format { hard_tabs: true, tab_spaces: 4, indent_size: 0 }
    }
}

impl Format {
    /// A renderer at the default configuration.
    pub fn new() -> (r: Self)
        ensures
            r == (Format { hard_tabs: true, tab_spaces: 4, indent_size: 0 }),
    {
        Format::default()
    }

    /// One indentation unit of this configuration.
    fn indent_unit_string(&self) -> (r: String)
        ensures
            r@ == indent_unit(*self),
    {
        if self.hard_tabs {
            let mut s = String::new();
            s.append("\t");
            proof {
                reveal_strlit("\t");
                assert(s@ =~= indent_unit(*self));
            }
            s
        } else {
            let mut s = String::new();
            let mut i: usize = 0;
            while i < self.tab_spaces
                invariant
                    i <= self.tab_spaces,
                    s@ == char_run(' ', i as nat),
                decreases self.tab_spaces - i,
            {
                s.append(" ");
                proof {
                    reveal_strlit(" ");
                    assert(s@ =~= char_run(' ', (i + 1) as nat));
                }
                i = i + 1;
            }
            proof {
                assert(s@ =~= indent_unit(*self));
            }
            s
        }
    }

    /// The indentation prefix for nesting depth `n`.
    fn indent_string(&self, n: usize) -> (r: String)
        ensures
            r@ == indent_text(*self, n as nat),
    {
        let unit = self.indent_unit_string();
        let mut s = String::new();
        let mut i: usize = 0;
        while i < n
            invariant
                i <= n,
                s@ == indent_text(*self, i as nat),
                unit@ == indent_unit(*self),
            decreases n - i,
        {
            s.append(unit.as_str());
            proof {
                assert(s@ =~= indent_text(*self, (i + 1) as nat));
            }
            i = i + 1;
        }
        s
    }

    /// Renders a literal at the depth whose prefix is `prefix`.
    fn literal_string(&self, l: &Literal, prefix: &String, Ghost(d): Ghost<nat>) -> (r: String)
        requires
            prefix@ == indent_text(*self, d),
        ensures
            r@ == lit_text(*self, *l, d),
        decreases *l,
    {
        match l {
            Literal::Null => "null".to_owned(),
            Literal::Integer(i) => i64_string(*i),
            Literal::Float(m, s) => float_string(*m, *s),
            Literal::Boolean(b) => if *b {
                "true".to_owned()
            } else {
                "false".to_owned()
            },
            Literal::String(sv) => {
                let mut s = String::new();
                s.append("\"");
                s.append(sv.as_str());
                s.append("\"");
                proof {
                    reveal_strlit("\"");
                    assert(s@ =~= lit_text(*self, *l, d));
                }
                s
            },
            Literal::Vec(v) => {
                let mut s = String::new();
                s.append("[");
                let items = self.exprs_string(v, prefix, Ghost(d));
                s.append(items.as_str());
                s.append("]");
                proof {
                    reveal_strlit("[");
                    reveal_strlit("]");
                    assert(s@ =~= lit_text(*self, *l, d));
                }
                s
            },
            Literal::Tuple(v) => {
                let mut s = String::new();
                s.append("(");
                let items = self.exprs_string(v, prefix, Ghost(d));
                s.append(items.as_str());
                s.append(")");
                proof {
                    reveal_strlit("(");
                    reveal_strlit(")");
                    assert(s@ =~= lit_text(*self, *l, d));
                }
                s
            },
            Literal::HashMap(m) => {
                let mut s = String::new();
                s.append("{");
                let items = self.pairs_string(m, prefix, Ghost(d));
                s.append(items.as_str());
                s.append("}");
                proof {
                    reveal_strlit("{");
                    reveal_strlit("}");
                    assert(s@ =~= lit_text(*self, *l, d));
                }
                s
            },
        }
    }

    /// Renders a comma-and-space joined expression list.
    fn exprs_string(&self, v: &Vec<Expression>, prefix: &String, Ghost(d): Ghost<nat>) -> (r:
        String)
        requires
            prefix@ == indent_text(*self, d),
        ensures
            r@ == exprs_text(*self, v@, d),
        decreases v@,
    {
        let mut s = String::new();
        let mut i: usize = 0;
        while i < v.len()
            invariant
                i <= v@.len(),
                s@ == exprs_text(*self, v@.take(i as int), d),
                prefix@ == indent_text(*self, d),
            decreases v@.len() - i,
        {
            if i > 0 {
                s.append(", ");
            }
            let piece = self.expression_string(&v[i], prefix, Ghost(d));
            s.append(piece.as_str());
            proof {
                lemma_exprs_text_concat(*self, v@.take(i as int), seq![v@[i as int]], d);
                assert(v@.take((i + 1) as int) =~= v@.take(i as int) + seq![v@[i as int]]);
                assert(s@ =~= exprs_text(*self, v@.take((i + 1) as int), d));
            }
            i = i + 1;
        }
        proof {
            assert(v@.take(v@.len() as int) =~= v@);
        }
        s
    }

    /// Renders a comma-and-space joined `key: value` pair list.
    fn pairs_string(
        &self,
        v: &Vec<(Expression, Expression)>,
        prefix: &String,
        Ghost(d): Ghost<nat>,
    ) -> (r: String)
        requires
            prefix@ == indent_text(*self, d),
        ensures
            r@ == pairs_text(*self, v@, d),
        decreases v@,
    {
        let mut s = String::new();
        let mut i: usize = 0;
        while i < v.len()
            invariant
                i <= v@.len(),
                s@ == pairs_text(*self, v@.take(i as int), d),
                prefix@ == indent_text(*self, d),
            decreases v@.len() - i,
        {
            if i > 0 {
                s.append(", ");
            }
            let pair = &v[i];
            let key = self.expression_string(&pair.0, prefix, Ghost(d));
            s.append(key.as_str());
            s.append(": ");
            let value = self.expression_string(&pair.1, prefix, Ghost(d));
            s.append(value.as_str());
            proof {
                lemma_pairs_text_concat(*self, v@.take(i as int), seq![v@[i as int]], d);
                assert(v@.take((i + 1) as int) =~= v@.take(i as int) + seq![v@[i as int]]);
                assert(s@ =~= pairs_text(*self, v@.take((i + 1) as int), d));
            }
            i = i + 1;
        }
        proof {
            assert(v@.take(v@.len() as int) =~= v@);
        }
        s
    }

    /// Renders a comma-and-space joined parameter-name list.
    fn params_string(v: &Vec<String>) -> (r: String)
        ensures
            r@ == params_text(v@),
    {
        let mut s = String::new();
        let mut i: usize = 0;
        while i < v.len()
            invariant
                i <= v@.len(),
                s@ == params_text(v@.take(i as int)),
            decreases v@.len() - i,
        {
            if i > 0 {
                s.append(", ");
            }
            s.append(v[i].as_str());
            proof {
                lemma_params_text_concat(v@.take(i as int), seq![v@[i as int]]);
                assert(v@.take((i + 1) as int) =~= v@.take(i as int) + seq![v@[i as int]]);
                assert(s@ =~= params_text(v@.take((i + 1) as int)));
            }
            i = i + 1;
        }
        proof {
            assert(v@.take(v@.len() as int) =~= v@);
        }
        s
    }

    /// Renders an expression at the depth whose prefix is `prefix`.
    fn expression_string(&self, e: &Expression, prefix: &String, Ghost(d): Ghost<nat>) -> (r:
        String)
        requires
            prefix@ == indent_text(*self, d),
        ensures
            r@ == expr_text(*self, *e, d),
        decreases *e,
    {
        match e {
            Expression::Identifier(name) => name.clone(),
            Expression::Literal(l) => self.literal_string(l, prefix, Ghost(d)),
            Expression::Prefix(op, rhs) => {
                let mut s = op.clone();
                let operand = self.expression_string(&**rhs, prefix, Ghost(d));
                s.append(operand.as_str());
                proof {
                    assert(s@ =~= expr_text(*self, *e, d));
                }
                s
            },
            Expression::Infix(op, lhs, rhs) => {
                let mut s = self.expression_string(&**lhs, prefix, Ghost(d));
                s.append(" ");
                s.append(op.as_str());
                s.append(" ");
                let right = self.expression_string(&**rhs, prefix, Ghost(d));
                s.append(right.as_str());
                proof {
                    reveal_strlit(" ");
                    assert(s@ =~= expr_text(*self, *e, d));
                }
                s
            },
            Expression::Fn { params, body } => {
                let mut s = String::new();
                s.append("fn (");
                let names = Format::params_string(params);
                s.append(names.as_str());
                s.append(") ");
                let inner = self.block_string(body, prefix, Ghost(d));
                s.append(inner.as_str());
                proof {
                    assert(s@ =~= expr_text(*self, *e, d));
                }
                s
            },
            Expression::Call { function, arguments } => {
                let mut s = self.expression_string(&**function, prefix, Ghost(d));
                s.append("(");
                let args = self.exprs_string(arguments, prefix, Ghost(d));
                s.append(args.as_str());
                s.append(")");
                proof {
                    reveal_strlit("(");
                    reveal_strlit(")");
                    assert(s@ =~= expr_text(*self, *e, d));
                }
                s
            },
            Expression::Index(target, index) => {
                let mut s = self.expression_string(&**target, prefix, Ghost(d));
                s.append("[");
                let inner = self.expression_string(&**index, prefix, Ghost(d));
                s.append(inner.as_str());
                s.append("]");
                proof {
                    reveal_strlit("[");
                    reveal_strlit("]");
                    assert(s@ =~= expr_text(*self, *e, d));
                }
                s
            },
        }
    }

    /// Renders a statement, without its trailing newline, at the depth
    /// whose prefix is `prefix`.
    fn statement_string(&self, st: &Statement, prefix: &String, Ghost(d): Ghost<nat>) -> (r:
        String)
        requires
            prefix@ == indent_text(*self, d),
        ensures
            r@ == stmt_text(*self, *st, d),
        decreases *st,
    {
        match st {
            Statement::Let(name, value) => {
                let mut s = String::new();
                s.append("let ");
                s.append(name.as_str());
                s.append(" = ");
                let init = self.expression_string(value, prefix, Ghost(d));
                s.append(init.as_str());
                s.append(";");
                proof {
                    reveal_strlit(";");
                    assert(s@ =~= stmt_text(*self, *st, d));
                }
                s
            },
            Statement::Expression(e) => {
                let mut s = self.expression_string(e, prefix, Ghost(d));
                s.append(";");
                proof {
                    reveal_strlit(";");
                    assert(s@ =~= stmt_text(*self, *st, d));
                }
                s
            },
            Statement::ExpressionReturn(e) => self.expression_string(e, prefix, Ghost(d)),
            Statement::Fn { name, params, body } => {
                let mut s = String::new();
                s.append("fn ");
                s.append(name.as_str());
                s.append("(");
                let names = Format::params_string(params);
                s.append(names.as_str());
                s.append(") ");
                let inner = self.block_string(body, prefix, Ghost(d));
                s.append(inner.as_str());
                proof {
                    reveal_strlit("(");
                    assert(s@ =~= stmt_text(*self, *st, d));
                }
                s
            },
            Statement::Import(name) => {
                let mut s = String::new();
                s.append("import \"");
                s.append(name.as_str());
                s.append("\";");
                proof {
                    assert(s@ =~= stmt_text(*self, *st, d));
                }
                s
            },
        }
    }

    /// Renders a block standing at the depth whose prefix is `prefix`: its
    /// statements one per line at the next depth, between braces.
    fn block_string(&self, b: &Block, prefix: &String, Ghost(d): Ghost<nat>) -> (r: String)
        requires
            prefix@ == indent_text(*self, d),
        ensures
            r@ == block_text(*self, *b, d),
        decreases *b,
    {
        if b.0.len() == 0 {
            "{}".to_owned()
        } else {
            let mut child_prefix = prefix.clone();
            let unit = self.indent_unit_string();
            child_prefix.append(unit.as_str());
            proof {
                assert(child_prefix@ =~= indent_text(*self, d + 1));
            }
            let mut body = String::new();
            let mut i: usize = 0;
            while i < b.0.len()
                invariant
                    i <= b.0@.len(),
                    body@ == stmts_text(*self, b.0@.take(i as int), d + 1),
                    child_prefix@ == indent_text(*self, d + 1),
                decreases b.0@.len() - i,
            {
                body.append(child_prefix.as_str());
                let piece = self.statement_string(&b.0[i], &child_prefix, Ghost(d + 1));
                body.append(piece.as_str());
                body.append("\n");
                proof {
                    reveal_strlit("\n");
                    reveal_with_fuel(stmts_text, 2);
                    lemma_stmts_text_concat(
                        *self,
                        b.0@.take(i as int),
                        seq![b.0@[i as int]],
                        d + 1,
                    );
                    assert(b.0@.take((i + 1) as int) =~= b.0@.take(i as int)
                        + seq![b.0@[i as int]]);
                    assert(body@ =~= stmts_text(*self, b.0@.take((i + 1) as int), d + 1));
                }
                i = i + 1;
            }
            let mut s = String::new();
            s.append("{\n");
            s.append(body.as_str());
            s.append(prefix.as_str());
            s.append("}");
            proof {
                reveal_strlit("{\n");
                reveal_strlit("}");
                assert(b.0@.take(b.0@.len() as int) =~= b.0@);
                assert(s@ =~= block_text(*self, *b, d));
            }
            s
        }
    }

    /// Renders a complete tree: its top-level statements as one block
    /// standing at the renderer's own nesting depth, braces included.
    ///
    /// The output is pinned down exactly by the tree and the
    /// configuration, and the renderer is left unchanged.
    pub fn run(&mut self, ast: AbstractSyntaxTree) -> (r: String)
        ensures
            *final(self) == *old(self),
            r@ == tree_text(*old(self), ast),
    {
        let prefix = self.indent_string(self.indent_size);
        let b = Block(ast.statements);
        let r = self.block_string(&b, &prefix, Ghost(self.indent_size as nat));
        r
    }

    /// Drains a statement source and renders what it yields: each
    /// statement's newline-terminated text, concatenated in order.
    ///
    /// A source that ends cleanly gives exactly the text of the statements
    /// it yielded; a failing source's error is returned instead, and no
    /// partial text is observable.  The renderer is left unchanged.
    #[verifier::loop_isolation(false)]
    pub fn run_with_parser<S: StatementSource>(&mut self, parser: S) -> (r: Result<
        String,
        ParseError,
    >)
        ensures
            *final(self) == *old(self),
            match parser.failure() {
                None => r matches Ok(text) && text@ == stream_text(*old(self), parser.pending()),
                Some(e) => r == Err::<String, ParseError>(e),
            },
    {
        let ghost orig: Seq<Statement> = parser.pending();
        let ghost gfail: Option<ParseError> = parser.failure();
        let ghost fmt: Format = *self;
        let mut src = parser;
        let prefix = self.indent_string(self.indent_size);
        let mut out = String::new();
        let ghost mut taken: Seq<Statement> = Seq::empty();
        proof {
            assert(orig =~= taken + src.pending());
        }
        loop
            invariant
                *self == fmt,
                orig == taken + src.pending(),
                src.failure() == gfail,
                out@ == stream_text(fmt, taken),
                prefix@ == indent_text(fmt, fmt.indent_size as nat),
            decreases src.pending().len(),
        {
            match src.next() {
                Ok(Some(st)) => {
                    let piece = self.statement_string(&st, &prefix, Ghost(
                        fmt.indent_size as nat,
                    ));
                    out.append(piece.as_str());
                    out.append("\n");
                    proof {
                        reveal_strlit("\n");
                        reveal_with_fuel(stream_text, 2);
                        lemma_stream_text_concat(fmt, taken, seq![st]);
                        assert(stream_text(fmt, seq![st]) =~= stmt_text(
                            fmt,
                            st,
                            fmt.indent_size as nat,
                        ) + seq!['\n']);
                        taken = taken + seq![st];
                        assert(out@ =~= stream_text(fmt, taken));
                        assert(orig =~= taken + src.pending());
                    }
                },
                Ok(None) => {
                    proof {
                        assert(orig =~= taken);
                    }
                    return Ok(out);
                },
                Err(e) => {
                    return Err(e);
                },
            }
        }
    }
}

} // verus!
