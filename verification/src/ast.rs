//! The syntax tree that the renderer consumes.
//!
//! The tree is plain data: every node is a closed variant set, and every
//! container keeps its insertion order, so a tree determines its rendered
//! text completely.

use vstd::prelude::*;

verus! {

/// A literal value appearing in source text.
pub enum Literal {
    /// The `null` literal.
    Null,
    /// A machine integer, rendered in decimal.
    Integer(i64),
    /// An exact decimal rational: the pair `(m, s)` stands for `m / 10^s`.
    ///
    /// Keeping the denominator a power of ten makes the decimal rendering
    /// exact — no precision is lost through a binary float round-trip.
    Float(i64, u32),
    /// `true` or `false`.
    Boolean(bool),
    /// A string literal; the payload is emitted verbatim between double
    /// quotes, with no escaping (preserved behaviour).
    String(String),
    /// An ordered list, rendered in square brackets.
    Vec(Vec<Expression>),
    /// An ordered tuple, rendered in parentheses.
    Tuple(Vec<Expression>),
    /// Key/value pairs in insertion order, rendered in braces.
    HashMap(Vec<(Expression, Expression)>),
}

/// An expression node.
pub enum Expression {
    /// A bare name, emitted verbatim.
    Identifier(String),
    /// A literal value.
    Literal(Literal),
    /// A prefix operator applied to an operand, emitted with no space
    /// between the two.
    Prefix(String, Box<Expression>),
    /// An infix operator between two operands, emitted with one space on
    /// each side of the operator.
    Infix(String, Box<Expression>, Box<Expression>),
    /// An anonymous function: parameter names and a body block.
    Fn { params: Vec<String>, body: Block },
    /// A call: callee expression and ordered arguments.
    Call { function: Box<Expression>, arguments: Vec<Expression> },
    /// An indexing expression: target and index.
    Index(Box<Expression>, Box<Expression>),
}

/// A statement node.
pub enum Statement {
    /// `let name = value;`
    Let(String, Expression),
    /// An expression evaluated for effect, terminated by a semicolon.
    Expression(Expression),
    /// An expression whose value is the block's implicit result; no
    /// terminating semicolon is emitted.
    ExpressionReturn(Expression),
    /// A named function definition.
    Fn { name: String, params: Vec<String>, body: Block },
    /// `import "name";`
    Import(String),
}

/// A brace-delimited ordered sequence of statements.
pub struct Block(pub Vec<Statement>);

/// The root unit handed to the renderer: an ordered sequence of top-level
/// statements.
pub struct AbstractSyntaxTree {
    pub statements: Vec<Statement>,
}

/// The structured failure a statement source may report while being
/// drained.
#[derive(Debug, PartialEq, Eq)]
pub struct ParseError {
    pub message: String,
}

} // verus!
