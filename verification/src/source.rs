//! Sequential sources of parsed statements.
//!
//! The renderer can drain a source statement by statement.  A source is
//! modelled by the statements it has still to yield and by the failure, if
//! any, it will report once they are exhausted: each pull either yields the
//! next statement, ends cleanly, or fails with a structured error.

use vstd::prelude::*;
use crate::ast::{Statement, ParseError};

verus! {

/// A sequential source of statements, pulled one at a time.
///
/// `pending` are the statements the source has still to yield, in order;
/// `failure` is the error it reports after them, if it does not end
/// cleanly.
pub trait StatementSource: Sized {
    /// The statements the source has still to yield.
    spec fn pending(&self) -> Seq<Statement>;

    /// The failure the source reports once the statements are exhausted,
    /// if any.
    spec fn failure(&self) -> Option<ParseError>;

    /// Pulls the next statement: yields it while any are pending, then
    /// either ends cleanly or reports the stored failure.
    fn next(&mut self) -> (r: Result<Option<Statement>, ParseError>)
        ensures
            old(self).pending().len() > 0 ==> ({
                &&& r == Ok::<Option<Statement>, ParseError>(Some(old(self).pending()[0]))
                &&& final(self).pending() == old(self).pending().drop_first()
                &&& final(self).failure() == old(self).failure()
            }),
            old(self).pending().len() == 0 ==> (match old(self).failure() {
                Some(e) => r == Err::<Option<Statement>, ParseError>(e),
                None => ({
                    &&& r == Ok::<Option<Statement>, ParseError>(None)
                    &&& final(self).pending().len() == 0
                    &&& final(self).failure() is None
                }),
            }),
    ;
}

/// A pre-parsed statement source: it yields its stored statements in
/// order, then either ends cleanly or reports its stored failure.
pub struct Parser {
    statements: Vec<Statement>,
    error: Option<ParseError>,
}

impl Parser {
    /// A source that yields `statements` in order and then ends cleanly
    /// when `error` is `None`, or fails with it otherwise.
    pub fn new(statements: Vec<Statement>, error: Option<ParseError>) -> (p: Parser)
        ensures
            p.pending() == statements@,
            p.failure() == error,
    {
        Parser { statements, error }
    }
}

impl StatementSource for Parser {
    closed spec fn pending(&self) -> Seq<Statement> {
        self.statements@
    }

    closed spec fn failure(&self) -> Option<ParseError> {
        self.error
    }

    fn next(&mut self) -> (r: Result<Option<Statement>, ParseError>) {
        if self.statements.len() > 0 {
            let s = self.statements.remove(0);
            proof {
                assert(old(self).statements@.remove(0) =~= old(self).statements@.drop_first());
            }
            Ok(Some(s))
        } else {
            match self.error.take() {
                Some(e) => Err(e),
                None => Ok(None),
            }
        }
    }
}

} // verus!
